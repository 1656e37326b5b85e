use vibe_kanban::tasks::{
    Task, TaskDetails, TaskPriority, TaskServer, TaskStatus, TaskSummary, TaskWithAttemptStatus,
    count_task_statuses, created_message, duplicate_message, effective_limit, filter_tasks,
    find_duplicate, merge_pm_docs, normalize_script, parse_priority, parse_status,
    summarize_tasks,
};

fn sample_task(id: &str, title: &str, status: TaskStatus) -> Task {
    Task {
        id: id.to_string(),
        title: title.to_string(),
        description: None,
        status,
        created_at: "2024-01-01T00:00:00+00:00".to_string(),
        updated_at: "2024-01-02T00:00:00+00:00".to_string(),
    }
}

fn sample_with_status(id: &str, status: TaskStatus) -> TaskWithAttemptStatus {
    TaskWithAttemptStatus {
        id: id.to_string(),
        title: format!("task {}", id),
        status,
        created_at: "2024-01-01T00:00:00+00:00".to_string(),
        updated_at: "2024-01-02T00:00:00+00:00".to_string(),
        has_in_progress_attempt: false,
        last_attempt_failed: false,
    }
}

#[test]
fn statuses_parse_only_their_wire_names() {
    assert_eq!(parse_status("todo"), Some(TaskStatus::Todo));
    assert_eq!(parse_status("inprogress"), Some(TaskStatus::InProgress));
    assert_eq!(parse_status("inreview"), Some(TaskStatus::InReview));
    assert_eq!(parse_status("done"), Some(TaskStatus::Done));
    assert_eq!(parse_status("cancelled"), Some(TaskStatus::Cancelled));
    assert_eq!(parse_status("Todo"), None);
    assert_eq!(parse_status("archived"), None);
}

#[test]
fn priorities_parse_case_insensitively() {
    assert_eq!(parse_priority("urgent"), Some(TaskPriority::Urgent));
    assert_eq!(parse_priority("HIGH"), Some(TaskPriority::High));
    assert_eq!(parse_priority("Medium"), Some(TaskPriority::Medium));
    assert_eq!(parse_priority("low"), Some(TaskPriority::Low));
    assert_eq!(parse_priority("critical"), None);
}

#[test]
fn urls_are_joined_with_exactly_one_slash() {
    let server = TaskServer::new("http://localhost:3000/");
    assert_eq!(server.url("/api/tasks"), "http://localhost:3000/api/tasks");
    let server = TaskServer::new("http://localhost:3000");
    assert_eq!(server.url("api/tasks"), "http://localhost:3000/api/tasks");
    let server = TaskServer::new("http://localhost:3000///");
    assert_eq!(server.url("///api"), "http://localhost:3000/api");
}

#[test]
fn the_first_duplicate_is_found() {
    let existing = vec![
        sample_task("1", "Fix payment bug", TaskStatus::Todo),
        sample_task("2", "Add login feature", TaskStatus::Todo),
        sample_task("3", "login", TaskStatus::Todo),
    ];
    assert_eq!(find_duplicate("Login", &existing), Some(1));
    assert_eq!(find_duplicate("database", &existing), None);
}

#[test]
fn task_creation_messages_quote_the_title() {
    assert_eq!(
        duplicate_message("Add login feature"),
        "Found existing similar task: 'Add login feature'. \
         Returning existing task instead of creating duplicate."
    );
    assert_eq!(created_message("New one"), "Created new task: 'New one'");
}

#[test]
fn empty_scripts_clear_the_stored_one() {
    assert_eq!(normalize_script(String::new()), None);
    assert_eq!(normalize_script("make build".to_string()), Some("make build".to_string()));
}

#[test]
fn the_listing_limit_defaults_and_never_goes_negative() {
    assert_eq!(effective_limit(None), 50);
    assert_eq!(effective_limit(Some(10)), 10);
    assert_eq!(effective_limit(Some(0)), 0);
    assert_eq!(effective_limit(Some(-3)), 0);
}

#[test]
fn listings_filter_by_status_and_cap_at_the_limit() {
    let tasks = vec![
        sample_with_status("1", TaskStatus::Todo),
        sample_with_status("2", TaskStatus::Done),
        sample_with_status("3", TaskStatus::Todo),
        sample_with_status("4", TaskStatus::Todo),
    ];
    let filtered = filter_tasks(&tasks, Some(TaskStatus::Todo), 2);
    let ids: Vec<&str> = filtered.iter().map(|t| t.id.as_str()).collect();
    assert_eq!(ids, vec!["1", "3"]);

    let unfiltered = filter_tasks(&tasks, None, 50);
    assert_eq!(unfiltered.len(), 4);
}

#[test]
fn summaries_carry_the_attempt_state() {
    let mut t = sample_with_status("7", TaskStatus::InReview);
    t.has_in_progress_attempt = true;
    let summaries = summarize_tasks(vec![t]);
    assert_eq!(summaries.len(), 1);
    assert_eq!(summaries[0].id, "7");
    assert_eq!(summaries[0].status, "inreview");
    assert_eq!(summaries[0].has_in_progress_attempt, Some(true));
    assert_eq!(summaries[0].last_attempt_failed, Some(false));
}

#[test]
fn details_come_without_attempt_state() {
    let d = TaskDetails::from_task(sample_task("9", "One", TaskStatus::Cancelled));
    assert_eq!(d.id, "9");
    assert_eq!(d.status, "cancelled");
    assert!(d.has_in_progress_attempt.is_none());
    assert!(d.last_attempt_failed.is_none());

    let s = TaskSummary::from_task_with_status(sample_with_status("8", TaskStatus::Done));
    assert_eq!(s.status, "done");
}

#[test]
fn progress_counts_done_and_in_progress_tasks() {
    let statuses = vec![
        TaskStatus::Done,
        TaskStatus::Todo,
        TaskStatus::InProgress,
        TaskStatus::Done,
        TaskStatus::Cancelled,
    ];
    let (total, completed, in_progress) = count_task_statuses(&statuses);
    assert_eq!(total, 5);
    assert_eq!(completed, 2);
    assert_eq!(in_progress, 1);
}

#[test]
fn docs_merge_appends_after_a_blank_line() {
    let existing = "## Old".to_string();
    assert_eq!(
        merge_pm_docs(Some(&existing), "## New".to_string(), None),
        "## Old\n\n## New"
    );
    let mode = "append".to_string();
    assert_eq!(
        merge_pm_docs(Some(&existing), "## New".to_string(), Some(&mode)),
        "## Old\n\n## New"
    );
}

#[test]
fn docs_merge_replace_swaps_the_whole_text() {
    let existing = "## Old".to_string();
    let mode = "replace".to_string();
    assert_eq!(
        merge_pm_docs(Some(&existing), "## New".to_string(), Some(&mode)),
        "## New"
    );
}

#[test]
fn docs_merge_onto_nothing_is_the_new_text() {
    assert_eq!(merge_pm_docs(None, "fresh".to_string(), None), "fresh");
    let empty = String::new();
    assert_eq!(merge_pm_docs(Some(&empty), "fresh".to_string(), None), "fresh");
}
