use vstd::prelude::*;
use vstd::string::StringExecFns;
use crate::text::chars_to_string;
use crate::text::lower_of;
use crate::text::lowercase;
use crate::text::spec_contains;
use crate::text::contains_str;
use crate::text::str_eq;
use crate::text::to_chars;

verus! {

/// The lifecycle status of a task.
#[derive(Clone, Copy, PartialEq, Eq, Structural, Debug)]
pub enum TaskStatus {
    Todo,
    InProgress,
    InReview,
    Done,
    Cancelled,
}

pub open spec fn spec_status_name(s: TaskStatus) -> Seq<char> {
    match s {
        TaskStatus::Todo => "todo"@,
        TaskStatus::InProgress => "inprogress"@,
        TaskStatus::InReview => "inreview"@,
        TaskStatus::Done => "done"@,
        TaskStatus::Cancelled => "cancelled"@,
    }
}

impl TaskStatus {
    /// The wire name of this status.
    pub fn as_str(&self) -> (r: &'static str)
        ensures
            r@ == spec_status_name(*self),
    {
        match self {
            TaskStatus::Todo => "todo",
            TaskStatus::InProgress => "inprogress",
            TaskStatus::InReview => "inreview",
            TaskStatus::Done => "done",
            TaskStatus::Cancelled => "cancelled",
        }
    }
}

pub open spec fn spec_parse_status(s: Seq<char>) -> Option<TaskStatus> {
    if s == "todo"@ {
        Some(TaskStatus::Todo)
    } else if s == "inprogress"@ {
        Some(TaskStatus::InProgress)
    } else if s == "inreview"@ {
        Some(TaskStatus::InReview)
    } else if s == "done"@ {
        Some(TaskStatus::Done)
    } else if s == "cancelled"@ {
        Some(TaskStatus::Cancelled)
    } else {
        None
    }
}

/// Parses a status filter; only the exact wire names are accepted.
pub fn parse_status(s: &str) -> (r: Option<TaskStatus>)
    ensures
        r == spec_parse_status(s@),
{
    if str_eq(s, "todo") {
        Some(TaskStatus::Todo)
    } else if str_eq(s, "inprogress") {
        Some(TaskStatus::InProgress)
    } else if str_eq(s, "inreview") {
        Some(TaskStatus::InReview)
    } else if str_eq(s, "done") {
        Some(TaskStatus::Done)
    } else if str_eq(s, "cancelled") {
        Some(TaskStatus::Cancelled)
    } else {
        None
    }
}

/// The urgency of a task.
#[derive(Clone, Copy, PartialEq, Eq, Structural, Debug)]
pub enum TaskPriority {
    Urgent,
    High,
    Medium,
    Low,
}

pub open spec fn spec_parse_priority(lower: Seq<char>) -> Option<TaskPriority> {
    if lower == "urgent"@ {
        Some(TaskPriority::Urgent)
    } else if lower == "high"@ {
        Some(TaskPriority::High)
    } else if lower == "medium"@ {
        Some(TaskPriority::Medium)
    } else if lower == "low"@ {
        Some(TaskPriority::Low)
    } else {
        None
    }
}

/// Parses a task priority, case-insensitively; any other word is no
/// priority at all.
pub fn parse_priority(s: &str) -> (r: Option<TaskPriority>)
    ensures
        r == spec_parse_priority(lower_of(s@)),
{
    let lower = lowercase(s);
    if str_eq(lower.as_str(), "urgent") {
        Some(TaskPriority::Urgent)
    } else if str_eq(lower.as_str(), "high") {
        Some(TaskPriority::High)
    } else if str_eq(lower.as_str(), "medium") {
        Some(TaskPriority::Medium)
    } else if str_eq(lower.as_str(), "low") {
        Some(TaskPriority::Low)
    } else {
        None
    }
}

/// A project, as the catalogue reports it.
pub struct Project {
    pub id: String,
    pub name: String,
    pub created_at: String,
    pub updated_at: String,
}

/// A task, as the store reports it.
pub struct Task {
    pub id: String,
    pub title: String,
    pub description: Option<String>,
    pub status: TaskStatus,
    pub created_at: String,
    pub updated_at: String,
}

/// A task together with its execution-attempt state.
pub struct TaskWithAttemptStatus {
    pub id: String,
    pub title: String,
    pub status: TaskStatus,
    pub created_at: String,
    pub updated_at: String,
    pub has_in_progress_attempt: bool,
    pub last_attempt_failed: bool,
}

impl TaskWithAttemptStatus {
    /// A field-for-field copy of this record.
    pub fn duplicate(&self) -> (r: TaskWithAttemptStatus)
        ensures
            r == *self,
    {
        TaskWithAttemptStatus {
            id: self.id.clone(),
            title: self.title.clone(),
            status: self.status,
            created_at: self.created_at.clone(),
            updated_at: self.updated_at.clone(),
            has_in_progress_attempt: self.has_in_progress_attempt,
            last_attempt_failed: self.last_attempt_failed,
        }
    }
}

/// The summary of one project.
pub struct ProjectSummary {
    pub id: String,
    pub name: String,
    pub created_at: String,
    pub updated_at: String,
}

impl ProjectSummary {
    /// Shapes one project for the listing report.
    pub fn from_project(project: Project) -> (r: ProjectSummary)
        ensures
            r.id == project.id,
            r.name == project.name,
            r.created_at == project.created_at,
            r.updated_at == project.updated_at,
    {
        ProjectSummary {
            id: project.id,
            name: project.name,
            created_at: project.created_at,
            updated_at: project.updated_at,
        }
    }
}

/// The summary of one task in a listing.
pub struct TaskSummary {
    pub id: String,
    pub title: String,
    pub status: String,
    pub created_at: String,
    pub updated_at: String,
    pub has_in_progress_attempt: Option<bool>,
    pub last_attempt_failed: Option<bool>,
}

impl TaskSummary {
    /// Shapes one task with its attempt state for the listing report.
    pub fn from_task_with_status(task: TaskWithAttemptStatus) -> (r: TaskSummary)
        ensures
            r.id == task.id,
            r.title == task.title,
            r.status@ == spec_status_name(task.status),
            r.created_at == task.created_at,
            r.updated_at == task.updated_at,
            r.has_in_progress_attempt == Some(task.has_in_progress_attempt),
            r.last_attempt_failed == Some(task.last_attempt_failed),
    {
        TaskSummary {
            id: task.id,
            title: task.title,
            status: task.status.as_str().to_owned(),
            created_at: task.created_at,
            updated_at: task.updated_at,
            has_in_progress_attempt: Some(task.has_in_progress_attempt),
            last_attempt_failed: Some(task.last_attempt_failed),
        }
    }
}

/// The details of one task.
pub struct TaskDetails {
    pub id: String,
    pub title: String,
    pub description: Option<String>,
    pub status: String,
    pub created_at: String,
    pub updated_at: String,
    pub has_in_progress_attempt: Option<bool>,
    pub last_attempt_failed: Option<bool>,
}

impl TaskDetails {
    /// Shapes one task for the detail report; attempt state is not known
    /// here.
    pub fn from_task(task: Task) -> (r: TaskDetails)
        ensures
            r.id == task.id,
            r.title == task.title,
            r.description == task.description,
            r.status@ == spec_status_name(task.status),
            r.created_at == task.created_at,
            r.updated_at == task.updated_at,
            r.has_in_progress_attempt is None,
            r.last_attempt_failed is None,
    {
        TaskDetails {
            id: task.id,
            title: task.title,
            description: task.description,
            status: task.status.as_str().to_owned(),
            created_at: task.created_at,
            updated_at: task.updated_at,
            has_in_progress_attempt: None,
            last_attempt_failed: None,
        }
    }
}

/// The answer to creating a task.
pub struct CreateTaskResponse {
    pub task_id: String,
    pub is_new: bool,
    pub message: Option<String>,
}

/// The summary of one repository.
pub struct McpRepoSummary {
    pub id: String,
    pub name: String,
}

/// The details of one repository with its scripts.
pub struct RepoDetails {
    pub id: String,
    pub name: String,
    pub display_name: String,
    pub setup_script: Option<String>,
    pub cleanup_script: Option<String>,
    pub dev_server_script: Option<String>,
}

/// The answer to updating one of a repository's scripts.
pub struct UpdateRepoScriptResponse {
    pub success: bool,
    pub repo_id: String,
    pub field: String,
}

/// The repositories of a project.
pub struct ListReposResponse {
    pub repos: Vec<McpRepoSummary>,
    pub count: usize,
    pub project_id: String,
}

/// Every project known to the catalogue.
pub struct ListProjectsResponse {
    pub projects: Vec<ProjectSummary>,
    pub count: usize,
}

/// The filters a task listing was answered under.
pub struct ListTasksFilters {
    pub status: Option<String>,
    pub limit: i32,
}

/// The tasks of a project, after filtering.
pub struct ListTasksResponse {
    pub tasks: Vec<TaskSummary>,
    pub count: usize,
    pub project_id: String,
    pub applied_filters: ListTasksFilters,
}

/// The answer to updating a task.
pub struct UpdateTaskResponse {
    pub task: TaskDetails,
}

/// The answer to starting a workspace session.
pub struct StartWorkspaceSessionResponse {
    pub task_id: String,
    pub workspace_id: String,
}

/// The answer to deleting a task.
pub struct DeleteTaskResponse {
    pub deleted_task_id: Option<String>,
}

/// The answer to a review request: the prompt and its checklist.
pub struct RequestPmReviewResponse {
    pub task_id: String,
    pub has_pm_task: bool,
    pub review_prompt: String,
    pub review_checklist: Vec<String>,
}

/// The answer to updating the project documentation.
pub struct UpdatePmDocsResponse {
    pub project_id: String,
    pub success: bool,
    pub pm_docs: Option<String>,
}

/// The answer to fetching one task.
pub struct GetTaskResponse {
    pub task: TaskDetails,
}

/// A partial change to a label.
pub struct UpdateLabel {
    pub name: Option<String>,
    pub color: Option<String>,
    pub executor: Option<String>,
}

/// Two titles name the same work when, lowercased, they are equal or one
/// contains the other.
pub open spec fn spec_duplicate_title(a: Seq<char>, b: Seq<char>) -> bool {
    b == a || spec_contains(b, a) || spec_contains(a, b)
}

/// A base URL with its trailing slashes removed.
pub open spec fn spec_trim_end_slashes(s: Seq<char>) -> Seq<char>
    decreases s.len(),
{
    if s.len() > 0 && s.last() == '/' {
        spec_trim_end_slashes(s.drop_last())
    } else {
        s
    }
}

/// A path with its leading slashes removed.
pub open spec fn spec_trim_start_slashes(s: Seq<char>) -> Seq<char>
    decreases s.len(),
{
    if s.len() > 0 && s[0] == '/' {
        spec_trim_start_slashes(s.subrange(1, s.len() as int))
    } else {
        s
    }
}

/// A joined URL: the trimmed base, one slash, the trimmed path.
pub open spec fn spec_url(base: Seq<char>, path: Seq<char>) -> Seq<char> {
    spec_trim_end_slashes(base) + seq!['/'] + spec_trim_start_slashes(path)
}

/// The task-management tool server, addressed by its backend base URL.
pub struct TaskServer {
    pub base_url: String,
}

impl TaskServer {
    /// A tool server for the backend at `base_url`.
    pub fn new(base_url: &str) -> (r: TaskServer)
        ensures
            r.base_url@ == base_url@,
    {
        TaskServer { base_url: base_url.to_owned() }
    }

    /// Joins an endpoint path onto the base URL with exactly one slash
    /// between them.
    pub fn url(&self, path: &str) -> (r: String)
        ensures
            r@ == spec_url(self.base_url@, path@),
    {
        let base = to_chars(self.base_url.as_str());
        let mut e = base.len();
        proof {
            assert(self.base_url@.subrange(0, base@.len() as int) =~= self.base_url@);
        }
        while e > 0 && base[e - 1] == '/'
            invariant
                e <= base@.len(),
                base@ == self.base_url@,
                spec_trim_end_slashes(self.base_url@) == spec_trim_end_slashes(
                    self.base_url@.subrange(0, e as int),
                ),
            decreases e,
        {
            proof {
                let cur = self.base_url@.subrange(0, e as int);
                assert(cur.drop_last() =~= self.base_url@.subrange(0, e - 1));
            }
            e -= 1;
        }
        proof {
            let cur = self.base_url@.subrange(0, e as int);
            assert(spec_trim_end_slashes(cur) == cur);
        }
        let path_chars = to_chars(path);
        let n = path_chars.len();
        let mut j: usize = 0;
        proof {
            assert(path@.subrange(0, n as int) =~= path@);
        }
        while j < n && path_chars[j] == '/'
            invariant
                j <= n,
                n == path_chars@.len(),
                path_chars@ == path@,
                spec_trim_start_slashes(path@) == spec_trim_start_slashes(
                    path@.subrange(j as int, n as int),
                ),
            decreases n - j,
        {
            proof {
                let cur = path@.subrange(j as int, n as int);
                assert(cur.subrange(1, cur.len() as int) =~= path@.subrange(j + 1, n as int));
            }
            j += 1;
        }
        proof {
            let cur = path@.subrange(j as int, n as int);
            assert(spec_trim_start_slashes(cur) == cur);
        }
        let mut out: Vec<char> = Vec::new();
        let mut i: usize = 0;
        while i < e
            invariant
                i <= e,
                e <= base@.len(),
                base@ == self.base_url@,
                out@ == base@.subrange(0, i as int),
            decreases e - i,
        {
            out.push(base[i]);
            i += 1;
            proof {
                assert(out@ =~= base@.subrange(0, i as int));
            }
        }
        out.push('/');
        let mut k = j;
        while k < n
            invariant
                j <= k <= n,
                n == path_chars@.len(),
                path_chars@ == path@,
                e <= base@.len(),
                base@ == self.base_url@,
                out@ == base@.subrange(0, e as int) + seq!['/'] + path@.subrange(
                    j as int,
                    k as int,
                ),
            decreases n - k,
        {
            out.push(path_chars[k]);
            k += 1;
            proof {
                assert(out@ =~= base@.subrange(0, e as int) + seq!['/'] + path@.subrange(
                    j as int,
                    k as int,
                ));
            }
        }
        proof {
            assert(out@ =~= spec_url(self.base_url@, path@));
        }
        chars_to_string(&out)
    }

    /// Whether two task titles are close enough to count as duplicates:
    /// equal ignoring case, or one contained in the other ignoring case.
    pub fn is_duplicate_title(new_title: &str, existing_title: &str) -> (r: bool)
        ensures
            r == spec_duplicate_title(lower_of(new_title@), lower_of(existing_title@)),
    {
        let new_lower = lowercase(new_title);
        let existing_lower = lowercase(existing_title);
        str_eq(existing_lower.as_str(), new_lower.as_str()) || contains_str(
            existing_lower.as_str(),
            new_lower.as_str(),
        ) || contains_str(new_lower.as_str(), existing_lower.as_str())
    }
}

/// The first stored task whose title duplicates the new one, if any.
pub fn find_duplicate(new_title: &str, existing: &Vec<Task>) -> (r: Option<usize>)
    ensures
        r matches Some(i) ==> (0 <= i < existing@.len() && spec_duplicate_title(
            lower_of(new_title@),
            lower_of(existing@[i as int].title@),
        ) && forall|j: int|
            0 <= j < i ==> !spec_duplicate_title(
                lower_of(new_title@),
                lower_of((#[trigger] existing@[j]).title@),
            )),
        r is None ==> forall|j: int|
            0 <= j < existing@.len() ==> !spec_duplicate_title(
                lower_of(new_title@),
                lower_of((#[trigger] existing@[j]).title@),
            ),
{
    let n = existing.len();
    let mut i: usize = 0;
    while i < n
        invariant
            i <= n,
            n == existing@.len(),
            forall|j: int|
                0 <= j < i ==> !spec_duplicate_title(
                    lower_of(new_title@),
                    lower_of((#[trigger] existing@[j]).title@),
                ),
        decreases n - i,
    {
        if TaskServer::is_duplicate_title(new_title, existing[i].title.as_str()) {
            return Some(i);
        }
        i += 1;
    }
    None
}

/// An empty script clears the stored one; any other text replaces it.
pub fn normalize_script(script: String) -> (r: Option<String>)
    ensures
        script@.len() == 0 ==> r is None,
        script@.len() > 0 ==> r == Some(script),
{
    if script.as_str().is_empty() {
        None
    } else {
        Some(script)
    }
}

/// The number of tasks a listing returns when the caller names none.
pub const DEFAULT_TASK_LIMIT: i32 = 50;

/// The effective listing limit: the caller's when one is given, else the
/// default; a negative one asks for nothing.
pub open spec fn spec_effective_limit(limit: Option<i32>) -> int {
    let l = match limit {
        Some(l) => l as int,
        None => DEFAULT_TASK_LIMIT as int,
    };
    if l < 0 {
        0
    } else {
        l
    }
}

/// Resolves the caller's listing limit.
pub fn effective_limit(limit: Option<i32>) -> (r: usize)
    ensures
        r == spec_effective_limit(limit),
{
    let l = match limit {
        Some(l) => l,
        None => DEFAULT_TASK_LIMIT,
    };
    if l < 0 {
        0
    } else {
        l as usize
    }
}

/// Whether a task passes the status filter.
pub open spec fn spec_status_matches(t: TaskWithAttemptStatus, filt: Option<TaskStatus>) -> bool {
    match filt {
        Some(want) => t.status == want,
        None => true,
    }
}

/// The first `limit` tasks that pass the status filter, in stored order.
pub open spec fn spec_filter_tasks(
    s: Seq<TaskWithAttemptStatus>,
    filt: Option<TaskStatus>,
    limit: int,
) -> Seq<TaskWithAttemptStatus>
    decreases s.len(),
{
    if s.len() == 0 || limit <= 0 {
        Seq::<TaskWithAttemptStatus>::empty()
    } else if spec_status_matches(s[0], filt) {
        seq![s[0]] + spec_filter_tasks(s.drop_first(), filt, limit - 1)
    } else {
        spec_filter_tasks(s.drop_first(), filt, limit)
    }
}

/// Filters a task listing by status and caps it at the limit.
pub fn filter_tasks(
    tasks: &Vec<TaskWithAttemptStatus>,
    status_filter: Option<TaskStatus>,
    limit: usize,
) -> (r: Vec<TaskWithAttemptStatus>)
    ensures
        r@ == spec_filter_tasks(tasks@, status_filter, limit as int),
{
    let mut out: Vec<TaskWithAttemptStatus> = Vec::new();
    let n = tasks.len();
    let mut i: usize = 0;
    proof {
        assert(tasks@.subrange(0, n as int) =~= tasks@);
        assert(out@ + spec_filter_tasks(tasks@, status_filter, limit as int) =~= spec_filter_tasks(
            tasks@,
            status_filter,
            limit as int,
        ));
    }
    while i < n && out.len() < limit
        invariant
            i <= n,
            n == tasks@.len(),
            out@.len() <= limit,
            spec_filter_tasks(tasks@, status_filter, limit as int) == out@ + spec_filter_tasks(
                tasks@.subrange(i as int, n as int),
                status_filter,
                limit - out@.len(),
            ),
        decreases n - i,
    {
        let matches_filter = match status_filter {
            Some(want) => tasks[i].status == want,
            None => true,
        };
        proof {
            let cur = tasks@.subrange(i as int, n as int);
            assert(cur[0] == tasks@[i as int]);
            assert(cur.drop_first() =~= tasks@.subrange(i + 1, n as int));
        }
        if matches_filter {
            out.push(tasks[i].duplicate());
        }
        i += 1;
    }
    proof {
        if i == n {
            assert(tasks@.subrange(n as int, n as int) =~= Seq::<TaskWithAttemptStatus>::empty());
        }
        assert(out@ =~= spec_filter_tasks(tasks@, status_filter, limit as int));
    }
    out
}

/// Shapes a filtered listing into task summaries, in order.
pub fn summarize_tasks(tasks: Vec<TaskWithAttemptStatus>) -> (r: Vec<TaskSummary>)
    ensures
        r@.len() == tasks@.len(),
        forall|i: int|
            0 <= i < tasks@.len() ==> {
                let t = tasks@[i];
                &&& (#[trigger] r@[i]).id == t.id
                &&& r@[i].title == t.title
                &&& r@[i].status@ == spec_status_name(t.status)
                &&& r@[i].created_at == t.created_at
                &&& r@[i].updated_at == t.updated_at
                &&& r@[i].has_in_progress_attempt == Some(t.has_in_progress_attempt)
                &&& r@[i].last_attempt_failed == Some(t.last_attempt_failed)
            },
{
    let mut out: Vec<TaskSummary> = Vec::new();
    let n = tasks.len();
    let mut i: usize = 0;
    while i < n
        invariant
            i <= n,
            n == tasks@.len(),
            out@.len() == i,
            forall|k: int|
                0 <= k < i ==> {
                    let t = tasks@[k];
                    &&& (#[trigger] out@[k]).id == t.id
                    &&& out@[k].title == t.title
                    &&& out@[k].status@ == spec_status_name(t.status)
                    &&& out@[k].created_at == t.created_at
                    &&& out@[k].updated_at == t.updated_at
                    &&& out@[k].has_in_progress_attempt == Some(t.has_in_progress_attempt)
                    &&& out@[k].last_attempt_failed == Some(t.last_attempt_failed)
                },
        decreases n - i,
    {
        out.push(TaskSummary::from_task_with_status(tasks[i].duplicate()));
        i += 1;
    }
    out
}

/// How many of the tasks are done.
pub open spec fn spec_count_done(s: Seq<TaskStatus>) -> int
    decreases s.len(),
{
    if s.len() == 0 {
        0
    } else {
        spec_count_done(s.drop_last()) + if s.last() is Done {
            1int
        } else {
            0int
        }
    }
}

/// How many of the tasks are in progress.
pub open spec fn spec_count_in_progress(s: Seq<TaskStatus>) -> int
    decreases s.len(),
{
    if s.len() == 0 {
        0
    } else {
        spec_count_in_progress(s.drop_last()) + if s.last() is InProgress {
            1int
        } else {
            0int
        }
    }
}

/// Tallies a project's tasks: the total, the done, and the in-progress
/// counts, from which the progress report is made.
pub fn count_task_statuses(statuses: &Vec<TaskStatus>) -> (r: (usize, usize, usize))
    ensures
        r.0 == statuses@.len(),
        r.1 == spec_count_done(statuses@),
        r.2 == spec_count_in_progress(statuses@),
{
    let n = statuses.len();
    let mut completed: usize = 0;
    let mut in_progress: usize = 0;
    let mut i: usize = 0;
    while i < n
        invariant
            i <= n,
            n == statuses@.len(),
            completed == spec_count_done(statuses@.subrange(0, i as int)),
            in_progress == spec_count_in_progress(statuses@.subrange(0, i as int)),
            completed <= i,
            in_progress <= i,
        decreases n - i,
    {
        let s = statuses[i];
        if s == TaskStatus::Done {
            completed += 1;
        } else if s == TaskStatus::InProgress {
            in_progress += 1;
        }
        i += 1;
        proof {
            let pre = statuses@.subrange(0, i - 1);
            let cur = statuses@.subrange(0, i as int);
            assert(cur.drop_last() =~= pre);
            assert(cur.last() == statuses@[i - 1]);
        }
    }
    proof {
        assert(statuses@.subrange(0, n as int) =~= statuses@);
    }
    (n, completed, in_progress)
}

/// How the project documentation changes on an update: `replace` swaps the
/// whole text; any other mode appends after a blank line, except onto
/// missing or empty documentation, which the new text simply becomes.
pub open spec fn spec_merge_pm_docs(
    existing: Option<Seq<char>>,
    content: Seq<char>,
    mode: Option<Seq<char>>,
) -> Seq<char> {
    if mode matches Some(m) && m == "replace"@ {
        content
    } else {
        match existing {
            Some(e) => if e.len() > 0 {
                e + "\n\n"@ + content
            } else {
                content
            },
            None => content,
        }
    }
}

/// Merges new documentation content into what a project already holds.
pub fn merge_pm_docs(existing: Option<&String>, content: String, mode: Option<&String>) -> (r:
    String)
    ensures
        r@ == spec_merge_pm_docs(
            match existing {
                Some(e) => Some(e@),
                None => None,
            },
            content@,
            match mode {
                Some(m) => Some(m@),
                None => None,
            },
        ),
{
    let replace = match mode {
        Some(m) => str_eq(m.as_str(), "replace"),
        None => false,
    };
    if replace {
        content
    } else {
        match existing {
            Some(e) => {
                if !e.as_str().is_empty() {
                    let mut out = e.clone();
                    out.append("\n\n");
                    out.append(content.as_str());
                    out
                } else {
                    content
                }
            },
            None => content,
        }
    }
}

/// The notice returned when a duplicate task was found instead of created.
pub fn duplicate_message(existing_title: &str) -> (r: String)
    ensures
        r@ == "Found existing similar task: '"@ + existing_title@
            + "'. Returning existing task instead of creating duplicate."@,
{
    let mut out = "Found existing similar task: '".to_owned();
    out.append(existing_title);
    out.append("'. Returning existing task instead of creating duplicate.");
    out
}

/// The notice returned when a task was created.
pub fn created_message(title: &str) -> (r: String)
    ensures
        r@ == "Created new task: '"@ + title@ + "'"@,
{
    let mut out = "Created new task: '".to_owned();
    out.append(title);
    out.append("'");
    out
}

} // verus!
