use vibe_kanban::agent::PmChatAgent;
use vibe_kanban::normalize::NormalizedEvent;
use vibe_kanban::session::{
    ProvisionOutcome, SessionAction, SessionRun, SpawnOutcome, WaitOutcome, run_session,
};

fn lines(v: &[&str]) -> Vec<String> {
    v.iter().map(|s| s.to_string()).collect()
}

fn ok_run(agent: PmChatAgent, model: &str, input: &[&str]) -> SessionRun {
    run_session(
        agent,
        model.to_string(),
        false,
        ProvisionOutcome::Written,
        SpawnOutcome::Spawned,
        &lines(input),
        WaitOutcome::Exited(true, "exit status: 0".to_string()),
    )
}

fn done_count(events: &[NormalizedEvent]) -> usize {
    events
        .iter()
        .filter(|e| matches!(e, NormalizedEvent::Done))
        .count()
}

fn remove_count(actions: &[SessionAction]) -> usize {
    actions
        .iter()
        .filter(|a| matches!(a, SessionAction::RemoveConfig))
        .count()
}

fn persisted(actions: &[SessionAction]) -> Option<(String, String)> {
    actions.iter().find_map(|a| match a {
        SessionAction::Persist(text, model) => Some((text.clone(), model.clone())),
        _ => None,
    })
}

#[test]
fn primary_family_fixture_produces_expected_contents() {
    let run = ok_run(
        PmChatAgent::PrimaryCli,
        "sonnet",
        &[
            r#"{"type":"system","subtype":"init"}"#,
            r#"{"type":"assistant","message":{"content":[{"type":"text","text":"Hello"}]}}"#,
            r#"{"type":"assistant","message":{"content":[{"type":"tool_use","name":"create_task"}]}}"#,
            r#"{"type":"assistant","message":{"content":[{"type":"text","text":"and goodbye"}]}}"#,
            r#"{"type":"result","result":"Hello and goodbye"}"#,
        ],
    );
    assert_eq!(
        run.events,
        vec![
            NormalizedEvent::Content("Hello".to_string()),
            NormalizedEvent::Content("and goodbye".to_string()),
            NormalizedEvent::Done,
        ]
    );
    assert_eq!(
        persisted(&run.actions),
        Some(("Hello and goodbye".to_string(), "sonnet".to_string()))
    );
}

#[test]
fn codex_family_fixture_produces_expected_contents() {
    let run = ok_run(
        PmChatAgent::CodexCli,
        "o3",
        &[
            r#"{"type":"thread.started"}"#,
            r#"{"type":"turn.started"}"#,
            r#"{"type":"item.completed","item":{"type":"reasoning","text":"pondering deeply"}}"#,
            r#"{"type":"item.completed","item":{"type":"agent_message","text":"The answer"}}"#,
            r#"{"type":"turn.completed"}"#,
        ],
    );
    assert_eq!(
        run.events,
        vec![
            NormalizedEvent::Content("The answer".to_string()),
            NormalizedEvent::Done,
        ]
    );
    assert_eq!(
        persisted(&run.actions),
        Some(("The answer".to_string(), "o3".to_string()))
    );
}

#[test]
fn gemini_family_fixture_produces_expected_contents() {
    let run = ok_run(
        PmChatAgent::GeminiCli,
        "gemini-2.5-pro",
        &[
            r#"{"type":"init"}"#,
            r#"{"type":"message","role":"assistant","content":"Hi","delta":true}"#,
            r#"{"type":"message","role":"user","content":"ignored"}"#,
            r#"{"type":"message","role":"assistant","content":"there","delta":true}"#,
            r#"{"type":"result","stats":"not a string"}"#,
        ],
    );
    assert_eq!(
        run.events,
        vec![
            NormalizedEvent::Content("Hi".to_string()),
            NormalizedEvent::Content("there".to_string()),
            NormalizedEvent::Done,
        ]
    );
    assert_eq!(
        persisted(&run.actions),
        Some(("Hi there".to_string(), "gemini-2.5-pro".to_string()))
    );
}

#[test]
fn result_family_fixture_produces_expected_contents() {
    let run = ok_run(
        PmChatAgent::OpencodeCli,
        "default",
        &[r#"{"type":"result","result":"Final answer"}"#],
    );
    assert_eq!(
        run.events,
        vec![
            NormalizedEvent::Content("Final answer".to_string()),
            NormalizedEvent::Done,
        ]
    );
    assert_eq!(
        persisted(&run.actions),
        Some(("Final answer".to_string(), "default".to_string()))
    );
}

#[test]
fn reasoning_item_never_becomes_content() {
    let run = ok_run(
        PmChatAgent::CodexCli,
        "o3",
        &[
            r#"{"type":"item.completed","item":{"type":"reasoning","text":"secret thoughts"}}"#,
            r#"{"type":"item.completed","item":{"type":"reasoning","text":""}}"#,
            r#"{"type":"item.completed","item":{"type":"reasoning","text":"{\"type\":\"agent_message\"}"}}"#,
        ],
    );
    assert_eq!(run.events, vec![NormalizedEvent::Done]);
    assert_eq!(persisted(&run.actions), None);
}

#[test]
fn result_line_is_suppressed_after_streamed_content() {
    let run = ok_run(
        PmChatAgent::PrimaryCli,
        "sonnet",
        &[
            r#"{"type":"assistant","message":{"content":[{"type":"text","text":"Hi"}]}}"#,
            r#"{"type":"result","result":"Hi there"}"#,
        ],
    );
    assert_eq!(
        run.events,
        vec![NormalizedEvent::Content("Hi".to_string()), NormalizedEvent::Done]
    );
    assert_eq!(
        persisted(&run.actions),
        Some(("Hi".to_string(), "sonnet".to_string()))
    );
}

#[test]
fn result_line_is_promoted_only_on_empty_aggregate() {
    let run = ok_run(
        PmChatAgent::PrimaryCli,
        "sonnet",
        &[r#"{"type":"result","result":"Only result"}"#],
    );
    assert_eq!(
        run.events,
        vec![
            NormalizedEvent::Content("Only result".to_string()),
            NormalizedEvent::Done,
        ]
    );
}

#[test]
fn stream_ends_with_exactly_one_done_on_normal_completion() {
    let run = ok_run(
        PmChatAgent::PrimaryCli,
        "sonnet",
        &[r#"{"type":"assistant","message":{"content":[{"type":"text","text":"ok"}]}}"#],
    );
    assert_eq!(done_count(&run.events), 1);
    assert!(matches!(run.events.last(), Some(NormalizedEvent::Done)));
}

#[test]
fn stream_ends_with_exactly_one_done_on_zero_output_lines() {
    let run = ok_run(PmChatAgent::PrimaryCli, "sonnet", &[]);
    assert_eq!(run.events, vec![NormalizedEvent::Done]);
    assert_eq!(persisted(&run.actions), None);
}

#[test]
fn stream_ends_with_exactly_one_done_on_spawn_failure() {
    let run = run_session(
        PmChatAgent::GeminiCli,
        "m".to_string(),
        false,
        ProvisionOutcome::Written,
        SpawnOutcome::SpawnError("permission denied".to_string()),
        &lines(&[]),
        WaitOutcome::Exited(true, String::new()),
    );
    assert_eq!(
        run.events,
        vec![
            NormalizedEvent::Error("Failed to spawn CLI: permission denied".to_string()),
            NormalizedEvent::Done,
        ]
    );
    assert_eq!(done_count(&run.events), 1);
}

#[test]
fn stream_ends_with_exactly_one_done_on_missing_executable() {
    let run = run_session(
        PmChatAgent::CodexCli,
        "m".to_string(),
        false,
        ProvisionOutcome::Written,
        SpawnOutcome::ExecutableMissing,
        &lines(&[]),
        WaitOutcome::Exited(true, String::new()),
    );
    assert_eq!(
        run.events,
        vec![
            NormalizedEvent::Error("Codex CLI not found. Please install it first.".to_string()),
            NormalizedEvent::Done,
        ]
    );
    assert_eq!(persisted(&run.actions), None);
    assert_eq!(remove_count(&run.actions), 1);
}

#[test]
fn stream_ends_with_exactly_one_done_on_nonzero_exit() {
    let run = run_session(
        PmChatAgent::PrimaryCli,
        "sonnet".to_string(),
        false,
        ProvisionOutcome::Written,
        SpawnOutcome::Spawned,
        &lines(&[r#"{"type":"assistant","message":{"content":[{"type":"text","text":"partial"}]}}"#]),
        WaitOutcome::Exited(false, "exit status: 1".to_string()),
    );
    assert_eq!(
        run.events,
        vec![
            NormalizedEvent::Content("partial".to_string()),
            NormalizedEvent::Error("CLI exited with status: exit status: 1".to_string()),
            NormalizedEvent::Done,
        ]
    );
    // partial output still carries value: it is persisted even on failure
    assert_eq!(
        persisted(&run.actions),
        Some(("partial".to_string(), "sonnet".to_string()))
    );
}

#[test]
fn stream_ends_with_exactly_one_done_on_wait_failure() {
    let run = run_session(
        PmChatAgent::PrimaryCli,
        "sonnet".to_string(),
        false,
        ProvisionOutcome::Written,
        SpawnOutcome::Spawned,
        &lines(&[]),
        WaitOutcome::WaitError("no child".to_string()),
    );
    assert_eq!(
        run.events,
        vec![
            NormalizedEvent::Error("CLI error: no child".to_string()),
            NormalizedEvent::Done,
        ]
    );
}

#[test]
fn stream_ends_with_exactly_one_done_on_config_write_failure() {
    let run = run_session(
        PmChatAgent::PrimaryCli,
        "sonnet".to_string(),
        false,
        ProvisionOutcome::WriteFailed("disk full".to_string()),
        SpawnOutcome::Spawned,
        &lines(&[]),
        WaitOutcome::Exited(true, String::new()),
    );
    assert_eq!(
        run.events,
        vec![
            NormalizedEvent::Error("Failed to create MCP config: disk full".to_string()),
            NormalizedEvent::Done,
        ]
    );
}

#[test]
fn config_removal_is_issued_exactly_once_on_every_path() {
    let normal = ok_run(PmChatAgent::PrimaryCli, "m", &[r#"{"type":"result","result":"x"}"#]);
    assert_eq!(remove_count(&normal.actions), 1);

    let empty = ok_run(PmChatAgent::PrimaryCli, "m", &[]);
    assert_eq!(remove_count(&empty.actions), 1);

    let cfg_failed = run_session(
        PmChatAgent::PrimaryCli,
        "m".to_string(),
        false,
        ProvisionOutcome::WriteFailed("denied".to_string()),
        SpawnOutcome::Spawned,
        &lines(&[]),
        WaitOutcome::Exited(true, String::new()),
    );
    assert_eq!(remove_count(&cfg_failed.actions), 1);

    let missing = run_session(
        PmChatAgent::OpencodeCli,
        "m".to_string(),
        false,
        ProvisionOutcome::Written,
        SpawnOutcome::ExecutableMissing,
        &lines(&[]),
        WaitOutcome::Exited(true, String::new()),
    );
    assert_eq!(remove_count(&missing.actions), 1);

    let spawn_failed = run_session(
        PmChatAgent::PrimaryCli,
        "m".to_string(),
        false,
        ProvisionOutcome::Written,
        SpawnOutcome::SpawnError("boom".to_string()),
        &lines(&[]),
        WaitOutcome::Exited(true, String::new()),
    );
    assert_eq!(remove_count(&spawn_failed.actions), 1);

    let failed_exit = run_session(
        PmChatAgent::PrimaryCli,
        "m".to_string(),
        false,
        ProvisionOutcome::Written,
        SpawnOutcome::Spawned,
        &lines(&[]),
        WaitOutcome::Exited(false, "exit status: 2".to_string()),
    );
    assert_eq!(remove_count(&failed_exit.actions), 1);
}

#[test]
fn non_json_lines_are_dropped_outside_fallback_mode() {
    let run = ok_run(
        PmChatAgent::PrimaryCli,
        "m",
        &[
            "Loading extension: foo",
            "",
            r#"{"type":"assistant","message":{"content":[{"type":"text","text":"real"}]}}"#,
            "{not json at all",
        ],
    );
    assert_eq!(
        run.events,
        vec![NormalizedEvent::Content("real".to_string()), NormalizedEvent::Done]
    );
    assert_eq!(persisted(&run.actions), Some(("real".to_string(), "m".to_string())));
}

#[test]
fn fallback_mode_forwards_raw_lines_newline_joined() {
    let run = run_session(
        PmChatAgent::PrimaryCli,
        "m".to_string(),
        true,
        ProvisionOutcome::Written,
        SpawnOutcome::Spawned,
        &lines(&["first line", "second line"]),
        WaitOutcome::Exited(true, String::new()),
    );
    assert_eq!(
        run.events,
        vec![
            NormalizedEvent::Content("first line".to_string()),
            NormalizedEvent::Content("second line".to_string()),
            NormalizedEvent::Done,
        ]
    );
    assert_eq!(
        persisted(&run.actions),
        Some(("first line\nsecond line".to_string(), "m".to_string()))
    );
}
