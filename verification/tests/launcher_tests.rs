use vibe_kanban::agent::PmChatAgent;
use vibe_kanban::launcher::{LaunchPlan, build_argv, joined_prompt, resolve_launch};

#[test]
fn primary_argv_takes_a_dedicated_system_prompt_flag() {
    let argv = build_argv(
        PmChatAgent::PrimaryCli,
        "sonnet",
        "be helpful",
        "create a task",
        "/tmp/cfg.json",
        false,
    );
    assert_eq!(
        argv,
        vec![
            "--print",
            "--verbose",
            "--output-format",
            "stream-json",
            "--no-session-persistence",
            "--dangerously-skip-permissions",
            "--mcp-config",
            "/tmp/cfg.json",
            "--model",
            "sonnet",
            "--system-prompt",
            "be helpful",
            "create a task",
        ]
    );
}

#[test]
fn primary_npx_fallback_prefixes_the_package_selection() {
    let argv = build_argv(PmChatAgent::PrimaryCli, "m", "s", "u", "/c.json", true);
    assert_eq!(argv[0], "-y");
    assert_eq!(argv[1], "primary-cli@latest");
    assert_eq!(argv[2], "--print");
}

#[test]
fn codex_argv_concatenates_the_prompt_and_names_the_model() {
    let argv = build_argv(PmChatAgent::CodexCli, "o3", "sys", "user", "/c.json", false);
    assert_eq!(
        argv,
        vec!["exec", "--json", "--full-auto", "--model", "o3", "sys\n\nuser"]
    );
}

#[test]
fn codex_argv_omits_the_model_flag_for_empty_or_default() {
    let argv = build_argv(PmChatAgent::CodexCli, "", "sys", "user", "/c.json", false);
    assert_eq!(argv, vec!["exec", "--json", "--full-auto", "sys\n\nuser"]);
    let argv = build_argv(PmChatAgent::CodexCli, "default", "sys", "user", "/c.json", false);
    assert_eq!(argv, vec!["exec", "--json", "--full-auto", "sys\n\nuser"]);
}

#[test]
fn gemini_argv_streams_json_and_omits_the_default_model() {
    let argv = build_argv(PmChatAgent::GeminiCli, "default", "sys", "user", "/c.json", false);
    assert_eq!(
        argv,
        vec!["--output-format", "stream-json", "--yolo", "sys\n\nuser"]
    );
    let argv = build_argv(PmChatAgent::GeminiCli, "gemini-2.5-pro", "sys", "user", "/c.json", false);
    assert_eq!(
        argv,
        vec![
            "--output-format",
            "stream-json",
            "--yolo",
            "--model",
            "gemini-2.5-pro",
            "sys\n\nuser"
        ]
    );
}

#[test]
fn opencode_argv_always_passes_the_model() {
    let argv = build_argv(PmChatAgent::OpencodeCli, "big", "sys", "user", "/c.json", false);
    assert_eq!(argv, vec!["run", "--format", "json", "--model", "big", "sys\n\nuser"]);
}

#[test]
fn joined_prompt_separates_with_a_blank_line() {
    assert_eq!(joined_prompt("a", "b"), "a\n\nb");
}

#[test]
fn launch_resolution_prefers_the_direct_executable() {
    let plan = resolve_launch(
        PmChatAgent::GeminiCli,
        Some("/usr/bin/gemini".to_string()),
        Some("/usr/bin/npx".to_string()),
    );
    assert!(matches!(plan, LaunchPlan::Direct(p) if p == "/usr/bin/gemini"));
}

#[test]
fn launch_resolution_falls_back_to_npx_only_for_the_primary_family() {
    let plan = resolve_launch(PmChatAgent::PrimaryCli, None, Some("/usr/bin/npx".to_string()));
    assert!(matches!(plan, LaunchPlan::NpxFallback(p) if p == "/usr/bin/npx"));

    let plan = resolve_launch(PmChatAgent::CodexCli, None, Some("/usr/bin/npx".to_string()));
    assert!(matches!(plan, LaunchPlan::NotAvailable));

    let plan = resolve_launch(PmChatAgent::PrimaryCli, None, None);
    assert!(matches!(plan, LaunchPlan::NotAvailable));
}
