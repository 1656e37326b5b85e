use vibe_kanban::agent::{
    PmChatAgent, available_agents_response, agent_info, parse_agent,
};
use vibe_kanban::chat::AiChatStreamEvent;
use vibe_kanban::normalize::NormalizedEvent;

#[test]
fn command_names_match_the_installed_executables() {
    assert_eq!(PmChatAgent::PrimaryCli.command_name(), "primary");
    assert_eq!(PmChatAgent::CodexCli.command_name(), "codex");
    assert_eq!(PmChatAgent::GeminiCli.command_name(), "gemini");
    assert_eq!(PmChatAgent::OpencodeCli.command_name(), "opencode");
}

#[test]
fn display_names_are_human_readable() {
    assert_eq!(PmChatAgent::PrimaryCli.display_name(), "Primary CLI");
    assert_eq!(PmChatAgent::CodexCli.display_name(), "Codex CLI");
    assert_eq!(PmChatAgent::GeminiCli.display_name(), "Gemini CLI");
    assert_eq!(PmChatAgent::OpencodeCli.display_name(), "OpenCode CLI");
}

#[test]
fn every_family_supports_streaming() {
    assert!(PmChatAgent::PrimaryCli.supports_streaming());
    assert!(PmChatAgent::CodexCli.supports_streaming());
    assert!(PmChatAgent::GeminiCli.supports_streaming());
    assert!(PmChatAgent::OpencodeCli.supports_streaming());
}

#[test]
fn the_default_agent_is_the_primary_family() {
    assert_eq!(PmChatAgent::default(), PmChatAgent::PrimaryCli);
}

#[test]
fn identifiers_round_trip_through_parsing() {
    for agent in PmChatAgent::all_agents() {
        assert_eq!(parse_agent(agent.identifier()), Some(agent));
    }
    assert_eq!(parse_agent("primary_cli"), None);
    assert_eq!(parse_agent(""), None);
}

#[test]
fn catalogue_lists_all_four_families_in_order() {
    assert_eq!(
        PmChatAgent::all_agents(),
        vec![
            PmChatAgent::PrimaryCli,
            PmChatAgent::CodexCli,
            PmChatAgent::GeminiCli,
            PmChatAgent::OpencodeCli,
        ]
    );
}

#[test]
fn availability_filters_the_catalogue_in_order() {
    assert_eq!(
        PmChatAgent::available_agents(true, false, true, false),
        vec![PmChatAgent::PrimaryCli, PmChatAgent::GeminiCli]
    );
    assert!(PmChatAgent::available_agents(false, false, false, false).is_empty());
}

#[test]
fn agent_info_reports_probe_results() {
    let info = agent_info(PmChatAgent::CodexCli, false);
    assert_eq!(info.agent, PmChatAgent::CodexCli);
    assert_eq!(info.display_name, "Codex CLI");
    assert!(!info.available);
    assert!(info.supports_streaming);

    let all = available_agents_response(true, true, false, true);
    assert_eq!(all.agents.len(), 4);
    assert!(all.agents[0].available);
    assert!(!all.agents[2].available);
}

#[test]
fn stream_events_take_their_wire_shape() {
    let e = AiChatStreamEvent::from_normalized(NormalizedEvent::Content("hi".to_string()));
    assert_eq!(e.event_type, "content");
    assert_eq!(e.content.as_deref(), Some("hi"));
    assert!(e.error.is_none());
    assert_eq!(
        e.to_json(),
        "{\"type\":\"content\",\"content\":\"hi\",\"error\":null}"
    );

    let e = AiChatStreamEvent::from_normalized(NormalizedEvent::Error("bad".to_string()));
    assert_eq!(
        e.to_json(),
        "{\"type\":\"error\",\"content\":null,\"error\":\"bad\"}"
    );

    let e = AiChatStreamEvent::from_normalized(NormalizedEvent::Done);
    assert_eq!(e.to_json(), "{\"type\":\"done\",\"content\":null,\"error\":null}");

    let e = AiChatStreamEvent::from_normalized(NormalizedEvent::Thinking("hm".to_string()));
    assert_eq!(
        e.to_json(),
        "{\"type\":\"thinking\",\"content\":\"hm\",\"error\":null}"
    );
}

#[test]
fn stream_events_include_task_fields_only_when_present() {
    let e = AiChatStreamEvent {
        event_type: "task_created".to_string(),
        content: None,
        error: None,
        task_id: Some("42".to_string()),
        task_title: Some("Add \"login\"".to_string()),
    };
    assert_eq!(
        e.to_json(),
        "{\"type\":\"task_created\",\"content\":null,\"error\":null,\
         \"task_id\":\"42\",\"task_title\":\"Add \\\"login\\\"\"}"
    );
}

#[test]
fn descriptors_carry_the_config_dialect() {
    let d = vibe_kanban::agent::descriptor(PmChatAgent::PrimaryCli);
    assert_eq!(d.identifier, "PRIMARY_CLI");
    assert_eq!(d.executable, "primary");
    assert_eq!(d.display_name, "Primary CLI");
    assert!(d.supports_streaming);
    assert_eq!(d.config_dialect, "mcpServers");

    assert_eq!(vibe_kanban::agent::descriptor(PmChatAgent::CodexCli).config_dialect, "mcp_servers");
    assert_eq!(vibe_kanban::agent::descriptor(PmChatAgent::GeminiCli).config_dialect, "mcpServers");
    assert_eq!(vibe_kanban::agent::descriptor(PmChatAgent::OpencodeCli).config_dialect, "mcp");
}

#[test]
fn chat_requests_default_the_agent_and_model() {
    let req = vibe_kanban::chat::AiChatRequest {
        content: "hi".to_string(),
        model: None,
        agent: None,
    };
    let (agent, model) = vibe_kanban::chat::request_defaults(&req);
    assert_eq!(agent, PmChatAgent::PrimaryCli);
    assert_eq!(model, "sonnet");

    let req = vibe_kanban::chat::AiChatRequest {
        content: "hi".to_string(),
        model: Some("opus".to_string()),
        agent: Some(PmChatAgent::GeminiCli),
    };
    let (agent, model) = vibe_kanban::chat::request_defaults(&req);
    assert_eq!(agent, PmChatAgent::GeminiCli);
    assert_eq!(model, "opus");
}
