use vibe_kanban::aggregate::ResponseAggregator;
use vibe_kanban::normalize::{
    ContentBlock, LineFields, NormalizedEvent, extract_block_payload, extract_payload,
    process_line,
};

fn block(kind: &str, text: &str) -> ContentBlock {
    ContentBlock {
        kind: Some(kind.to_string()),
        text: Some(text.to_string()),
    }
}

fn fields(discriminant: &str) -> LineFields {
    LineFields {
        discriminant: Some(discriminant.to_string()),
        role: None,
        content_field: None,
        result_field: None,
        item_type: None,
        item_text: None,
    }
}

#[test]
fn the_last_non_empty_text_block_wins() {
    let blocks = vec![block("text", "first"), block("tool_use", "skipped"), block("text", "second")];
    assert_eq!(extract_block_payload(&blocks), Some("second".to_string()));

    let blocks = vec![block("text", "kept"), block("text", "")];
    assert_eq!(extract_block_payload(&blocks), Some("kept".to_string()));

    let blocks = vec![block("tool_use", "x")];
    assert_eq!(extract_block_payload(&blocks), None);
}

#[test]
fn item_completion_extracts_only_agent_messages() {
    let mut f = fields("item.completed");
    f.item_type = Some("agent_message".to_string());
    f.item_text = Some("hello".to_string());
    assert_eq!(extract_payload(&f, &vec![], true), Some("hello".to_string()));

    f.item_type = Some("reasoning".to_string());
    assert_eq!(extract_payload(&f, &vec![], true), None);

    f.item_type = Some("agent_message".to_string());
    f.item_text = Some(String::new());
    assert_eq!(extract_payload(&f, &vec![], true), None);
}

#[test]
fn role_tagged_lines_need_the_assistant_role() {
    let mut f = fields("message");
    f.role = Some("assistant".to_string());
    f.content_field = Some("hi".to_string());
    assert_eq!(extract_payload(&f, &vec![], true), Some("hi".to_string()));

    f.role = Some("user".to_string());
    assert_eq!(extract_payload(&f, &vec![], true), None);
}

#[test]
fn result_lines_respect_the_aggregate_gate() {
    let mut f = fields("result");
    f.result_field = Some("summary".to_string());
    assert_eq!(extract_payload(&f, &vec![], true), Some("summary".to_string()));
    assert_eq!(extract_payload(&f, &vec![], false), None);
}

#[test]
fn lifecycle_and_unknown_discriminants_are_dropped() {
    for d in ["system", "init", "thread.started", "turn.started", "turn.completed", "mystery"] {
        let f = fields(d);
        assert_eq!(extract_payload(&f, &vec![], true), None);
    }
}

#[test]
fn processing_a_line_feeds_the_aggregate() {
    let mut agg = ResponseAggregator::new();
    let ev = process_line(
        r#"{"type":"assistant","message":{"content":[{"type":"text","text":"Hi"}]}}"#,
        false,
        &mut agg,
    );
    assert_eq!(ev, Some(NormalizedEvent::Content("Hi".to_string())));
    assert_eq!(agg.snapshot(), "Hi");

    let ev = process_line(r#"{"type":"result","result":"Hi there"}"#, false, &mut agg);
    assert_eq!(ev, None);
    assert_eq!(agg.snapshot(), "Hi");
}

#[test]
fn empty_and_malformed_lines_are_silent_outside_fallback() {
    let mut agg = ResponseAggregator::new();
    assert_eq!(process_line("", false, &mut agg), None);
    assert_eq!(process_line("plain words", false, &mut agg), None);
    assert_eq!(process_line("{broken json", false, &mut agg), None);
    assert!(agg.is_empty());
}

#[test]
fn fallback_mode_forwards_malformed_lines() {
    let mut agg = ResponseAggregator::new();
    let ev = process_line("{broken json", true, &mut agg);
    assert_eq!(ev, Some(NormalizedEvent::Content("{broken json".to_string())));
    assert_eq!(agg.snapshot(), "{broken json");
}
