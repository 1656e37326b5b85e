use vibe_kanban::aggregate::ResponseAggregator;

#[test]
fn appends_are_joined_by_a_single_space() {
    let mut agg = ResponseAggregator::new();
    agg.append("hello");
    agg.append("world");
    assert_eq!(agg.snapshot(), "hello world");
}

#[test]
fn fallback_lines_are_joined_by_newlines() {
    let mut agg = ResponseAggregator::new();
    agg.append_line("a");
    agg.append_line("b");
    assert_eq!(agg.snapshot(), "a\nb");
}

#[test]
fn no_space_is_inserted_before_text_that_brings_its_own() {
    let mut agg = ResponseAggregator::new();
    agg.append("token");
    agg.append(" continued");
    assert_eq!(agg.snapshot(), "token continued");
}

#[test]
fn the_first_append_is_taken_as_is() {
    let mut agg = ResponseAggregator::new();
    assert!(agg.is_empty());
    agg.append("alone");
    assert!(!agg.is_empty());
    assert_eq!(agg.snapshot(), "alone");
}
