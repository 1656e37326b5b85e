use vibe_kanban::tags::{expand_tags, has_tag_reference};

fn tags(pairs: &[(&str, &str)]) -> Vec<(String, String)> {
    pairs
        .iter()
        .map(|(k, v)| (k.to_string(), v.to_string()))
        .collect()
}

#[test]
fn known_tags_are_replaced_with_their_content() {
    let t = tags(&[("auth", "the OAuth flow described in the wiki")]);
    assert_eq!(
        expand_tags("implement @auth for login", &t),
        "implement the OAuth flow described in the wiki for login"
    );
}

#[test]
fn unknown_tags_are_left_as_written() {
    let t = tags(&[("auth", "x")]);
    assert_eq!(expand_tags("see @missing here", &t), "see @missing here");
}

#[test]
fn a_lone_at_sign_is_kept() {
    let t = tags(&[("a", "x")]);
    assert_eq!(expand_tags("mail me @ home", &t), "mail me @ home");
    assert_eq!(expand_tags("a@@a", &t), "a@x");
}

#[test]
fn tag_names_stop_at_whitespace_and_at_signs() {
    let t = tags(&[("one", "1"), ("two", "2")]);
    assert_eq!(expand_tags("@one @two", &t), "1 2");
    assert_eq!(expand_tags("@one@two", &t), "12");
}

#[test]
fn the_latest_entry_for_a_name_wins() {
    let t = tags(&[("name", "old"), ("name", "new")]);
    assert_eq!(expand_tags("@name", &t), "new");
}

#[test]
fn text_without_references_is_unchanged() {
    let t = tags(&[("a", "x")]);
    assert_eq!(expand_tags("plain text, no tags", &t), "plain text, no tags");
    assert!(!has_tag_reference("plain text, no tags"));
    assert!(has_tag_reference("with @tag inside"));
    assert!(!has_tag_reference("only a lone @ sign"));
}
