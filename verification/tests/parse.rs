use gitai::commit_reference::{CommitReference, ReferenceParseError};

#[test]
fn single_without_dots_is_verbatim() {
    assert_eq!(
        CommitReference::parse("main"),
        Ok(CommitReference::Single("main".to_string()))
    );
    assert_eq!(
        CommitReference::parse("abc123"),
        Ok(CommitReference::Single("abc123".to_string()))
    );
}

#[test]
fn single_with_lone_dots_is_verbatim() {
    assert_eq!(
        CommitReference::parse("v1.2.3"),
        Ok(CommitReference::Single("v1.2.3".to_string()))
    );
}

#[test]
fn triple_dots_both_endpoints() {
    assert_eq!(
        CommitReference::parse("a...b"),
        Ok(CommitReference::TripleDots { from: "a".to_string(), to: "b".to_string() })
    );
}

#[test]
fn triple_dots_empty_from_defaults_to_head() {
    assert_eq!(
        CommitReference::parse("...b"),
        Ok(CommitReference::TripleDots { from: "HEAD".to_string(), to: "b".to_string() })
    );
}

#[test]
fn triple_dots_empty_to_defaults_to_head() {
    assert_eq!(
        CommitReference::parse("a..."),
        Ok(CommitReference::TripleDots { from: "a".to_string(), to: "HEAD".to_string() })
    );
}

#[test]
fn triple_dots_alone_defaults_both_to_head() {
    assert_eq!(
        CommitReference::parse("..."),
        Ok(CommitReference::TripleDots { from: "HEAD".to_string(), to: "HEAD".to_string() })
    );
}

#[test]
fn range_both_endpoints() {
    assert_eq!(
        CommitReference::parse("a..b"),
        Ok(CommitReference::Range { from: "a".to_string(), to: "b".to_string() })
    );
}

#[test]
fn range_alone_defaults_both_to_head() {
    assert_eq!(
        CommitReference::parse(".."),
        Ok(CommitReference::Range { from: "HEAD".to_string(), to: "HEAD".to_string() })
    );
}

#[test]
fn empty_input_is_rejected() {
    assert_eq!(CommitReference::parse(""), Err(ReferenceParseError::Empty));
}

#[test]
fn longer_separator_wins_over_shorter() {
    // `..` is a substring of `...`, so the three-dot split must be tried
    // first; the stray dot lands in the right-hand endpoint.
    assert_eq!(
        CommitReference::parse("a....b"),
        Ok(CommitReference::TripleDots { from: "a".to_string(), to: ".b".to_string() })
    );
}

#[test]
fn range_splits_on_first_separator() {
    assert_eq!(
        CommitReference::parse("a..b..c"),
        Ok(CommitReference::Range { from: "a".to_string(), to: "b..c".to_string() })
    );
}

#[test]
fn range_round_trip() {
    let original = CommitReference::Range { from: "feature/x".to_string(), to: "main".to_string() };
    let text = original.to_text();
    assert_eq!(text, "feature/x..main");
    assert_eq!(CommitReference::parse(&text), Ok(original));
}

#[test]
fn triple_dots_round_trip() {
    let original = CommitReference::TripleDots {
        from: "release-1".to_string(),
        to: "topic".to_string(),
    };
    let text = original.to_text();
    assert_eq!(text, "release-1...topic");
    assert_eq!(CommitReference::parse(&text), Ok(original));
}

#[test]
fn single_round_trip() {
    let original = CommitReference::Single("HEAD~3".to_string());
    assert_eq!(CommitReference::parse(&original.to_text()), Ok(original));
}

#[test]
fn round_trip_fails_outside_safe_endpoints() {
    // An endpoint ending in a dot collides with the separator: the rendered
    // two-dot range reparses as a three-dot one.
    let original = CommitReference::Range { from: "a.".to_string(), to: "b".to_string() };
    let text = original.to_text();
    assert_eq!(text, "a...b");
    assert_eq!(
        CommitReference::parse(&text),
        Ok(CommitReference::TripleDots { from: "a".to_string(), to: "b".to_string() })
    );
}

#[test]
fn unicode_reference_parses() {
    assert_eq!(
        CommitReference::parse("tópico..mäin"),
        Ok(CommitReference::Range { from: "tópico".to_string(), to: "mäin".to_string() })
    );
}
