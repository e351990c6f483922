use rstmdb_studio::classify::{
    classify_domain, contains_text, is_connection_error, same_text, starts_with_text, DomainKind,
};

#[test]
fn substring_search() {
    assert!(contains_text("connection reset", "connection"));
    assert!(contains_text("abc", ""));
    assert!(contains_text("", ""));
    assert!(!contains_text("", "a"));
    assert!(!contains_text("ab", "abc"));
    assert!(contains_text("xxabc", "abc"));
    assert!(!contains_text("Connection reset", "connection"));
}

#[test]
fn connection_class_messages() {
    assert!(is_connection_error("not connected"));
    assert!(is_connection_error("channel closed unexpectedly"));
    assert!(is_connection_error("connection closed"));
    assert!(is_connection_error("I/O error: connection reset by peer"));
    assert!(!is_connection_error("request timeout"));
    assert!(!is_connection_error("Connection refused"));
    assert!(!is_connection_error("server error: STATE_MISMATCH - expected pending"));
}

#[test]
fn domain_classification_first_match_wins() {
    assert_eq!(classify_domain("INVALID_TRANSITION and GUARD_FAILED"), Some(DomainKind::InvalidTransition));
    assert_eq!(classify_domain("GUARD_FAILED: not found"), Some(DomainKind::GuardFailed));
    assert_eq!(classify_domain("STATE_MISMATCH: expected pending got shipped"), Some(DomainKind::StateMismatch));
    assert_eq!(classify_domain("instance not found"), Some(DomainKind::NotFound));
    assert_eq!(classify_domain("state_mismatch"), None);
    assert_eq!(classify_domain(""), None);
}

#[test]
fn text_equality_and_prefix() {
    assert!(same_text("index.html", "index.html"));
    assert!(!same_text("index.html", "index.htm"));
    assert!(same_text("", ""));
    assert!(starts_with_text("assets/app.js", "assets/"));
    assert!(!starts_with_text("asset", "assets/"));
    assert!(starts_with_text("x", ""));
}
