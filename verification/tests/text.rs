use timeular_webhooks::text::{is_among, same_text};

#[test]
fn same_text_compares_by_content() {
    assert!(same_text("", ""));
    assert!(same_text("trackingStarted", "trackingStarted"));
    assert!(!same_text("trackingStarted", "trackingStopped"));
    assert!(!same_text("a", "ab"));
    assert!(!same_text("ab", "a"));
    assert!(!same_text("a", ""));
    assert!(same_text("zeit\u{e4}\u{20ac}", "zeit\u{e4}\u{20ac}"));
    assert!(!same_text("zeit\u{e4}", "zeit\u{e5}"));
}

#[test]
fn is_among_finds_a_text_by_its_content() {
    let texts = vec!["trackingStarted".to_string(), String::new(), "x".to_string()];
    assert!(is_among("trackingStarted", &texts));
    assert!(is_among("", &texts));
    assert!(is_among("x", &texts));
    assert!(!is_among("trackingStopped", &texts));
    assert!(!is_among("X", &texts));
    assert!(!is_among("x", &vec![]));
}
