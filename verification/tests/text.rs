use realm_chat::text::{is_blank, same_text, trimmed_owned};

#[test]
fn trimming_drops_unicode_white_space_at_both_ends() {
    assert_eq!(trimmed_owned("  a b \t\n"), "a b");
    assert_eq!(trimmed_owned("\u{3000}x\u{00a0}"), "x");
    assert_eq!(trimmed_owned(""), "");
}

#[test]
fn blank_text_is_only_white_space() {
    assert!(is_blank(" \t\r\n"));
    assert!(is_blank(""));
    assert!(!is_blank(" . "));
}

#[test]
fn text_compares_by_characters() {
    assert!(same_text(&"accepted".to_string(), "accepted"));
    assert!(!same_text(&"Accepted".to_string(), "accepted"));
}
