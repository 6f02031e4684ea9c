use field_codecs::table::{position, token_at};
use field_codecs::text::same_text;

#[test]
fn same_text_compares_every_character() {
    assert!(same_text("", ""));
    assert!(same_text("radio", "radio"));
    assert!(!same_text("radio", "radix"));
    assert!(!same_text("radio", "radi"));
    assert!(!same_text("radi", "radio"));
    assert!(!same_text("radio", "Radio"));
    assert!(!same_text("", "a"));
}

#[test]
fn same_text_compares_beyond_ascii() {
    assert!(same_text("r\u{e4}dio", "r\u{e4}dio"));
    assert!(!same_text("r\u{e4}dio", "ra\u{308}dio"));
    assert!(!same_text("r\u{e4}dio", "r\u{e5}dio"));
}

#[test]
fn token_at_reads_the_index() {
    let names = ["a", "b", "c"];
    assert_eq!(token_at(&names, 0), Some("a"));
    assert_eq!(token_at(&names, 2), Some("c"));
    assert_eq!(token_at(&names, 3), None);
    assert_eq!(token_at(&names, -1), None);
    assert_eq!(token_at(&[], 0), None);
}

#[test]
fn position_finds_the_first_index() {
    let names = ["a", "b", "a", "c"];
    assert_eq!(position(&names, "a"), Some(0));
    assert_eq!(position(&names, "b"), Some(1));
    assert_eq!(position(&names, "c"), Some(3));
    assert_eq!(position(&names, "d"), None);
    assert_eq!(position(&names, ""), None);
    assert_eq!(position(&[], "a"), None);
}
