use hopcoder_shell::bytes::{
    contains, matches_at, same_text, starts_with, starts_with_ignoring_case, to_ascii_lower,
};

#[test]
fn ascii_letters_are_lowered() {
    assert_eq!(to_ascii_lower(b'A'), b'a');
    assert_eq!(to_ascii_lower(b'Z'), b'z');
    assert_eq!(to_ascii_lower(b'a'), b'a');
    assert_eq!(to_ascii_lower(b'@'), b'@');
    assert_eq!(to_ascii_lower(b'['), b'[');
    assert_eq!(to_ascii_lower(b'-'), b'-');
    assert_eq!(to_ascii_lower(0xc9), 0xc9);
}

#[test]
fn prefix_is_found() {
    assert!(starts_with(b"/work/a.txt", b"/work"));
    assert!(starts_with(b"/work", b"/work"));
    assert!(starts_with(b"/work", b""));
    assert!(!starts_with(b"/wor", b"/work"));
    assert!(!starts_with(b"/Work/a", b"/work"));
    assert!(!starts_with(b"", b"x"));
}

#[test]
fn prefix_is_found_without_regard_to_case() {
    assert!(starts_with_ignoring_case(b"CONTENT-length: 1", b"Content-Length:"));
    assert!(starts_with_ignoring_case(b"abc", b"ABC"));
    assert!(!starts_with_ignoring_case(b"ab", b"ABC"));
    assert!(!starts_with_ignoring_case(b"a[c", b"a{c"));
    assert!(!starts_with_ignoring_case(b"a@c", b"a`c"));
}

#[test]
fn substring_is_found() {
    assert!(contains(b"a/../b", b".."));
    assert!(contains(b"..", b".."));
    assert!(contains(b"abc..", b".."));
    assert!(contains(b"abc", b""));
    assert!(contains(b"", b""));
    assert!(!contains(b"a.b.c", b".."));
    assert!(!contains(b".", b".."));
    assert!(!contains(b"", b"."));
    assert!(contains(b"aab", b"ab"));
}

#[test]
fn occurrence_is_tested_at_an_offset() {
    assert!(matches_at(b"hello", b"ll", 2));
    assert!(!matches_at(b"hello", b"ll", 1));
    assert!(matches_at(b"hello", b"", 5));
    assert!(matches_at(b"hello", b"hello", 0));
}

#[test]
fn texts_are_compared() {
    assert!(same_text("rust", "rust"));
    assert!(same_text("", ""));
    assert!(same_text("é", "\u{e9}"));
    assert!(!same_text("rust", "Rust"));
    assert!(!same_text("rust", "rus"));
    assert!(!same_text("rus", "rust"));
    assert!(!same_text("e\u{301}", "\u{e9}"));
}
