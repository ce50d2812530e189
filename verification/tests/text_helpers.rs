use hollowcheck::detect::types::str_eq;
use hollowcheck::text::{
    debug_quoted, is_alphanumeric, is_numeric, is_uppercase, to_lowercase, to_uppercase,
};

fn chars(s: &str) -> Vec<char> {
    s.chars().collect()
}

#[test]
fn ascii_case_mapping() {
    assert_eq!(to_lowercase(&chars("Hello, TODO 42")), chars("hello, todo 42"));
    assert_eq!(to_uppercase(&chars("fixme: later")), chars("FIXME: LATER"));
}

#[test]
fn debug_form_of_plain_text_is_quoted() {
    assert_eq!(debug_quoted(&chars("user-\\d+")), chars("\"user-\\\\d+\""));
    assert_eq!(debug_quoted(&chars("example.com")), chars("\"example.com\""));
}

#[test]
fn ascii_character_classes() {
    assert!(is_alphanumeric('a') && is_alphanumeric('Z') && is_alphanumeric('7'));
    assert!(!is_alphanumeric('_') && !is_alphanumeric(' '));
    assert!(is_uppercase('Q') && !is_uppercase('q'));
    assert!(is_numeric('0') && !is_numeric('x'));
}

#[test]
fn string_equality() {
    assert!(str_eq("main", "main"));
    assert!(!str_eq("main", "Main"));
    assert!(!str_eq("", "a"));
}
