use legal_moves::formatter::format_tokens;
use legal_moves::text::{decimal_string, letter_string};

#[test]
fn decimal_renders_exactly() {
    assert_eq!(decimal_string(0), "0");
    assert_eq!(decimal_string(7), "7");
    assert_eq!(decimal_string(19), "19");
    assert_eq!(decimal_string(120), "120");
}

#[test]
fn letters_start_at_a() {
    assert_eq!(letter_string(0), "a");
    assert_eq!(letter_string(25), "z");
}

#[test]
fn format_tokens_wraps_and_joins() {
    assert_eq!(format_tokens(&vec![]), "()");
    assert_eq!(format_tokens(&vec!["a1".to_string()]), "(a1)");
    let three = vec!["a1".to_string(), "b2".to_string(), "c3".to_string()];
    assert_eq!(format_tokens(&three), "(a1|b2|c3)");
}
