use fallible::parse::parse_number;
use fallible::text::{let_else, same_text};
use std::num::IntErrorKind;

#[test]
fn reads_numbers() {
    assert_eq!(parse_number("42"), Ok(42));
    assert_eq!(parse_number("+7"), Ok(7));
    assert_eq!(parse_number("-0"), Ok(0));
    assert_eq!(parse_number("-2147483648"), Ok(i32::MIN));
}

#[test]
fn rejects_bad_text() {
    assert_eq!(parse_number("").unwrap_err().error().kind(), &IntErrorKind::Empty);
    assert_eq!(parse_number(" 1").unwrap_err().text(), " 1");
    assert!(parse_number("-").is_err());
    assert!(parse_number("1_000").is_err());
    assert_eq!(parse_number("2147483648").unwrap_err().error().kind(), &IntErrorKind::PosOverflow);
}

#[test]
fn count_item_pairs() {
    assert_eq!(let_else("3 chairs"), (3, "chairs".to_string()));
    assert_eq!(let_else("12 big chairs"), (12, "big".to_string()));
    assert_eq!(let_else("7 "), (7, String::new()));
}

#[test]
fn count_item_extremes() {
    assert_eq!(let_else("+0 grains"), (0, "grains".to_string()));
    assert_eq!(let_else("18446744073709551615 grains"), (u64::MAX, "grains".to_string()));
}

#[test]
fn failure_renders_std_message() {
    let m = parse_number("x1").unwrap_err();
    assert_eq!(m.message(), "invalid digit found in string");
    assert_eq!(m.error(), &"x1".parse::<i32>().unwrap_err());
    let m = parse_number("").unwrap_err();
    assert_eq!(m.message(), "cannot parse integer from empty string");
}

#[test]
fn text_equality() {
    assert!(same_text("abc", "abc"));
    assert!(!same_text("abc", "abd"));
    assert!(!same_text("ab", "abc"));
    assert!(same_text("", ""));
}
