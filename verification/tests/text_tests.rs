use webnis::text::{decimal_string, find_char, parse_u64, starts_with, str_eq};

#[test]
fn compares_strings() {
    assert!(str_eq("", ""));
    assert!(str_eq("abc", "abc"));
    assert!(!str_eq("abc", "abd"));
    assert!(!str_eq("abc", "ab"));
    assert!(starts_with("http://x", "http://"));
    assert!(starts_with("x", ""));
    assert!(!starts_with("http:/", "http://"));
}

#[test]
fn finds_characters() {
    assert_eq!(find_char("a b c", ' ', 0), 1);
    assert_eq!(find_char("a b c", ' ', 2), 3);
    assert_eq!(find_char("a b c", ' ', 4), 5);
    assert_eq!(find_char("é b", ' ', 0), 1);
    assert_eq!(find_char("", ' ', 0), 0);
}

#[test]
fn parses_decimal_numbers() {
    assert_eq!(parse_u64("0"), Some(0));
    assert_eq!(parse_u64("+17"), Some(17));
    assert_eq!(parse_u64("007"), Some(7));
    assert_eq!(parse_u64("18446744073709551615"), Some(u64::MAX));
    assert_eq!(parse_u64("18446744073709551616"), None);
    assert_eq!(parse_u64("99999999999999999999x"), None);
    assert_eq!(parse_u64(""), None);
    assert_eq!(parse_u64("+"), None);
    assert_eq!(parse_u64("++1"), None);
    assert_eq!(parse_u64("-1"), None);
    assert_eq!(parse_u64("1 "), None);
    assert_eq!(parse_u64("١"), None);
}

#[test]
fn parse_agrees_with_std() {
    for s in ["0", "+0", "42", "0042", "+", "", "4 2", "18446744073709551615", "18446744073709551616", "1e3", "٣"] {
        assert_eq!(parse_u64(s), s.parse::<u64>().ok());
    }
}

#[test]
fn writes_decimal_numbers() {
    assert_eq!(decimal_string(0), "0");
    assert_eq!(decimal_string(9), "9");
    assert_eq!(decimal_string(10), "10");
    assert_eq!(decimal_string(408), "408");
    assert_eq!(decimal_string(u64::MAX), "18446744073709551615");
}
