use lg_buddy::text::{
    contains, decimal, join, parse_i64, starts_with, str_eq, strip_prefix, trim, trim_end,
};

#[test]
fn decimal_text_parses_back() {
    for value in [0i64, 7, -7, 42, i64::MAX, i64::MIN + 1, -1_000_000] {
        assert_eq!(decimal(value as i128), value.to_string());
        assert_eq!(parse_i64(&decimal(value as i128)), Some(value));
    }
}

#[test]
fn integer_parsing_follows_from_str() {
    assert_eq!(parse_i64("+5"), Some(5));
    assert_eq!(parse_i64("-0"), Some(0));
    assert_eq!(parse_i64("007"), Some(7));
    assert_eq!(parse_i64("-9223372036854775808"), Some(i64::MIN));
    assert_eq!(parse_i64("9223372036854775808"), None);
    assert_eq!(parse_i64(""), None);
    assert_eq!(parse_i64("-"), None);
    assert_eq!(parse_i64(" 5"), None);
    assert_eq!(parse_i64("5.0"), None);
}

#[test]
fn trimming_and_matching() {
    assert_eq!(trim("\t a b \n"), "a b");
    assert_eq!(trim_end("  a  "), "  a");
    assert_eq!(trim("\u{3000}x\u{a0}"), "x");
    assert!(starts_with("outcome=1", "outcome="));
    assert!(!starts_with("out", "outcome="));
    assert_eq!(strip_prefix("outcome=1", "outcome="), Some("1"));
    assert_eq!(strip_prefix("x", "outcome="), None);
    assert!(contains("a-102-b", "-102"));
    assert!(!contains("a-10-2", "-102"));
    assert!(contains("abc", ""));
    assert!(str_eq("ab", "ab"));
    assert!(!str_eq("ab", "abc"));
}

#[test]
fn joining_words() {
    assert_eq!(join(&["a", "b", "c"], " "), "a b c");
    assert_eq!(join(&[], ", "), "");
    assert_eq!(join(&["only"], ", "), "only");
}

#[test]
fn decimal_writes_the_extremes_of_i128() {
    assert_eq!(decimal(i128::MIN), i128::MIN.to_string());
    assert_eq!(decimal(i128::MAX), i128::MAX.to_string());
}
