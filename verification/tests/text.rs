use ntnu_course_bot::text::{chars_of, contains_chars, decimal_string, join, parse_i32, str_contains};

#[test]
fn chars_of_keeps_every_character() {
    assert_eq!(chars_of("a選b"), vec!['a', '選', 'b']);
    assert_eq!(chars_of(""), Vec::<char>::new());
}

#[test]
fn str_contains_finds_a_part_anywhere() {
    assert!(str_contains("hello world", "hello"));
    assert!(str_contains("hello world", "o w"));
    assert!(str_contains("hello world", "world"));
    assert!(str_contains("hello", "hello"));
    assert!(!str_contains("hello world", "worlds"));
    assert!(!str_contains("hell", "hello"));
    assert!(!str_contains("", "a"));
}

#[test]
fn str_contains_finds_the_empty_text_everywhere() {
    assert!(str_contains("abc", ""));
    assert!(str_contains("", ""));
}

#[test]
fn contains_chars_does_not_match_across_a_gap() {
    assert!(!contains_chars(&vec!['a', 'b', 'x', 'c'], &vec!['b', 'c']));
    assert!(contains_chars(&vec!['a', 'a', 'b'], &vec!['a', 'b']));
}

#[test]
fn parse_i32_reads_digits() {
    assert_eq!(parse_i32("0"), Some(0));
    assert_eq!(parse_i32("007"), Some(7));
    assert_eq!(parse_i32("42"), Some(42));
    assert_eq!(parse_i32("2147483647"), Some(2147483647));
}

#[test]
fn parse_i32_rejects_what_is_no_number_or_too_large() {
    assert_eq!(parse_i32(""), None);
    assert_eq!(parse_i32("2147483648"), None);
    assert_eq!(parse_i32("99999999999999999999"), None);
    assert_eq!(parse_i32("12a"), None);
    assert_eq!(parse_i32("-1"), None);
    assert_eq!(parse_i32("+1"), None);
    assert_eq!(parse_i32(" 1"), None);
    assert_eq!(parse_i32("１"), None);
}

#[test]
fn decimal_string_writes_every_sign_and_size() {
    assert_eq!(decimal_string(0), "0");
    assert_eq!(decimal_string(7), "7");
    assert_eq!(decimal_string(10), "10");
    assert_eq!(decimal_string(-1), "-1");
    assert_eq!(decimal_string(1234567890), "1234567890");
    assert_eq!(decimal_string(i64::MAX), "9223372036854775807");
    assert_eq!(decimal_string(i64::MIN), "-9223372036854775808");
}

#[test]
fn join_puts_the_separator_between_neighbours() {
    assert_eq!(join(&Vec::new(), ", "), "");
    assert_eq!(join(&vec!["a".to_string()], ", "), "a");
    assert_eq!(join(&vec!["a".to_string(), "b".to_string(), "c".to_string()], " & "), "a & b & c");
    assert_eq!(join(&vec!["".to_string(), "".to_string()], "-"), "-");
}
