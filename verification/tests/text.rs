use speedway_pos::applog::{log_needs_rotation, MAX_LOG_BYTES};
use speedway_pos::text::{
    byte_len, contains, fmt_i64, fmt_u64, is_blank_str, parse_i64, parse_u64, split_lines, starts_with, str_eq,
    strip_prefix, trim,
};

#[test]
fn integer_parsing_follows_rust() {
    assert_eq!(parse_i64("42"), Some(42));
    assert_eq!(parse_i64("-7"), Some(-7));
    assert_eq!(parse_i64("+7"), Some(7));
    assert_eq!(parse_i64("9223372036854775807"), Some(i64::MAX));
    assert_eq!(parse_i64("-9223372036854775808"), Some(i64::MIN));
    assert_eq!(parse_i64("9223372036854775808"), None);
    assert_eq!(parse_i64(""), None);
    assert_eq!(parse_i64("-"), None);
    assert_eq!(parse_i64(" 1"), None);
    assert_eq!(parse_u64("18446744073709551615"), Some(u64::MAX));
    assert_eq!(parse_u64("-1"), None);
}

#[test]
fn decimal_formatting() {
    assert_eq!(fmt_i64(0), "0");
    assert_eq!(fmt_i64(-1234), "-1234");
    assert_eq!(fmt_i64(i64::MIN), i64::MIN.to_string());
    assert_eq!(fmt_u64(u64::MAX), u64::MAX.to_string());
}

#[test]
fn trimming_and_blankness() {
    assert_eq!(trim("  a b \t\n"), "a b");
    assert_eq!(trim("\u{3000}x\u{a0}"), "x");
    assert!(is_blank_str(" \t "));
    assert!(is_blank_str(""));
    assert!(!is_blank_str(" x "));
}

#[test]
fn searching_strings() {
    assert!(contains("hello world", "o w"));
    assert!(contains("abc", ""));
    assert!(!contains("abc", "abcd"));
    assert!(starts_with("restore=x", "restore="));
    assert!(!starts_with("re", "restore="));
    assert_eq!(strip_prefix("safety=b.db", "safety="), Some("b.db".to_string()));
    assert_eq!(strip_prefix("x", "safety="), None);
    assert!(str_eq("a", "a") && !str_eq("a", "A"));
}

#[test]
fn lines_like_str_lines() {
    for s in ["a\nb", "a\r\nb\r\n", "\n\nx", "", "only", "x\r"] {
        let expected: Vec<String> = s.lines().map(|l| l.to_string()).collect();
        assert_eq!(split_lines(s), expected, "{:?}", s);
    }
}

#[test]
fn case_mapping_and_lengths() {
    // lower-casing reaches the log filter, upper-casing the receipt header
    assert_eq!(speedway_pos::applog::sanitize("New PASSWORD set"), "[redacted: potential sensitive content]");
    assert_eq!(speedway_pos::applog::sanitize("Ä Secretariat"), "[redacted: potential sensitive content]");
    let r = speedway_pos::hardware::render_receipt("Straße", "x", 1, "t", 0, 0, 0, 0, "sale", "completed", &vec![]);
    assert!(r.starts_with("STRASSE\n"));
    assert_eq!(byte_len("é"), 2);
    assert_eq!(byte_len("abc"), 3);
}

#[test]
fn whitespace_agrees_with_std_on_every_char() {
    for code in 0u32..=0x10FFFF {
        if let Some(c) = char::from_u32(code) {
            assert_eq!(speedway_pos::text::char_is_whitespace(c), c.is_whitespace(), "U+{:04X}", code);
        }
    }
}

#[test]
fn log_rotates_past_half_a_megabyte() {
    assert_eq!(MAX_LOG_BYTES, 512 * 1024);
    assert!(!log_needs_rotation(0));
    assert!(!log_needs_rotation(512 * 1024));
    assert!(log_needs_rotation(512 * 1024 + 1));
}
