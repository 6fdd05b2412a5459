use runtime_service::jobs::take_last_lines;
use runtime_service::text::{
    i64_to_decimal, is_blank, option_i32_to_debug, parse_unsigned_max, starts_with, str_equal,
    trim_end_matches_char, trim_string, u64_to_decimal,
};

#[test]
fn decimal_writing() {
    assert_eq!(u64_to_decimal(0), "0");
    assert_eq!(u64_to_decimal(12345), "12345");
    assert_eq!(u64_to_decimal(u64::MAX), u64::MAX.to_string());
    assert_eq!(i64_to_decimal(-42), "-42");
    assert_eq!(i64_to_decimal(i64::MIN), i64::MIN.to_string());
    assert_eq!(option_i32_to_debug(Some(-3)), format!("{:?}", Some(-3)));
    assert_eq!(option_i32_to_debug(None), "None");
}

#[test]
fn parsing_like_str_parse() {
    for s in ["0", "42", "+42", "007", "", "+", "-1", " 5", "5 ", "18446744073709551615", "18446744073709551616", "4294967296", "1_0"] {
        assert_eq!(parse_unsigned_max(s, u64::MAX), s.parse::<u64>().ok(), "{}", s);
        assert_eq!(parse_unsigned_max(s, u32::MAX as u64), s.parse::<u32>().ok().map(|v| v as u64), "{}", s);
    }
}

#[test]
fn trimming() {
    assert_eq!(trim_string("  a b \t\n"), "a b");
    assert_eq!(trim_string("\u{3000}x\u{a0}"), "x");
    assert!(is_blank(" \n\t\u{2003}"));
    assert!(is_blank(""));
    assert!(!is_blank(" x "));
    assert_eq!(trim_end_matches_char("a//", '/'), "a");
    assert!(starts_with("/status/1", "/status"));
    assert!(!starts_with("/stat", "/status"));
    assert!(str_equal("ab", "ab"));
    assert!(!str_equal("ab", "abc"));
}

#[test]
fn last_lines() {
    assert_eq!(take_last_lines("a\nb\nc", 2), "b\nc");
    assert_eq!(take_last_lines("a\r\nb\r\n", 5), "a\nb");
    assert_eq!(take_last_lines("a\nb\n", 0), "a\nb\n");
    assert_eq!(take_last_lines("", 3), "");
    assert_eq!(take_last_lines("x\n\ny", 2), "\ny");
    assert_eq!(take_last_lines("only\r", 1), "only\r");
    let s = "l1\nl2\nl3\nl4\n";
    let all: Vec<&str> = s.lines().collect();
    assert_eq!(take_last_lines(s, 3), all[1..].join("\n"));
}
