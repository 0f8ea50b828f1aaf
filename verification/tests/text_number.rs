use suwayomi_source::number::{int_to_decimal, millis_to_seconds, parse_i32, parse_i64};
use suwayomi_source::text::{chars_of, find_chars, str_contains, str_equal, str_starts_with, trim_chars};

#[test]
fn decimal_notation() {
    assert_eq!(int_to_decimal(0), "0");
    assert_eq!(int_to_decimal(42), "42");
    assert_eq!(int_to_decimal(-7), "-7");
    assert_eq!(int_to_decimal(i64::MIN), i64::MIN.to_string());
    assert_eq!(int_to_decimal(i64::MAX), i64::MAX.to_string());
}

#[test]
fn parse_i32_accepts_what_std_accepts() {
    for s in ["0", "42", "+42", "-42", "007", "2147483647", "-2147483648"] {
        assert_eq!(parse_i32(s), s.parse::<i32>().ok(), "{}", s);
    }
}

#[test]
fn parse_i32_rejects_what_std_rejects() {
    for s in ["", "-", "+", " 1", "1 ", "1a", "2147483648", "-2147483649", "+-1", "99999999999999999999999"] {
        assert_eq!(parse_i32(s), None, "{}", s);
        assert_eq!(s.parse::<i32>().ok(), None, "{}", s);
    }
}

#[test]
fn parse_i64_bounds() {
    assert_eq!(parse_i64("9223372036854775807"), Some(i64::MAX));
    assert_eq!(parse_i64("-9223372036854775808"), Some(i64::MIN));
    assert_eq!(parse_i64("9223372036854775808"), None);
    assert_eq!(parse_i64("1700000000000"), Some(1_700_000_000_000));
}

#[test]
fn decimal_roundtrip_on_samples() {
    for n in [0i64, 1, -1, 10, 99, -100, i32::MAX as i64, i32::MIN as i64] {
        assert_eq!(parse_i32(&int_to_decimal(n)), Some(n as i32));
        assert_eq!(parse_i64(&int_to_decimal(n)), Some(n));
    }
}

#[test]
fn millis_round_toward_zero() {
    assert_eq!(millis_to_seconds(1500), 1);
    assert_eq!(millis_to_seconds(-1500), -1);
    assert_eq!(millis_to_seconds(999), 0);
    assert_eq!(millis_to_seconds(i64::MIN), i64::MIN / 1000);
}

#[test]
fn string_predicates() {
    assert!(str_equal("abc", "abc"));
    assert!(!str_equal("abc", "abd"));
    assert!(str_contains("hentai manga", "hentai"));
    assert!(!str_contains("safe", "adult"));
    assert!(str_contains("x", ""));
    assert!(str_starts_with("https://x", "https://"));
    assert!(!str_starts_with("http", "https://"));
}

#[test]
fn find_counts_characters() {
    let s = chars_of("Ép - Title");
    assert_eq!(find_chars(&s, &chars_of(" - ")), Some(2));
    assert_eq!(find_chars(&s, &chars_of("zz")), None);
}

#[test]
fn trim_removes_unicode_white_space() {
    let t: String = trim_chars(&chars_of("\u{3000}\t Title \n\u{a0}")).into_iter().collect();
    assert_eq!(t, "Title");
    let e: Vec<char> = trim_chars(&chars_of(" \u{2003} "));
    assert!(e.is_empty());
    let s = " a b ";
    let t2: String = trim_chars(&chars_of(s)).into_iter().collect();
    assert_eq!(t2, s.trim());
}
