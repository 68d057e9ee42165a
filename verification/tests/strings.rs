use sjmb::str_util::{
    split_char_once, split_ws_once, starts_with, str_eq, u64_to_dec, ws_collapse_str, ws_split,
    CollapseWhiteSpace,
};
use sjmb::time_fmt::{ts_fmt, TimeStampFormats, TS_FMT_LONG, TS_FMT_SHORT_YEAR};

#[test]
fn collapse_runs_of_whitespace() {
    assert_eq!(ws_collapse_str("  a \t\n b\r\nc  "), "a b c");
    assert_eq!("  a \t\n b\r\nc  ".ws_collapse(), "a b c");
}

#[test]
fn collapse_empty_and_blank() {
    assert_eq!(ws_collapse_str(""), "");
    assert_eq!(ws_collapse_str(" \t \n "), "");
}

#[test]
fn collapse_single_token_unchanged() {
    assert_eq!(ws_collapse_str("word"), "word");
}

#[test]
fn collapse_unicode_whitespace() {
    assert_eq!(ws_collapse_str("a\u{a0}\u{3000}b"), "a b");
}

#[test]
fn split_first_word_and_rest() {
    assert_eq!(
        split_ws_once("say #chan hello there"),
        ("say".to_string(), "#chan hello there".to_string())
    );
    assert_eq!(split_ws_once("solo"), ("solo".to_string(), "".to_string()));
    assert_eq!(split_ws_once("a\tb c"), ("a".to_string(), "b c".to_string()));
}

#[test]
fn split_on_space_once() {
    assert_eq!(
        split_char_once("#other hello world", ' '),
        Some(("#other".to_string(), "hello world".to_string()))
    );
    assert_eq!(split_char_once("#other", ' '), None);
}

#[test]
fn words_of_a_string() {
    let w = ws_split("  one  two\tthree ");
    assert_eq!(w, vec!["one".to_string(), "two".to_string(), "three".to_string()]);
    assert_eq!(ws_split(""), Vec::<String>::new());
}

#[test]
fn string_equality_and_prefix() {
    assert!(str_eq("abc", "abc"));
    assert!(!str_eq("abc", "abd"));
    assert!(starts_with("text/html; charset=utf-8", "text/"));
    assert!(!starts_with("application/json", "text/"));
    assert!(!starts_with("tex", "text/"));
}

#[test]
fn decimal_rendering() {
    assert_eq!(u64_to_dec(0), "0");
    assert_eq!(u64_to_dec(7), "7");
    assert_eq!(u64_to_dec(1234567890), "1234567890");
    assert_eq!(u64_to_dec(u64::MAX), "18446744073709551615");
}

#[test]
fn timestamp_rendering() {
    // 2001-09-09 01:46:40 UTC
    assert_eq!(ts_fmt(TS_FMT_LONG, 1_000_000_000), "2001-09-09 01:46:40");
    assert_eq!(ts_fmt(TS_FMT_SHORT_YEAR, 1_000_000_000), "2001 Sep 09 01:46");
    assert_eq!(ts_fmt(TS_FMT_LONG, 0), "(none)");
}

#[test]
fn timestamp_trait_forms() {
    assert_eq!(1_000_000_000i64.ts_long(), "2001-09-09 01:46:40");
    assert_eq!(1_000_000_000i64.ts_short(), "Sep 09 01:46");
    assert_eq!(1_000_000_000i64.ts_short_y(), "2001 Sep 09 01:46");
    assert_eq!(0i64.ts_long(), "(none)");
}
