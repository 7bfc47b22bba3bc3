use repo_syncer::strings::{
    first_line_str, parse_u32, str_contains, trim_str, truncate_error, u64_to_string,
};

#[test]
fn trim_removes_both_ends() {
    assert_eq!(trim_str("  hello \n"), "hello");
    assert_eq!(trim_str("\t\r\n"), "");
    assert_eq!(trim_str("plain"), "plain");
}

#[test]
fn first_line_stops_at_line_feed() {
    assert_eq!(first_line_str("one\ntwo\nthree"), "one");
    assert_eq!(first_line_str("single"), "single");
    assert_eq!(first_line_str("crlf\r\nrest"), "crlf");
    assert_eq!(first_line_str(""), "");
}

#[test]
fn truncate_error_keeps_short_messages() {
    assert_eq!(truncate_error("fatal: not a git repository"), "fatal: not a git repository");
}

#[test]
fn truncate_error_cuts_long_messages() {
    let long = "abcdefghijklmnopqrstuvwxyz0123456789 more text";
    let cut = truncate_error(long);
    assert_eq!(cut, "abcdefghijklmnopqrstuvwxyz0...");
    assert_eq!(cut.chars().count(), 30);
}

#[test]
fn truncate_error_takes_first_line_of_trimmed() {
    assert_eq!(truncate_error("  first line\nsecond line\n"), "first line");
}

#[test]
fn truncate_error_reduces_whitespace_only_input_to_nothing() {
    assert_eq!(truncate_error("  \n "), "");
}

#[test]
fn parse_u32_reads_decimal() {
    assert_eq!(parse_u32("0"), Some(0));
    assert_eq!(parse_u32("42"), Some(42));
    assert_eq!(parse_u32("4294967295"), Some(u32::MAX));
}

#[test]
fn parse_u32_rejects_bad_input() {
    assert_eq!(parse_u32(""), None);
    assert_eq!(parse_u32("12a"), None);
    assert_eq!(parse_u32("-3"), None);
    assert_eq!(parse_u32("4294967296"), None);
}

#[test]
fn u64_to_string_renders_decimal() {
    assert_eq!(u64_to_string(0), "0");
    assert_eq!(u64_to_string(7), "7");
    assert_eq!(u64_to_string(120), "120");
    assert_eq!(u64_to_string(18446744073709551615), "18446744073709551615");
}

#[test]
fn str_contains_finds_substrings() {
    assert!(str_contains("missing delete_repo scope", "delete_repo"));
    assert!(str_contains("missing delete_repo scope", "scope"));
    assert!(!str_contains("permission denied", "scope"));
    assert!(str_contains("anything", ""));
    assert!(!str_contains("ab", "abc"));
}
