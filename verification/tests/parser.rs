//! Tests for the line parser: classification, quoting, and unescaping.

use etc_os_release::parse_line;
use etc_os_release::parse::{trim_quote, unescape};
use etc_os_release::{OsReleaseEntry, OsReleaseLine};

fn entry(key: &str, value: &str) -> OsReleaseEntry {
    OsReleaseEntry::new(key.to_string(), value.to_string())
}

#[test]
fn test_parse_line() {
    // empty
    assert!(parse_line("").is_none());

    // comment
    assert!(parse_line("# comment").is_none());

    // key-value
    assert_eq!(parse_line("A=B").unwrap(), entry("A", "B"));
    assert_eq!(parse_line(r#"A="B C""#).unwrap(), entry("A", "B C"));
    assert_eq!(
        parse_line(r#"A="B C\"\"""#).unwrap(),
        entry("A", r#"B C"""#)
    );
    assert_eq!(
        parse_line(r#"A='B C\"\"'"#).unwrap(),
        entry("A", r#"B C\"\""#)
    );
}

#[test]
fn comment_lines_are_blank() {
    assert!(parse_line("#").is_none());
    assert!(parse_line("# NAME=Fedora").is_none());
    assert!(parse_line("#ID=debian").is_none());
}

#[test]
fn lines_without_assignment_are_blank() {
    assert!(parse_line("no assignment here").is_none());
    assert!(parse_line(" ").is_none());
    assert!(parse_line("KEY").is_none());
}

#[test]
fn empty_key_is_retained() {
    // An `=VALUE` line passes the blank/comment filter and yields an entry
    // with an empty key.
    assert_eq!(parse_line("=value").unwrap(), entry("", "value"));
}

#[test]
fn empty_value() {
    assert_eq!(parse_line("A=").unwrap(), entry("A", ""));
    assert_eq!(parse_line(r#"A="""#).unwrap(), entry("A", ""));
}

#[test]
fn missing_closing_quote_keeps_rest_verbatim() {
    // The leading quote is stripped; with no matching closing quote the rest
    // of the text stays as it is.
    assert_eq!(parse_line(r#"A="B C"#).unwrap(), entry("A", "B C"));
    assert_eq!(parse_line("A='B").unwrap(), entry("A", "B"));
    // A lone quote strips the prefix and leaves nothing.
    assert_eq!(parse_line(r#"A=""#).unwrap(), entry("A", ""));
}

#[test]
fn value_split_at_first_equals() {
    assert_eq!(parse_line("A=B=C").unwrap(), entry("A", "B=C"));
}

#[test]
fn trim_quote_cases() {
    assert_eq!(trim_quote(r#""abc""#), ("abc", Some('"')));
    assert_eq!(trim_quote("'abc'"), ("abc", Some('\'')));
    assert_eq!(trim_quote(r#""abc"#), ("abc", Some('"')));
    assert_eq!(trim_quote("abc"), ("abc", None));
    assert_eq!(trim_quote(""), ("", None));
    assert_eq!(trim_quote(r#"""#), ("", Some('"')));
}

#[test]
fn unescape_cases() {
    assert_eq!(unescape(r#"B C\"\""#), r#"B C"""#);
    assert_eq!(unescape(r"a\\b"), r"a\b");
    assert_eq!(unescape(r"tail\"), "tail");
    assert_eq!(unescape(r"\n"), "n");
    assert_eq!(unescape("plain"), "plain");
}

#[test]
fn line_classification() {
    assert_eq!(OsReleaseLine::from_line("# comment"), OsReleaseLine::Empty);
    assert_eq!(OsReleaseLine::from_line("").into_entry(), None);
    assert_eq!(
        OsReleaseLine::from_line("A=B").into_entry(),
        Some(entry("A", "B"))
    );
}
