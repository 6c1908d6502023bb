//! Tests for list, URL, and date projections of field values.

use chrono::Datelike;
use etc_os_release::{CoercionError, OsRelease, OsReleaseEntry};

#[test]
fn list_tokens_in_order_and_restartable() {
    let os_release = OsRelease::from_str("SYSEXT_SCOPE=\"system initrd\"\n");
    let tokens = os_release.sysext_scope().unwrap();
    assert_eq!(tokens, vec!["system".to_string(), "initrd".to_string()]);
    // Iterating the returned list twice yields the same sequence.
    let first: Vec<&String> = tokens.iter().collect();
    let second: Vec<&String> = tokens.iter().collect();
    assert_eq!(first, second);
}

#[test]
fn list_collapses_whitespace_runs() {
    let entry = OsReleaseEntry::new("ID_LIKE".to_string(), "  rhel \t fedora\ncentos ".to_string());
    let tokens = entry.value_as_list();
    assert_eq!(
        tokens,
        vec!["rhel".to_string(), "fedora".to_string(), "centos".to_string()]
    );
}

#[test]
fn list_of_absent_key_is_absent() {
    let os_release = OsRelease::from_str("ID=fedora\n");
    assert!(os_release.get_value_as_list("ID_LIKE").is_none());
    assert_eq!(
        os_release.get_value_as_list("ID"),
        Some(vec!["fedora".to_string()])
    );
}

#[test]
fn url_values_parse() {
    let os_release = OsRelease::from_str("HOME_URL=\"https://fedoraproject.org/\"\n");
    let url = os_release.home_url().unwrap().unwrap();
    assert_eq!(url.as_str(), "https://fedoraproject.org/");
    assert_eq!(url.scheme(), "https");
    assert_eq!(os_release.documentation_url(), Ok(None));
}

#[test]
fn malformed_url_is_an_error() {
    let os_release = OsRelease::from_str("HOME_URL=\"not a url\"\n");
    assert_eq!(os_release.home_url(), Err(CoercionError::InvalidUrl));
    let entry = OsReleaseEntry::new("HOME_URL".to_string(), "::nonsense::".to_string());
    assert_eq!(entry.value_as_url(), Err(CoercionError::InvalidUrl));
}

#[test]
fn url_of_absent_key_is_absent_not_an_error() {
    let os_release = OsRelease::from_str("");
    assert_eq!(os_release.get_value_as_url("HOME_URL"), Ok(None));
    assert_eq!(os_release.vendor_url(), Ok(None));
}

#[test]
fn date_values_parse() {
    let os_release = OsRelease::from_str("SUPPORT_END=2026-05-13\n");
    let date = os_release.support_end().unwrap().unwrap();
    assert_eq!(date.year(), 2026);
    assert_eq!(date.month(), 5);
    assert_eq!(date.day(), 13);

    let entry = OsReleaseEntry::new("SUPPORT_END".to_string(), "2001-02-03".to_string());
    let date = entry.value_as_date().unwrap();
    assert_eq!(date.year(), 2001);
}

#[test]
fn malformed_date_is_an_error() {
    let os_release = OsRelease::from_str("SUPPORT_END=2026-13-40\n");
    assert_eq!(os_release.support_end(), Err(CoercionError::InvalidDate));
    let os_release = OsRelease::from_str("SUPPORT_END=\"May 13, 2026\"\n");
    assert_eq!(os_release.support_end(), Err(CoercionError::InvalidDate));
    assert_eq!(os_release.get_value_as_date("MISSING"), Ok(None));
}

#[test]
fn entry_url_accessor() {
    let entry = OsReleaseEntry::new(
        "BUG_REPORT_URL".to_string(),
        "https://bugzilla.redhat.com/".to_string(),
    );
    let url = entry.value_as_url().unwrap();
    assert_eq!(url.host_str(), Some("bugzilla.redhat.com"));
}
