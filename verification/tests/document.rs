//! Tests for document assembly and the typed accessors.

use etc_os_release::{OsRelease, OsReleaseEntry};

const FEDORA: &str = r#"NAME=Fedora
VERSION="32 (Workstation Edition)"
ID=fedora
VERSION_ID=32
PRETTY_NAME="Fedora 32 (Workstation Edition)"
ANSI_COLOR="0;38;2;60;110;180"
LOGO=fedora-logo-icon
CPE_NAME="cpe:/o:fedoraproject:fedora:32"
HOME_URL="https://fedoraproject.org/"
DOCUMENTATION_URL="https://docs.fedoraproject.org/en-US/fedora/f32/system-administrators-guide/"
SUPPORT_URL="https://fedoraproject.org/wiki/Communicating_and_getting_help"
BUG_REPORT_URL="https://bugzilla.redhat.com/"
PRIVACY_POLICY_URL="https://fedoraproject.org/wiki/Legal:PrivacyPolicy"
VARIANT="Workstation Edition"
VARIANT_ID=workstation
"#;

#[test]
fn fedora_sample_document() {
    let os_release = OsRelease::from_str(FEDORA);
    assert_eq!(os_release.id(), "fedora");
    assert_eq!(os_release.version_id(), Some("32"));
    assert_eq!(os_release.variant(), Some("Workstation Edition"));
    assert_eq!(os_release.name(), "Fedora");
    assert_eq!(os_release.version(), Some("32 (Workstation Edition)"));
    assert_eq!(os_release.pretty_name(), "Fedora 32 (Workstation Edition)");
    assert_eq!(os_release.ansi_color(), Some("0;38;2;60;110;180"));
    assert_eq!(os_release.logo(), Some("fedora-logo-icon"));
    assert_eq!(os_release.cpe_name(), Some("cpe:/o:fedoraproject:fedora:32"));
    assert_eq!(os_release.variant_id(), Some("workstation"));
}

#[test]
fn empty_input_falls_back_to_defaults() {
    let os_release = OsRelease::from_str("");
    assert_eq!(os_release.name(), "linux");
    assert_eq!(os_release.id(), "linux");
    assert_eq!(os_release.pretty_name(), "Linux");
    assert_eq!(os_release.version(), None);
    assert_eq!(os_release.version_id(), None);
    assert_eq!(os_release.version_codename(), None);
    assert_eq!(os_release.build_id(), None);
    assert_eq!(os_release.image_id(), None);
    assert_eq!(os_release.image_version(), None);
    assert_eq!(os_release.cpe_name(), None);
    assert_eq!(os_release.variant(), None);
    assert_eq!(os_release.variant_id(), None);
    assert_eq!(os_release.logo(), None);
    assert_eq!(os_release.ansi_color(), None);
    assert_eq!(os_release.vendor_name(), None);
    assert_eq!(os_release.default_hostname(), None);
    assert_eq!(os_release.architecture(), None);
    assert_eq!(os_release.sysext_level(), None);
    assert_eq!(os_release.confext_level(), None);
    assert!(os_release.id_like().is_none());
    assert!(os_release.sysext_scope().is_none());
    assert!(os_release.confext_scope().is_none());
    assert!(os_release.portable_prefixes().is_none());
    assert_eq!(os_release.home_url(), Ok(None));
    assert_eq!(os_release.support_end(), Ok(None));
    assert_eq!(os_release.entries(), vec![]);
}

#[test]
fn later_duplicate_key_wins() {
    let os_release = OsRelease::from_str("ID=first\nNAME=Alpha\nID=second\n");
    assert_eq!(os_release.id(), "second");
    // The key keeps the slot of its first occurrence in iteration order.
    let entries = os_release.entries();
    let pairs: Vec<(&str, &str)> = entries.iter().map(|e| (e.key(), e.value())).collect();
    assert_eq!(pairs, vec![("ID", "second"), ("NAME", "Alpha")]);
}

#[test]
fn from_entries_builds_the_same_document() {
    let entries = vec![
        OsReleaseEntry::new("ID".to_string(), "debian".to_string()),
        OsReleaseEntry::new("NAME".to_string(), "Debian GNU/Linux".to_string()),
        OsReleaseEntry::new("ID".to_string(), "devuan".to_string()),
    ];
    let os_release = OsRelease::from_entries(&entries);
    assert_eq!(os_release.id(), "devuan");
    assert_eq!(os_release.name(), "Debian GNU/Linux");
    assert_eq!(os_release.get_value("MISSING"), None);
}

#[test]
fn from_lines_skips_blanks_and_comments() {
    let lines = vec![
        "# os-release".to_string(),
        "".to_string(),
        "ID=opensuse".to_string(),
        "not an assignment".to_string(),
        "VERSION_ID=15.4".to_string(),
    ];
    let os_release = OsRelease::from_lines(&lines);
    assert_eq!(os_release.id(), "opensuse");
    assert_eq!(os_release.version_id(), Some("15.4"));
    assert_eq!(os_release.entries().len(), 2);
}

#[test]
fn carriage_return_line_endings_are_accepted() {
    let os_release = OsRelease::from_str("ID=alpine\r\nVERSION_ID=3.18\r\n");
    assert_eq!(os_release.id(), "alpine");
    assert_eq!(os_release.version_id(), Some("3.18"));
}

#[test]
fn get_value_is_exact_match() {
    let os_release = OsRelease::from_str("NAME=Arch Linux\n");
    assert_eq!(os_release.get_value("NAME"), Some("Arch Linux"));
    assert_eq!(os_release.get_value("name"), None);
    assert_eq!(os_release.get_value("NAM"), None);
}

#[test]
fn clone_keeps_the_fields() {
    let os_release = OsRelease::from_str("ID=gentoo\n");
    let copy = os_release.clone();
    assert_eq!(copy.id(), "gentoo");
    assert_eq!(copy.entries().len(), 1);
}
