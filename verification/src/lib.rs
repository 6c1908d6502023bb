//! A parser and data structures for the `/etc/os-release` file.
//!
//! The os-release file is used by systemd and other tools to store
//! information about the operating system distribution. It is formatted as a
//! list of environment-like shell-compatible variable assignments: each line
//! is empty, a comment starting with `#`, or `KEY=VALUE`, where the value may
//! be unquoted, double-quoted with backslash escapes, or single-quoted with
//! no escape processing.
//!
//! The line parser turns one line into an optional [`OsReleaseEntry`]; the
//! document builder assembles entries into an [`OsRelease`], an ordered
//! mapping with unique keys where a later duplicate key overwrites the
//! earlier value; and the typed accessors project the well-known fields as
//! strings, token lists, URLs, and calendar dates, with the documented
//! fallback defaults for the display name and the machine-readable id.
//!
//! Every function carries a contract that pins its result down over the
//! sequence-of-characters model of its inputs, and the contracts are machine
//! checked.

use vstd::prelude::*;

pub mod coerce;
pub mod construct;
pub mod document;
pub mod fields;
pub mod imap;
pub mod parse;

pub use crate::coerce::CoercionError;

use crate::imap::fields_seq;
use crate::parse::{
    find_char, lemma_find, spec_parse_line, spec_split_ws, split_whitespace_list, str_views,
    trim_quote, unescape,
};

verus! {

/// One decoded key-value pair from a single os-release line.
#[derive(Debug, Clone, PartialEq, Eq, Hash)]
pub struct OsReleaseEntry {
    key: String,
    value: String,
}

impl View for OsReleaseEntry {
    type V = (Seq<char>, Seq<char>);

    closed spec fn view(&self) -> (Seq<char>, Seq<char>) {
        (self.key@, self.value@)
    }
}

impl OsReleaseEntry {
    /// Create a new entry from an already-decoded key and value.
    pub fn new(key: String, value: String) -> (r: Self)
        ensures
            r@ == (key@, value@),
    {
        OsReleaseEntry { key, value }
    }

    /// Returns the key of the entry.
    pub fn key(&self) -> (r: &str)
        ensures
            r@ == self@.0,
    {
        self.key.as_str()
    }

    /// Returns the value of the entry.
    pub fn value(&self) -> (r: &str)
        ensures
            r@ == self@.1,
    {
        self.value.as_str()
    }

    /// Returns the value of the entry as a list of white-space-separated
    /// tokens.
    pub fn value_as_list(&self) -> (r: Vec<String>)
        ensures
            str_views(r@) == spec_split_ws(self@.1),
    {
        split_whitespace_list(self.value.as_str())
    }
}

/// The parsed contents of an os-release file: an ordered mapping from field
/// name to decoded value, keys unique, later duplicates overwriting earlier
/// ones during construction, read-only thereafter.
///
/// Its view is the sequence of key-value pairs, in insertion order.
#[derive(Debug)]
pub struct OsRelease {
    // An insertion-ordered map, so that iteration reports the fields in the
    // order the file gave them.
    fields: indexmap::IndexMap<String, String>,
}

impl View for OsRelease {
    type V = Seq<(Seq<char>, Seq<char>)>;

    closed spec fn view(&self) -> Seq<(Seq<char>, Seq<char>)> {
        fields_seq(self.fields)
    }
}

impl Clone for OsRelease {
    /// The clone holds the same fields.
    fn clone(&self) -> (r: Self)
        ensures
            r@ == self@,
    {
        OsRelease { fields: crate::imap::map_clone(&self.fields) }
    }
}

/// A line in the os-release file.
#[derive(Debug, Clone, PartialEq, Eq, Hash)]
pub enum OsReleaseLine {
    /// An empty line, a comment, or a line without an assignment.
    Empty,
    /// A key-value assignment.
    Entry(OsReleaseEntry),
}

impl OsReleaseLine {
    /// Classify one line of an os-release file.
    pub fn from_line(line: &str) -> (r: Self)
        ensures
            match r {
                OsReleaseLine::Empty => spec_parse_line(line@) is None,
                OsReleaseLine::Entry(e) => spec_parse_line(line@) == Some(e@),
            },
    {
        match parse_line(line) {
            None => OsReleaseLine::Empty,
            Some(e) => OsReleaseLine::Entry(e),
        }
    }

    /// Returns the entry, if the line is one.
    pub fn into_entry(self) -> (r: Option<OsReleaseEntry>)
        ensures
            match self {
                OsReleaseLine::Empty => r is None,
                OsReleaseLine::Entry(e) => r == Some(e),
            },
    {
        match self {
            OsReleaseLine::Empty => None,
            OsReleaseLine::Entry(entry) => Some(entry),
        }
    }
}

/// Parse a line from the os-release file.
///
/// Returns `None` if the line is empty, a comment, or holds no `=`.
/// Otherwise, returns the key and the decoded value.
pub fn parse_line(line: &str) -> (r: Option<OsReleaseEntry>)
    ensures
        match r {
            Some(e) => spec_parse_line(line@) == Some(e@),
            None => spec_parse_line(line@) is None,
        },
{
    let n = line.unicode_len();
    if n == 0 {
        return None;
    }
    if line.get_char(0) == '#' {
        return None;
    }
    let i = match find_char(line, '=') {
        None => {
            return None;
        },
        Some(i) => i,
    };
    proof {
        lemma_find(line@, '=');
    }
    let key = line.substring_char(0, i).to_owned();
    let raw = line.substring_char(i + 1, n);
    proof {
        assert(key@ =~= line@.take(i as int));
        assert(raw@ =~= line@.skip(i + 1));
    }
    let (trimmed, quote) = trim_quote(raw);
    let value = match quote {
        Some(q) => {
            if q == '\'' {
                trimmed.to_owned()
            } else {
                unescape(trimmed)
            }
        },
        None => unescape(trimmed),
    };
    Some(OsReleaseEntry::new(key, value))
}

} // verus!
