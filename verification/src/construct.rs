//! Construction of an [`OsRelease`] document: from a sequence of entries,
//! from a sequence of raw lines, or from a complete text.

use vstd::prelude::*;

use crate::document::{entry_views, spec_build, spec_from_lines};
use crate::imap::{fields_seq, map_insert, map_new};
use crate::parse::{spec_lines, split_lines, str_views};
use crate::{parse_line, OsRelease, OsReleaseEntry};

verus! {

impl OsRelease {
    /// Assemble a document from a sequence of entries, later duplicate keys
    /// overwriting earlier ones.
    pub fn from_entries(entries: &Vec<OsReleaseEntry>) -> (r: OsRelease)
        ensures
            r@ == spec_build(entry_views(entries@)),
    {
        let ghost vs = entry_views(entries@);
        let mut fields = map_new();
        let mut i: usize = 0;
        proof {
            assert(vs.take(0) =~= Seq::<(Seq<char>, Seq<char>)>::empty());
        }
        while i < entries.len()
            invariant
                i <= entries.len(),
                vs == entry_views(entries@),
                fields_seq(fields) == spec_build(vs.take(i as int)),
            decreases entries.len() - i,
        {
            let e = &entries[i];
            map_insert(&mut fields, e.key(), e.value());
            proof {
                assert(vs.take(i + 1).drop_last() =~= vs.take(i as int));
                assert(vs.take(i + 1).last() == entries@[i as int]@);
            }
            i += 1;
        }
        proof {
            assert(vs.take(entries@.len() as int) =~= vs);
        }
        OsRelease { fields }
    }

    /// Assemble a document from a sequence of raw lines: each line is parsed,
    /// lines that are no entry are dropped, and the entries are inserted left
    /// to right.
    pub fn from_lines(lines: &Vec<String>) -> (r: OsRelease)
        ensures
            r@ == spec_from_lines(str_views(lines@)),
    {
        let ghost ls = str_views(lines@);
        let mut fields = map_new();
        let mut i: usize = 0;
        proof {
            assert(ls.take(0) =~= Seq::<Seq<char>>::empty());
        }
        while i < lines.len()
            invariant
                i <= lines.len(),
                ls == str_views(lines@),
                fields_seq(fields) == spec_from_lines(ls.take(i as int)),
            decreases lines.len() - i,
        {
            proof {
                assert(ls.take(i + 1).drop_last() =~= ls.take(i as int));
                assert(ls.take(i + 1).last() == lines@[i as int]@);
            }
            match parse_line(lines[i].as_str()) {
                Some(e) => {
                    map_insert(&mut fields, e.key(), e.value());
                },
                None => {},
            }
            i += 1;
        }
        proof {
            assert(ls.take(lines@.len() as int) =~= ls);
        }
        OsRelease { fields }
    }

    /// Parse a complete os-release text: split it into lines and assemble the
    /// document from them.
    pub fn from_str(s: &str) -> (r: OsRelease)
        ensures
            r@ == spec_from_lines(spec_lines(s@)),
    {
        let lines = split_lines(s);
        OsRelease::from_lines(&lines)
    }
}

} // verus!
