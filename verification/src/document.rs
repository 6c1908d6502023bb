//! The mathematical model of a document: an ordered sequence of key-value
//! pairs with unique keys, where inserting an existing key updates its value
//! in place and inserting a new key appends it.

use vstd::prelude::*;

use crate::parse::spec_parse_line;

verus! {

/// The value stored for a key: the value of the first pair holding the key,
/// absent if no pair holds it.
pub open spec fn spec_get(s: Seq<(Seq<char>, Seq<char>)>, k: Seq<char>) -> Option<Seq<char>>
    decreases s.len(),
{
    if s.len() == 0 {
        None
    } else if s[0].0 == k {
        Some(s[0].1)
    } else {
        spec_get(s.skip(1), k)
    }
}

/// Inserting a pair: an existing key keeps its place and gets the new value;
/// a new key is appended last.
pub open spec fn spec_insert(
    s: Seq<(Seq<char>, Seq<char>)>,
    k: Seq<char>,
    v: Seq<char>,
) -> Seq<(Seq<char>, Seq<char>)>
    decreases s.len(),
{
    if s.len() == 0 {
        seq![(k, v)]
    } else if s[0].0 == k {
        seq![(k, v)] + s.skip(1)
    } else {
        seq![s[0]] + spec_insert(s.skip(1), k, v)
    }
}

/// The document assembled from a sequence of entries, inserted left to right.
pub open spec fn spec_build(es: Seq<(Seq<char>, Seq<char>)>) -> Seq<(Seq<char>, Seq<char>)>
    decreases es.len(),
{
    if es.len() == 0 {
        Seq::empty()
    } else {
        spec_insert(spec_build(es.drop_last()), es.last().0, es.last().1)
    }
}

/// The document assembled from a sequence of raw lines: each line is parsed,
/// and the entries among them are inserted left to right.
pub open spec fn spec_from_lines(ls: Seq<Seq<char>>) -> Seq<(Seq<char>, Seq<char>)>
    decreases ls.len(),
{
    if ls.len() == 0 {
        Seq::empty()
    } else {
        let prev = spec_from_lines(ls.drop_last());
        match spec_parse_line(ls.last()) {
            Some(kv) => spec_insert(prev, kv.0, kv.1),
            None => prev,
        }
    }
}

/// The views of a sequence of entries.
pub open spec fn entry_views(q: Seq<crate::OsReleaseEntry>) -> Seq<(Seq<char>, Seq<char>)> {
    q.map_values(|e: crate::OsReleaseEntry| e@)
}

/// The entries among a sequence of raw lines, in order: each line is parsed,
/// and lines that are no entry are dropped.
pub open spec fn spec_line_entries(ls: Seq<Seq<char>>) -> Seq<(Seq<char>, Seq<char>)>
    decreases ls.len(),
{
    if ls.len() == 0 {
        Seq::empty()
    } else {
        spec_line_entries(ls.drop_last()) + match spec_parse_line(ls.last()) {
            Some(kv) => seq![kv],
            None => Seq::<(Seq<char>, Seq<char>)>::empty(),
        }
    }
}

/// The value of the last entry holding a key, absent if no entry holds it.
pub open spec fn spec_last_value(es: Seq<(Seq<char>, Seq<char>)>, k: Seq<char>) -> Option<
    Seq<char>,
>
    decreases es.len(),
{
    if es.len() == 0 {
        None
    } else if es.last().0 == k {
        Some(es.last().1)
    } else {
        spec_last_value(es.drop_last(), k)
    }
}

/// Looking a key up after an insertion finds the inserted value for that key,
/// and is unchanged for every other key.
pub proof fn lemma_get_insert(
    s: Seq<(Seq<char>, Seq<char>)>,
    k: Seq<char>,
    v: Seq<char>,
    k2: Seq<char>,
)
    ensures
        spec_get(spec_insert(s, k, v), k2) == if k2 == k {
            Some(v)
        } else {
            spec_get(s, k2)
        },
    decreases s.len(),
{
    reveal_with_fuel(spec_get, 3);
    let t = spec_insert(s, k, v);
    if s.len() == 0 {
        assert(t[0] == (k, v));
        assert(t.skip(1) =~= Seq::<(Seq<char>, Seq<char>)>::empty());
    } else if s[0].0 == k {
        assert(t[0] == (k, v));
        assert(t.skip(1) =~= s.skip(1));
    } else {
        lemma_get_insert(s.skip(1), k, v, k2);
        assert(t[0] == s[0]);
        assert(t.skip(1) =~= spec_insert(s.skip(1), k, v));
    }
}

/// Duplicate keys in the input collapse to the later occurrence: looking a key
/// up in the assembled document returns the value of the last entry that holds
/// the key, and is absent exactly when no entry holds it.
pub proof fn lemma_build_last_wins(es: Seq<(Seq<char>, Seq<char>)>, k: Seq<char>)
    ensures
        spec_get(spec_build(es), k) == spec_last_value(es, k),
        spec_get(spec_build(es), k) is None <==> (forall|i: int|
            0 <= i < es.len() ==> (#[trigger] es[i]).0 != k),
    decreases es.len(),
{
    if es.len() == 0 {
    } else {
        lemma_build_last_wins(es.drop_last(), k);
        lemma_get_insert(spec_build(es.drop_last()), es.last().0, es.last().1, k);
        assert forall|i: int| 0 <= i < es.len() - 1 implies (#[trigger] es[i])
            == es.drop_last()[i] by {}
        if es.last().0 == k {
            assert(es[es.len() - 1].0 == k);
        } else {
            assert(spec_get(spec_build(es), k) == spec_last_value(es.drop_last(), k));
            if forall|i: int| 0 <= i < es.len() - 1 ==> (#[trigger] es.drop_last()[i]).0 != k {
                assert forall|i: int| 0 <= i < es.len() implies (#[trigger] es[i]).0 != k by {
                    if i < es.len() - 1 {
                        assert(es.drop_last()[i] == es[i]);
                    } else {
                        assert(es[i] == es.last());
                    }
                }
            } else {
                let j = choose|i: int|
                    0 <= i < es.len() - 1 && (#[trigger] es.drop_last()[i]).0 == k;
                assert(es[j].0 == k);
            }
        }
    }
}

/// Whether some pair holds the key.
pub open spec fn has_key(s: Seq<(Seq<char>, Seq<char>)>, key: Seq<char>) -> bool {
    exists|i: int| 0 <= i < s.len() && (#[trigger] s[i]).0 == key
}

/// No two pairs hold the same key.
pub open spec fn unique_keys(s: Seq<(Seq<char>, Seq<char>)>) -> bool {
    forall|i: int, j: int| 0 <= i < j < s.len() ==> (#[trigger] s[i]).0 != (#[trigger] s[j]).0
}

/// Every key of an insertion's result is the inserted key or a key of the
/// original sequence.
proof fn lemma_insert_keys(s: Seq<(Seq<char>, Seq<char>)>, k: Seq<char>, v: Seq<char>)
    ensures
        forall|m: int|
            0 <= m < spec_insert(s, k, v).len() ==> ((#[trigger] spec_insert(s, k, v)[m]).0 == k
                || has_key(s, spec_insert(s, k, v)[m].0)),
    decreases s.len(),
{
    let t = spec_insert(s, k, v);
    if s.len() == 0 {
        assert forall|m: int| 0 <= m < t.len() implies ((#[trigger] t[m]).0 == k || has_key(
            s,
            t[m].0,
        )) by {
            assert(t[m] == (k, v));
        }
    } else if s[0].0 == k {
        assert forall|m: int| 0 <= m < t.len() implies ((#[trigger] t[m]).0 == k || has_key(
            s,
            t[m].0,
        )) by {
            if m == 0 {
                assert(t[0] == (k, v));
            } else {
                assert(t[m] == s.skip(1)[m - 1]);
                assert(s.skip(1)[m - 1] == s[m]);
            }
        }
    } else {
        lemma_insert_keys(s.skip(1), k, v);
        let u = spec_insert(s.skip(1), k, v);
        assert forall|m: int| 0 <= m < t.len() implies ((#[trigger] t[m]).0 == k || has_key(
            s,
            t[m].0,
        )) by {
            if m == 0 {
                assert(t[0] == s[0]);
            } else {
                assert(t[m] == u[m - 1]);
                if u[m - 1].0 != k {
                    assert(has_key(s.skip(1), u[m - 1].0));
                    let w = choose|w: int|
                        0 <= w < s.skip(1).len() && (#[trigger] s.skip(1)[w]).0 == u[m - 1].0;
                    assert(s.skip(1)[w] == s[w + 1]);
                }
            }
        }
    }
}

/// Inserting into a sequence with unique keys keeps the keys unique.
proof fn lemma_insert_unique(s: Seq<(Seq<char>, Seq<char>)>, k: Seq<char>, v: Seq<char>)
    requires
        unique_keys(s),
    ensures
        unique_keys(spec_insert(s, k, v)),
    decreases s.len(),
{
    let t = spec_insert(s, k, v);
    if s.len() == 0 {
    } else if s[0].0 == k {
        assert forall|i: int, j: int| 0 <= i < j < t.len() implies (#[trigger] t[i]).0
            != (#[trigger] t[j]).0 by {
            assert(t[j] == s.skip(1)[j - 1]);
            assert(s.skip(1)[j - 1] == s[j]);
            if i == 0 {
                assert(t[0].0 == s[0].0);
            } else {
                assert(t[i] == s.skip(1)[i - 1]);
                assert(s.skip(1)[i - 1] == s[i]);
            }
        }
    } else {
        assert forall|i: int, j: int| 0 <= i < j < s.skip(1).len() implies (#[trigger] s.skip(
            1,
        )[i]).0 != (#[trigger] s.skip(1)[j]).0 by {
            assert(s.skip(1)[i] == s[i + 1]);
            assert(s.skip(1)[j] == s[j + 1]);
        }
        lemma_insert_unique(s.skip(1), k, v);
        lemma_insert_keys(s.skip(1), k, v);
        let u = spec_insert(s.skip(1), k, v);
        assert forall|i: int, j: int| 0 <= i < j < t.len() implies (#[trigger] t[i]).0
            != (#[trigger] t[j]).0 by {
            assert(t[j] == u[j - 1]);
            if i == 0 {
                assert(t[0] == s[0]);
                if u[j - 1].0 != k {
                    assert(has_key(s.skip(1), u[j - 1].0));
                    let w = choose|w: int|
                        0 <= w < s.skip(1).len() && (#[trigger] s.skip(1)[w]).0 == u[j - 1].0;
                    assert(s.skip(1)[w] == s[w + 1]);
                }
            } else {
                assert(t[i] == u[i - 1]);
            }
        }
    }
}

/// The document invariant: an assembled document never holds two pairs with
/// the same key.
pub proof fn lemma_build_unique(es: Seq<(Seq<char>, Seq<char>)>)
    ensures
        unique_keys(spec_build(es)),
    decreases es.len(),
{
    if es.len() == 0 {
    } else {
        lemma_build_unique(es.drop_last());
        lemma_insert_unique(spec_build(es.drop_last()), es.last().0, es.last().1);
    }
}

/// The two construction paths agree: building a document directly from raw
/// lines yields the same document as first extracting the entries from those
/// lines and then assembling them.
pub proof fn lemma_from_lines_is_build(ls: Seq<Seq<char>>)
    ensures
        spec_from_lines(ls) == spec_build(spec_line_entries(ls)),
    decreases ls.len(),
{
    if ls.len() == 0 {
        assert(spec_line_entries(ls) =~= Seq::<(Seq<char>, Seq<char>)>::empty());
    } else {
        lemma_from_lines_is_build(ls.drop_last());
        let es = spec_line_entries(ls);
        match spec_parse_line(ls.last()) {
            Some(kv) => {
                assert(es.drop_last() =~= spec_line_entries(ls.drop_last()));
                assert(es.last() == kv);
            },
            None => {
                assert(es =~= spec_line_entries(ls.drop_last()));
            },
        }
    }
}

} // verus!
