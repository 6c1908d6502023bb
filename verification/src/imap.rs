//! Trusted declarations for the insertion-ordered map of the `indexmap` crate
//! that backs a document. `fields_seq` names the key-value pairs a map holds,
//! in order; every `IndexMap` keeps its keys unique, so the first pair holding
//! a key is the only one, and the wrappers' contracts say so directly.

use vstd::prelude::*;

use crate::document::{spec_get, spec_insert};

verus! {

/// Declares indexmap::IndexMap, a hash map that keeps insertion order.
#[verifier::external_type_specification]
#[verifier::external_body]
#[verifier::reject_recursive_types(K)]
#[verifier::reject_recursive_types(V)]
#[verifier::reject_recursive_types(S)]
pub struct ExIndexMap<K, V, S>(indexmap::IndexMap<K, V, S>);

/// The key-value pairs a map holds, in order.
pub uninterp spec fn fields_seq(m: indexmap::IndexMap<String, String>) -> Seq<
    (Seq<char>, Seq<char>),
>;

/// Relies on indexmap::IndexMap::new: creates an empty map.
#[verifier::external_body]
pub(crate) fn map_new() -> (m: indexmap::IndexMap<String, String>)
    ensures
        fields_seq(m) == Seq::<(Seq<char>, Seq<char>)>::empty(),
{
    indexmap::IndexMap::new()
}

/// Relies on indexmap::IndexMap::insert: an existing key keeps its place in
/// the order and gets the new value; a new key is appended last.
#[verifier::external_body]
pub(crate) fn map_insert(m: &mut indexmap::IndexMap<String, String>, k: &str, v: &str)
    ensures
        fields_seq(*final(m)) == spec_insert(fields_seq(*old(m)), k@, v@),
{
    m.insert(k.to_owned(), v.to_owned());
}

/// Relies on indexmap::IndexMap::get: returns the value stored for the key,
/// if it is present, else nothing.
#[verifier::external_body]
pub(crate) fn map_get<'a>(m: &'a indexmap::IndexMap<String, String>, k: &str) -> (r: Option<
    &'a String,
>)
    ensures
        match r {
            Some(v) => spec_get(fields_seq(*m), k@) == Some(v@),
            None => spec_get(fields_seq(*m), k@) is None,
        },
{
    m.get(k)
}

/// Relies on indexmap::IndexMap::clone: the clone holds equal keys and values
/// in the same order.
#[verifier::external_body]
pub(crate) fn map_clone(m: &indexmap::IndexMap<String, String>) -> (r: indexmap::IndexMap<
    String,
    String,
>)
    ensures
        fields_seq(r) == fields_seq(*m),
{
    m.clone()
}

/// Relies on indexmap::IndexMap::iter: yields the key-value pairs in order.
#[verifier::external_body]
pub(crate) fn map_pairs(m: &indexmap::IndexMap<String, String>) -> (r: Vec<(String, String)>)
    ensures
        r@.len() == fields_seq(*m).len(),
        forall|i: int|
            0 <= i < r@.len() ==> ((#[trigger] r@[i]).0@, r@[i].1@) == fields_seq(*m)[i],
{
    m.iter().map(|(k, v)| (k.clone(), v.clone())).collect()
}

} // verus!
