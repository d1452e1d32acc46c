//! The ordered map behind [`Headers`](super::Headers), as `indexmap` provides it.
//!
//! Each entry is `(key, name, value)`: the lowercased key it is found by, the
//! spelling that goes on the wire, and the value. The functions here are thin
//! calls into `indexmap`; their contracts restate what its documentation says
//! of each method, over [`entries`].

use indexmap::IndexMap;
use vstd::prelude::*;

verus! {

#[verifier::external_type_specification]
#[verifier::external_body]
#[verifier::reject_recursive_types(K)]
#[verifier::reject_recursive_types(V)]
#[verifier::reject_recursive_types(S)]
pub struct ExIndexMap<K, V, S>(IndexMap<K, V, S>);

/// What a map holds, in its iteration order: `(key, name, value)` per entry.
pub uninterp spec fn entries(m: IndexMap<String, (String, String)>) -> Seq<(Seq<char>, Seq<char>, Seq<char>)>;

/// Whether some entry is stored under `key`.
pub open spec fn has_key(es: Seq<(Seq<char>, Seq<char>, Seq<char>)>, key: Seq<char>) -> bool {
    exists|i: int| 0 <= i < es.len() && (#[trigger] es[i]).0 == key
}

/// The position of the entry stored under `key`, when there is one.
pub open spec fn key_at(es: Seq<(Seq<char>, Seq<char>, Seq<char>)>, key: Seq<char>) -> int {
    choose|i: int| 0 <= i < es.len() && (#[trigger] es[i]).0 == key
}

/// No two entries share a key.
pub open spec fn distinct_keys(es: Seq<(Seq<char>, Seq<char>, Seq<char>)>) -> bool {
    forall|i: int, j: int| 0 <= i < j < es.len() ==> (#[trigger] es[i]).0 != (#[trigger] es[j]).0
}

/// `IndexMap::new`: an empty map.
#[verifier::external_body]
pub(crate) fn map_new() -> (m: IndexMap<String, (String, String)>)
    ensures
        entries(m) == Seq::<(Seq<char>, Seq<char>, Seq<char>)>::empty(),
{
    IndexMap::new()
}

/// `IndexMap::insert`: an existing key keeps its place and takes the new
/// value; a new key is appended last. Keys stay distinct.
#[verifier::external_body]
pub(crate) fn map_insert(m: &mut IndexMap<String, (String, String)>, key: String, value: (String, String))
    ensures
        distinct_keys(entries(*old(m))) ==> distinct_keys(entries(*final(m))),
        distinct_keys(entries(*old(m))) && has_key(entries(*old(m)), key@) ==> entries(*final(m)) == entries(*old(m)).update(
            key_at(entries(*old(m)), key@),
            (key@, value.0@, value.1@),
        ),
        !has_key(entries(*old(m)), key@) ==> entries(*final(m)) == entries(*old(m)).push(
            (key@, value.0@, value.1@),
        ),
{
    m.insert(key, value);
}

/// `IndexMap::shift_remove`: the entry under `key` is removed and the ones
/// after it shift down, keeping their relative order.
#[verifier::external_body]
pub(crate) fn map_shift_remove(m: &mut IndexMap<String, (String, String)>, key: &String)
    ensures
        distinct_keys(entries(*old(m))) ==> distinct_keys(entries(*final(m))),
        distinct_keys(entries(*old(m))) && has_key(entries(*old(m)), key@) ==> entries(*final(m)) == entries(*old(m)).remove(
            key_at(entries(*old(m)), key@),
        ),
        !has_key(entries(*old(m)), key@) ==> entries(*final(m)) == entries(*old(m)),
{
    m.shift_remove(key);
}

/// `IndexMap::get`: the value stored under `key`, if any.
#[verifier::external_body]
pub(crate) fn map_get<'a>(m: &'a IndexMap<String, (String, String)>, key: &String) -> (r: Option<&'a (String, String)>)
    ensures
        r is Some == has_key(entries(*m), key@),
        distinct_keys(entries(*m)) && r is Some ==> r.unwrap().0@ == entries(*m)[key_at(entries(*m), key@)].1
            && r.unwrap().1@ == entries(*m)[key_at(entries(*m), key@)].2,
{
    m.get(key)
}

/// `IndexMap::contains_key`.
#[verifier::external_body]
pub(crate) fn map_contains(m: &IndexMap<String, (String, String)>, key: &String) -> (r: bool)
    ensures
        r == has_key(entries(*m), key@),
{
    m.contains_key(key)
}

/// `IndexMap::len`.
#[verifier::external_body]
pub(crate) fn map_len(m: &IndexMap<String, (String, String)>) -> (r: usize)
    ensures
        r == entries(*m).len(),
{
    m.len()
}

/// `IndexMap::values`, each `(name, value)` copied out, in order.
#[verifier::external_body]
pub(crate) fn map_values(m: &IndexMap<String, (String, String)>) -> (r: Vec<(String, String)>)
    ensures
        r@.len() == entries(*m).len(),
        forall|i: int| 0 <= i < r@.len() ==> (#[trigger] r@[i]).0@ == entries(*m)[i].1
            && r@[i].1@ == entries(*m)[i].2,
{
    m.values().cloned().collect()
}

/// `IndexMap::clone`: the same entries in the same order.
#[verifier::external_body]
pub(crate) fn map_clone(m: &IndexMap<String, (String, String)>) -> (r: IndexMap<String, (String, String)>)
    ensures
        entries(r) == entries(*m),
{
    m.clone()
}

} // verus!
