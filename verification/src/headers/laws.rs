//! What merging headers guarantees, for any map and any sequence of sources.

use vstd::prelude::*;

use super::map::{distinct_keys, has_key, key_at};
use super::{applied, lookup, well_keyed, Entry};
use crate::text::lowercase;

verus! {

/// The entry under `key` is the only one with that key, so `key_at` finds it.
pub(crate) proof fn lemma_key_at_unique(es: Seq<Entry>, key: Seq<char>, i: int)
    requires
        distinct_keys(es),
        0 <= i < es.len(),
        es[i].0 == key,
    ensures
        has_key(es, key),
        key_at(es, key) == i,
{
    assert(es[i].0 == key);
    assert(has_key(es, key));
    let j = key_at(es, key);
    if j != i {
        if j < i {
            assert(es[j].0 != es[i].0);
        } else {
            assert(es[i].0 != es[j].0);
        }
    }
}

/// Applying a source keeps every entry found by the lowercase of its own
/// name, once.
pub proof fn lemma_applied_well_keyed(es: Seq<Entry>, name: Seq<char>, value: Option<Seq<char>>)
    requires
        well_keyed(es),
    ensures
        well_keyed(applied(es, name, value)),
{
    let key = lowercase(name);
    let after = applied(es, name, value);
    if has_key(es, key) {
        let k = key_at(es, key);
        match value {
            Some(v) => {
                assert forall|i: int, j: int| 0 <= i < j < after.len() implies (#[trigger] after[i]).0
                    != (#[trigger] after[j]).0 by {
                    assert(es[i].0 != es[j].0);
                }
            },
            None => {
                assert forall|i: int, j: int| 0 <= i < j < after.len() implies (#[trigger] after[i]).0
                    != (#[trigger] after[j]).0 by {
                    let a = if i < k { i } else { i + 1 };
                    let b = if j < k { j } else { j + 1 };
                    assert(after[i] == es[a]);
                    assert(after[j] == es[b]);
                    assert(es[a].0 != es[b].0);
                }
                assert forall|i: int| 0 <= i < after.len() implies (#[trigger] after[i]).0 == lowercase(after[i].1) by {
                    if i < k {
                        assert(after[i] == es[i]);
                    } else {
                        assert(after[i] == es[i + 1]);
                    }
                }
            },
        }
    } else {
        match value {
            Some(v) => {
                assert forall|i: int, j: int| 0 <= i < j < after.len() implies (#[trigger] after[i]).0
                    != (#[trigger] after[j]).0 by {
                    if j == es.len() {
                        assert(after[i] == es[i]);
                        assert(after[i].0 != key);
                    } else {
                        assert(es[i].0 != es[j].0);
                    }
                }
            },
            None => {},
        }
    }
}

/// Reading after writing: a header read back after a source set it has the
/// value that source gave, whatever casing either used; a removed header reads
/// as absent; every other header reads as before.
pub proof fn law_read_after_apply(es: Seq<Entry>, name: Seq<char>, value: Option<Seq<char>>, key: Seq<char>)
    requires
        well_keyed(es),
    ensures
        lookup(applied(es, name, value), key) == if key == lowercase(name) {
            value
        } else {
            lookup(es, key)
        },
{
    let nk = lowercase(name);
    let after = applied(es, name, value);
    lemma_applied_well_keyed(es, name, value);
    if has_key(es, nk) {
        let k = key_at(es, nk);
        match value {
            Some(v) => {
                if key == nk {
                    lemma_key_at_unique(after, key, k);
                } else if has_key(es, key) {
                    let j = key_at(es, key);
                    assert(es[j].0 == key);
                    assert(j != k);
                    assert(after[j] == es[j]);
                    lemma_key_at_unique(after, key, j);
                } else {
                    if has_key(after, key) {
                        let j = key_at(after, key);
                        assert(after[j].0 == key);
                        if j != k {
                            assert(es[j] == after[j]);
                        }
                    }
                }
            },
            None => {
                if key == nk {
                    if has_key(after, key) {
                        let j = key_at(after, key);
                        let b = if j < k { j } else { j + 1 };
                        assert(after[j] == es[b]);
                        assert(es[b].0 == es[k].0);
                    }
                } else if has_key(es, key) {
                    let j = key_at(es, key);
                    assert(es[j].0 == key);
                    assert(j != k);
                    let a = if j < k { j } else { j - 1 };
                    assert(after[a] == es[j]);
                    lemma_key_at_unique(after, key, a);
                } else {
                    if has_key(after, key) {
                        let j = key_at(after, key);
                        let b = if j < k { j } else { j + 1 };
                        assert(after[j] == es[b]);
                    }
                }
            },
        }
    } else {
        match value {
            Some(v) => {
                if key == nk {
                    lemma_key_at_unique(after, key, es.len() as int);
                } else if has_key(es, key) {
                    let j = key_at(es, key);
                    assert(after[j] == es[j]);
                    lemma_key_at_unique(after, key, j);
                } else {
                    if has_key(after, key) {
                        let j = key_at(after, key);
                        if j < es.len() {
                            assert(after[j] == es[j]);
                        }
                    }
                }
            },
            None => {},
        }
    }
}

/// Setting a header never grows the map by more than one entry, and only when
/// no header of that name (in any casing) was present; removing one shrinks it
/// by one exactly when it was present.
pub proof fn law_apply_size(es: Seq<Entry>, name: Seq<char>, value: Option<Seq<char>>)
    requires
        well_keyed(es),
    ensures
        applied(es, name, value).len() == match value {
            Some(_) => if lookup(es, lowercase(name)) is Some { es.len() } else { es.len() + 1 },
            None => if lookup(es, lowercase(name)) is Some { (es.len() - 1) as nat } else { es.len() },
        },
{
}

/// Insertion order is kept: setting a header that is already present leaves
/// it where it was, a new one goes last, and a removal keeps the others in
/// their order.
pub proof fn law_apply_order(es: Seq<Entry>, name: Seq<char>, v: Seq<char>)
    requires
        well_keyed(es),
    ensures
        lookup(es, lowercase(name)) is None ==> applied(es, name, Some(v)) == es.push((lowercase(name), name, v)),
        lookup(es, lowercase(name)) is Some ==> applied(es, name, Some(v)).len() == es.len()
            && forall|i: int| 0 <= i < es.len() && es[i].0 != lowercase(name)
                ==> #[trigger] applied(es, name, Some(v))[i] == es[i],
{
}

} // verus!
