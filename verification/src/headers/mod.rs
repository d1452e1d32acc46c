//! Case-insensitive header merging and secret redaction.
//!
//! Two behaviours the SDK depends on and a plain map does not give: names
//! compare case-insensitively while the last writer's spelling is what goes on
//! the wire, and an explicit "no value" removes a header rather than setting it
//! to empty. That second rule is how the client guarantees a caller cannot
//! clobber `Authorization` or attach a `Content-Type` to a request with no body.

pub mod laws;
pub mod map;
pub mod redact;
pub mod retry_after;

use indexmap::IndexMap;
use vstd::prelude::*;

use crate::text::{ascii_lower, is_ascii_seq, lowercase, owned, to_lowercase};
use self::map::{
    distinct_keys, entries, has_key, key_at, map_clone, map_contains, map_get, map_insert,
    map_len, map_new, map_shift_remove, map_values,
};

verus! {

/// What a source says about one header: a value, or its removal.
///
/// `Value::Remove` exists because "unset this" and "set this to empty" are
/// different instructions, and the SDK relies on the difference.
#[derive(Debug, Clone, PartialEq, Eq)]
pub enum Value {
    /// Set the header to this value.
    SetTo(String),
    /// Remove the header if an earlier source set it.
    Remove,
}

impl Value {
    /// The value to set, or `None` for a removal.
    pub open spec fn spec_set(self) -> Option<Seq<char>> {
        match self {
            Value::SetTo(v) => Some(v@),
            Value::Remove => None,
        }
    }
}

impl Value {
    /// Sets the header to a copy of `value`.
    pub fn of(value: &str) -> (r: Value)
        ensures
            r.spec_set() == Some(value@),
    {
        Value::SetTo(owned(value))
    }
}

/// One header entry: the key it is found by, its wire name, and its value.
pub type Entry = (Seq<char>, Seq<char>, Seq<char>);

/// The value stored under `key`, if any.
pub open spec fn lookup(es: Seq<Entry>, key: Seq<char>) -> Option<Seq<char>> {
    if has_key(es, key) {
        Some(es[key_at(es, key)].2)
    } else {
        None
    }
}

/// What applying `name` with `value` (`None` removes) makes of `es`.
///
/// A set replaces the value and spelling of an existing key in place, or
/// appends a new entry last; a removal deletes the entry, keeping the order of
/// the rest.
pub open spec fn applied(es: Seq<Entry>, name: Seq<char>, value: Option<Seq<char>>) -> Seq<Entry> {
    let key = lowercase(name);
    match value {
        Some(v) => if has_key(es, key) {
            es.update(key_at(es, key), (key, name, v))
        } else {
            es.push((key, name, v))
        },
        None => if has_key(es, key) {
            es.remove(key_at(es, key))
        } else {
            es
        },
    }
}

/// Every entry is found by the lowercase of its own name, once.
pub open spec fn well_keyed(es: Seq<Entry>) -> bool {
    &&& distinct_keys(es)
    &&& forall|i: int| 0 <= i < es.len() ==> (#[trigger] es[i]).0 == lowercase(es[i].1)
}

/// The headers as they go on the wire: `(name, value)` in order.
pub open spec fn wire(es: Seq<Entry>) -> Seq<(Seq<char>, Seq<char>)> {
    es.map_values(|e: Entry| (e.1, e.2))
}

/// Headers keyed case-insensitively, preserving insertion order and the
/// spelling of whichever source wrote last.
#[derive(Debug)]
pub struct Headers {
    entries: IndexMap<String, (String, String)>,
}

impl View for Headers {
    type V = Seq<Entry>;

    closed spec fn view(&self) -> Seq<Entry> {
        entries(self.entries)
    }
}

impl Headers {
    #[verifier::type_invariant]
    closed spec fn keyed(self) -> bool {
        well_keyed(entries(self.entries))
    }

    /// An empty map.
    pub fn new() -> (r: Headers)
        ensures
            r@ == Seq::<Entry>::empty(),
            well_keyed(r@),
    {
        Headers { entries: map_new() }
    }

    /// Applies one source over this map, last value winning.
    pub fn apply(&mut self, name: &str, value: Value)
        ensures
            final(self)@ == applied(old(self)@, name@, value.spec_set()),
            well_keyed(old(self)@),
            well_keyed(final(self)@),
            is_ascii_seq(name@) ==> lowercase(name@) == name@.map_values(|c: char| ascii_lower(c)),
    {
        proof {
            use_type_invariant(&*self);
        }
        let key = to_lowercase(name);
        let mut m = map_new();
        std::mem::swap(&mut m, &mut self.entries);
        let ghost before = entries(m);
        match value {
            Value::SetTo(v) => {
                map_insert(&mut m, key, (owned(name), v));
                proof {
                    lemma_insert_keyed(before, lowercase(name@), name@, entries(m));
                }
            },
            Value::Remove => {
                map_shift_remove(&mut m, &key);
                proof {
                    lemma_remove_keyed(before, lowercase(name@), entries(m));
                }
            },
        }
        self.entries = m;
        proof {
            use_type_invariant(&*self);
        }
    }

    /// Sets a header, replacing any earlier casing of the same name.
    pub fn with(self, name: &str, value: Value) -> (r: Headers)
        ensures
            r@ == applied(self@, name@, value.spec_set()),
            well_keyed(self@),
            well_keyed(r@),
            is_ascii_seq(name@) ==> lowercase(name@) == name@.map_values(|c: char| ascii_lower(c)),
    {
        let mut h = self;
        h.apply(name, value);
        h
    }

    /// The value stored under `name`, compared case-insensitively.
    pub fn get(&self, name: &str) -> (r: Option<&str>)
        ensures
            r matches Some(v) ==> lookup(self@, lowercase(name@)) == Some(v@),
            r is None ==> lookup(self@, lowercase(name@)) is None,
    {
        proof {
            use_type_invariant(self);
        }
        let key = to_lowercase(name);
        match map_get(&self.entries, &key) {
            Some(pair) => Some(pair.1.as_str()),
            None => None,
        }
    }

    /// Whether `name` is present, compared case-insensitively.
    pub fn contains(&self, name: &str) -> (r: bool)
        ensures
            r == (lookup(self@, lowercase(name@)) is Some),
    {
        let key = to_lowercase(name);
        map_contains(&self.entries, &key)
    }

    /// Every header as it should go on the wire, in insertion order.
    pub fn iter(&self) -> (r: Vec<(String, String)>)
        ensures
            r@.map_values(|p: (String, String)| (p.0@, p.1@)) == wire(self@),
            well_keyed(self@),
    {
        proof {
            use_type_invariant(self);
        }
        let r = map_values(&self.entries);
        assert(r@.map_values(|p: (String, String)| (p.0@, p.1@)) =~= wire(self@));
        r
    }

    /// How many headers are set.
    pub fn len(&self) -> (r: usize)
        ensures
            r == self@.len(),
    {
        map_len(&self.entries)
    }

    /// Whether no headers are set.
    pub fn is_empty(&self) -> (r: bool)
        ensures
            r == (self@.len() == 0),
    {
        map_len(&self.entries) == 0
    }

    /// A copy with the same entries in the same order.
    pub fn duplicate(&self) -> (r: Headers)
        ensures
            r@ == self@,
            well_keyed(self@),
            well_keyed(r@),
    {
        proof {
            use_type_invariant(self);
        }
        Headers { entries: map_clone(&self.entries) }
    }
}

impl Clone for Headers {
    fn clone(&self) -> (r: Headers)
        ensures
            r@ == self@,
    {
        self.duplicate()
    }
}

proof fn lemma_insert_keyed(before: Seq<Entry>, key: Seq<char>, name: Seq<char>, after: Seq<Entry>)
    requires
        well_keyed(before),
        key == lowercase(name),
        distinct_keys(after),
        has_key(before, key) ==> exists|v: Seq<char>| after == before.update(key_at(before, key), (key, name, v)),
        !has_key(before, key) ==> exists|v: Seq<char>| after == before.push((key, name, v)),
    ensures
        well_keyed(after),
{
}

proof fn lemma_remove_keyed(before: Seq<Entry>, key: Seq<char>, after: Seq<Entry>)
    requires
        well_keyed(before),
        distinct_keys(after),
        has_key(before, key) ==> after == before.remove(key_at(before, key)),
        !has_key(before, key) ==> after == before,
    ensures
        well_keyed(after),
{
    if has_key(before, key) {
        let k = key_at(before, key);
        assert forall|i: int| 0 <= i < after.len() implies (#[trigger] after[i]).0 == lowercase(after[i].1) by {
            if i < k {
                assert(after[i] == before[i]);
            } else {
                assert(after[i] == before[i + 1]);
            }
        }
    }
}

} // verus!
