//! Masking credentials before they reach a log.
//!
//! The rule is deliberately conservative: keep the scheme so a reader can tell
//! `Bearer` from `Basic`, and keep the last four characters only when the
//! secret is long enough that four characters cannot narrow it usefully.

use vstd::prelude::*;

use crate::text::{
    append, append_str, char_is_space, chars_of, is_space, lit, lowercase, slice_chars,
    str_eq, string_of, tail, to_lowercase, trim_start, trim_start_chars,
};

verus! {

/// Below this length, no tail is revealed at all.
pub const MIN_SECRET_FOR_TAIL: usize = 8;

/// Characters of the secret kept as a recognisable tail.
pub const TAIL: usize = 4;

/// Whether a lowercased name is a header whose value is a credential with an
/// optional scheme prefix.
pub open spec fn is_key_header(lower: Seq<char>) -> bool {
    lower == "authorization"@ || lower == "proxy-authorization"@ || lower == "x-api-key"@
}

/// Whether a lowercased name is a header whose value is replaced in full.
pub open spec fn is_opaque_header(lower: Seq<char>) -> bool {
    lower == "cookie"@ || lower == "set-cookie"@
}

/// Whether `s` holds any whitespace.
pub open spec fn has_space(s: Seq<char>) -> bool {
    exists|i: int| 0 <= i < s.len() && is_space(#[trigger] s[i])
}

/// `i` is the position of the first whitespace character of `s`.
pub open spec fn is_first_space(s: Seq<char>, i: int) -> bool {
    &&& 0 <= i < s.len()
    &&& is_space(s[i])
    &&& forall|j: int| 0 <= j < i ==> !is_space(#[trigger] s[j])
}

/// The position of the first whitespace character of `s`.
pub open spec fn first_space(s: Seq<char>) -> int {
    choose|i: int| is_first_space(s, i)
}

/// `Bearer sk_live_…` split into its scheme and its secret (leading
/// whitespace dropped); a value with no whitespace is a bare secret.
pub open spec fn split_scheme(s: Seq<char>) -> (Option<Seq<char>>, Seq<char>) {
    if has_space(s) {
        let i = first_space(s);
        (Some(s.subrange(0, i)), trim_start(s.subrange(i + 1, s.len() as int)))
    } else {
        (None, s)
    }
}

/// A credential masked: the scheme kept, and the last four characters of the
/// secret only when it is longer than eight.
pub open spec fn masked_key(value: Seq<char>) -> Seq<char> {
    let (scheme, secret) = split_scheme(value);
    let shown = if secret.len() > MIN_SECRET_FOR_TAIL { tail(secret, TAIL as nat) } else { Seq::empty() };
    match scheme {
        None => "***"@ + shown,
        Some(sc) => sc + " ***"@ + shown,
    }
}

/// What a header's value becomes in a log.
pub open spec fn redacted(name: Seq<char>, value: Seq<char>) -> Seq<char> {
    let lower = lowercase(name);
    if is_key_header(lower) {
        masked_key(value)
    } else if is_opaque_header(lower) {
        "***"@
    } else {
        value
    }
}

/// Masks `value` according to what `name` is known to carry.
pub fn redact(name: &str, value: &str) -> (r: String)
    ensures
        r@ == redacted(name@, value@),
{
    let lower = to_lowercase(name);
    let l = lower.as_str();
    if str_eq(l, "authorization") || str_eq(l, "proxy-authorization") || str_eq(l, "x-api-key") {
        return redact_key(value);
    }
    if str_eq(l, "cookie") || str_eq(l, "set-cookie") {
        return owned_lit("***");
    }
    owned_lit(value)
}

fn owned_lit(s: &str) -> (r: String)
    ensures
        r@ == s@,
{
    crate::text::owned(s)
}

/// Keeps the scheme and, for long secrets only, the last four characters.
pub fn redact_key(value: &str) -> (r: String)
    ensures
        r@ == masked_key(value@),
{
    let v = chars_of(value);
    let (scheme, secret) = split_scheme_chars(&v);
    let shown: Vec<char> = if secret.len() > MIN_SECRET_FOR_TAIL {
        slice_chars(&secret, secret.len() - TAIL, secret.len())
    } else {
        Vec::new()
    };
    let mut out: Vec<char> = Vec::new();
    match scheme {
        None => {
            append_str(&mut out, "***");
        },
        Some(sc) => {
            append(&mut out, &sc);
            append_str(&mut out, " ***");
        },
    }
    append(&mut out, &shown);
    proof {
        if secret@.len() > MIN_SECRET_FOR_TAIL {
            assert(shown@ == tail(secret@, TAIL as nat));
        } else {
            assert(shown@ =~= Seq::<char>::empty());
        }
    }
    string_of(&out)
}

/// Splits a value into its scheme and secret, at the first whitespace.
pub fn split_scheme_chars(v: &Vec<char>) -> (r: (Option<Vec<char>>, Vec<char>))
    ensures
        r.0 matches Some(s) ==> split_scheme(v@).0 == Some(s@),
        r.0 is None ==> split_scheme(v@).0 is None,
        r.1@ == split_scheme(v@).1,
{
    let mut i: usize = 0;
    while i < v.len()
        invariant
            i <= v.len(),
            forall|j: int| 0 <= j < i ==> !is_space(#[trigger] v@[j]),
        decreases v.len() - i,
    {
        if char_is_space(v[i]) {
            assert(is_first_space(v@, i as int));
            assert(has_space(v@));
            let ghost k = first_space(v@);
            assert(is_first_space(v@, k));
            assert(k == i) by {
                if k < i {
                    assert(!is_space(v@[k]));
                } else if k > i {
                    assert(!is_space(v@[i as int]));
                }
            }
            let scheme = slice_chars(v, 0, i);
            let rest = slice_chars(v, i + 1, v.len());
            let secret = trim_start_chars(&rest);
            return (Some(scheme), secret);
        }
        i = i + 1;
    }
    assert(!has_space(v@));
    let mut copy: Vec<char> = Vec::new();
    append(&mut copy, v);
    assert(copy@ =~= v@);
    (None, copy)
}

} // verus!
