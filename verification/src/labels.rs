//! Turning question and label names into type names.
//!
//! A choice question's labels become the variants of an enum, so a `match`
//! over the outcomes is exhaustive; the names are written `PascalCase`.

use vstd::prelude::*;

use crate::text::{append, append_str, chars_of, lowercase, slice_chars, string_of, to_lowercase};

verus! {

/// What `char::to_uppercase` yields for `c` (one or more characters).
pub uninterp spec fn uppercase(c: char) -> Seq<char>;

/// The uppercase mapping of one character, as `char::to_uppercase` gives it.
#[verifier::external_body]
pub(crate) fn to_uppercase(c: char) -> (r: Vec<char>)
    ensures
        r@ == uppercase(c),
{
    c.to_uppercase().collect()
}

/// Whether `c` separates words in a name.
pub open spec fn is_separator(c: char) -> bool {
    c == '_' || c == '-' || c == ' '
}

/// `part` with its first character uppercased and the rest lowercased.
pub open spec fn capitalised(part: Seq<char>) -> Seq<char> {
    if part.len() == 0 { Seq::empty() } else { uppercase(part[0]) + lowercase(part.drop_first()) }
}

/// `s` cut at every separator; empty words kept.
pub open spec fn words(s: Seq<char>) -> Seq<Seq<char>>
    decreases s.len(),
{
    if s.len() == 0 {
        seq![Seq::empty()]
    } else {
        let prev = words(s.drop_last());
        if is_separator(s.last()) {
            prev.push(Seq::empty())
        } else {
            prev.update(prev.len() - 1, prev.last().push(s.last()))
        }
    }
}

/// Every non-empty word capitalised, run together.
pub open spec fn joined_capitals(ws: Seq<Seq<char>>) -> Seq<char>
    decreases ws.len(),
{
    if ws.len() == 0 { Seq::empty() } else { joined_capitals(ws.drop_last()) + capitalised(ws.last()) }
}

/// `snake_case`, `kebab-case` or spaced words, in `PascalCase`.
pub open spec fn pascal_of(s: Seq<char>) -> Seq<char> {
    joined_capitals(words(s))
}

/// Upper-cases the first character and lower-cases the rest.
pub fn capitalise(part: &str) -> (r: String)
    ensures
        r@ == capitalised(part@),
{
    let cs = chars_of(part);
    string_of(&capitalise_chars(&cs))
}

fn capitalise_chars(cs: &Vec<char>) -> (r: Vec<char>)
    ensures
        r@ == capitalised(cs@),
{
    if cs.len() == 0 {
        return Vec::new();
    }
    let mut out = to_uppercase(cs[0]);
    let rest = slice_chars(cs, 1, cs.len());
    assert(rest@ =~= cs@.drop_first());
    let lowered = to_lowercase(string_of(&rest).as_str());
    append(&mut out, &chars_of(lowered.as_str()));
    out
}

proof fn lemma_words_nonempty(s: Seq<char>)
    ensures
        words(s).len() >= 1,
    decreases s.len(),
{
    if s.len() > 0 {
        lemma_words_nonempty(s.drop_last());
    }
}

/// Turns a `snake_case` name into `PascalCase` for an identifier.
pub fn pascal(text: &str) -> (r: String)
    ensures
        r@ == pascal_of(text@),
{
    let cs = chars_of(text);
    let mut out: Vec<char> = Vec::new();
    let mut current: Vec<char> = Vec::new();
    let mut i: usize = 0;
    assert(cs@.take(0) =~= Seq::<char>::empty());
    while i < cs.len()
        invariant
            i <= cs.len(),
            cs@ == text@,
            words(cs@.take(i as int)).len() >= 1,
            current@ == words(cs@.take(i as int)).last(),
            out@ == joined_capitals(words(cs@.take(i as int)).drop_last()),
        decreases cs.len() - i,
    {
        let ghost prefix = cs@.take(i as int);
        let ghost next = cs@.take(i + 1);
        assert(next.drop_last() =~= prefix);
        assert(next.last() == cs@[i as int]);
        proof {
            lemma_words_nonempty(prefix);
            lemma_words_nonempty(next);
        }
        let c = cs[i];
        if c == '_' || c == '-' || c == ' ' {
            let word = capitalise_chars(&current);
            append(&mut out, &word);
            proof {
                let pp = words(prefix);
                assert(words(next) == pp.push(Seq::empty()));
                assert(words(next).drop_last() =~= pp);
                assert(pp.drop_last().push(pp.last()) =~= pp);
            }
            current = Vec::new();
            assert(current@ =~= words(next).last());
        } else {
            current.push(c);
            proof {
                let pp = words(prefix);
                assert(words(next) == pp.update(pp.len() - 1, pp.last().push(c)));
                assert(words(next).drop_last() =~= pp.drop_last());
            }
        }
        i = i + 1;
    }
    let word = capitalise_chars(&current);
    append(&mut out, &word);
    proof {
        assert(cs@.take(cs.len() as int) =~= cs@);
        let pp = words(cs@);
        assert(pp.drop_last().push(pp.last()) =~= pp);
    }
    string_of(&out)
}

/// The enum generated for a choice field: the struct's name followed by the
/// field's name in `PascalCase`, such as `TicketCategory`.
pub fn enum_name(model: &str, field: &str) -> (r: String)
    ensures
        r@ == model@ + pascal_of(field@),
{
    let mut out = chars_of(model);
    let p = pascal(field);
    append_str(&mut out, p.as_str());
    string_of(&out)
}

} // verus!
