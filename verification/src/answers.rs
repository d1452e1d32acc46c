//! Token usage, and what a response that lacks an answer is refused with.
//!
//! The answers themselves carry probabilities, which are floating point and
//! stay with the application.

use vstd::prelude::*;

use crate::error::Error;
use crate::text::{append_str, chars_of, join, join_chars, lit, string_of};

verus! {

/// Tokens consumed by one request.
#[derive(Debug, Clone, Copy, PartialEq, Eq, Structural)]
pub struct Usage {
    /// Input tokens used.
    pub input_tokens: u64,
    /// Output tokens used.
    pub output_tokens: u64,
}

/// The message a response without the answer `name` is refused with, naming
/// the answers that did come back.
pub open spec fn missing_answer_message(name: Seq<char>, asked: Seq<Seq<char>>) -> Seq<char> {
    "No answer named \""@ + name + "\" in the response; got: "@ + join(asked, ", "@) + "."@
}

/// The error for a response that has no answer named `name`; `asked` are the
/// names it does answer, in order.
pub fn missing_answer(name: &str, asked: &Vec<String>) -> (r: Error)
    ensures
        r matches Error::Invalid(m) && m@ == missing_answer_message(
            name@,
            asked@.map_values(|s: String| s@),
        ),
{
    let mut names: Vec<Vec<char>> = Vec::new();
    let mut i: usize = 0;
    while i < asked.len()
        invariant
            i <= asked.len(),
            names.len() == i,
            forall|j: int| 0 <= j < i ==> (#[trigger] names@[j])@ == asked@[j]@,
        decreases asked.len() - i,
    {
        names.push(chars_of(asked[i].as_str()));
        i = i + 1;
    }
    assert(names@.map_values(|p: Vec<char>| p@) =~= asked@.map_values(|s: String| s@));
    let mut m = lit("No answer named \"");
    append_str(&mut m, name);
    append_str(&mut m, "\" in the response; got: ");
    let sep = lit(", ");
    let joined = join_chars(&names, &sep);
    crate::text::append(&mut m, &joined);
    append_str(&mut m, ".");
    Error::Invalid(string_of(&m))
}

} // verus!
