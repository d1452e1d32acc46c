//! The shapes the `ask` command reports.

use vstd::prelude::*;

verus! {

/// What to ask about.
#[derive(Debug, Clone, PartialEq, Eq)]
pub struct Args {
    /// The text to ask about.
    pub state: String,
}

/// Tokens consumed by the request.
#[derive(Debug, Clone, Copy, PartialEq, Eq, Structural)]
pub struct Usage {
    /// Input tokens used.
    pub input_tokens: u64,
    /// Output tokens used.
    pub output_tokens: u64,
}

} // verus!
