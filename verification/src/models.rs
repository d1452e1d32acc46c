//! Model cards: what `GET /v1/models` lists.

use vstd::prelude::*;

verus! {

/// One model available to the account.
#[derive(Debug, Clone, PartialEq, Eq)]
pub struct ModelCard {
    /// The name to pass as `model`, such as `jev-latest`.
    pub name: String,
    /// What the model is, in prose.
    pub description: String,
    /// When it was released, as an ISO 8601 timestamp.
    pub release_date: String,
}

/// The message a listing that is not the documented envelope is refused with.
pub open spec fn wrong_shape_message() -> Seq<char> {
    "Unexpected response shape from GET /v1/models; expected { models: [...] }."@
}

/// The error for a listing that is not the documented envelope, rather than
/// an empty list: an empty account and a malformed response should not look
/// the same to a caller.
pub fn wrong_shape() -> (r: crate::error::Error)
    ensures
        r matches crate::error::Error::Invalid(m) && m@ == wrong_shape_message(),
{
    crate::error::Error::invalid("Unexpected response shape from GET /v1/models; expected { models: [...] }.")
}

} // verus!
