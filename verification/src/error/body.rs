//! What came back in a response body.
//!
//! The content type is deliberately ignored. Services mislabel error pages, and
//! a body that parses as JSON is more useful parsed whatever it claims to be,
//! so the only distinction kept is between absent, parsed, and quoted verbatim.

use vstd::prelude::*;

use crate::json::{json_parse, parse_json, Json};
use crate::text::owned;

verus! {

/// A response body as the client managed to read it.
///
/// The distinction matters for messages: an absent body reads as "no body",
/// while an unparseable one is quoted back so the reader can see what arrived.
#[derive(Debug, PartialEq, Eq)]
pub enum Body {
    /// No body at all, or an empty one.
    Empty,
    /// A body that parsed as JSON.
    Json(Json),
    /// A body that did not parse as JSON, kept verbatim.
    Text(String),
}

/// `b` is what `raw` reads as: empty when it is, JSON when it parses, the
/// text itself otherwise.
pub open spec fn parsed_from(raw: Seq<char>, b: Body) -> bool {
    if raw.len() == 0 {
        b is Empty
    } else {
        match json_parse(raw) {
            Some(v) => b == Body::Json(v),
            None => b matches Body::Text(t) && t@ == raw,
        }
    }
}

impl Body {
    /// Parses `raw`, falling back to text.
    pub fn parse(raw: &str) -> (r: Body)
        ensures
            parsed_from(raw@, r),
    {
        if raw.is_empty() {
            return Body::Empty;
        }
        match parse_json(raw) {
            Some(v) => Body::Json(v),
            None => Body::Text(owned(raw)),
        }
    }

    /// The JSON value, when the body parsed as JSON.
    pub fn json(&self) -> (r: Option<&Json>)
        ensures
            match *self {
                Body::Json(v) => r == Some(&v),
                _ => r is None,
            },
    {
        match self {
            Body::Json(v) => Some(v),
            _ => None,
        }
    }
}

impl Default for Body {
    fn default() -> (r: Body)
        ensures
            r is Empty,
    {
        Body::Empty
    }
}

} // verus!
