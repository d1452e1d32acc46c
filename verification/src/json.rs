//! JSON values, as the library reads them out of response bodies.
//!
//! Parsing and rendering are `serde_json`'s; what the library does with a
//! parsed value (finding the message an error body carries) is its own, and
//! works on this plain type.

use serde_json::Value as JsonValue;
use vstd::prelude::*;

use crate::text::texts;

verus! {

#[verifier::external_type_specification]
#[verifier::external_body]
pub struct ExJsonValue(JsonValue);

/// A JSON value.
///
/// A number keeps the text `serde_json` renders it as; an object keeps its
/// members in the order the parser yielded them.
#[derive(Debug, PartialEq, Eq)]
pub enum Json {
    /// `null`.
    Null,
    /// `true` or `false`.
    Bool(bool),
    /// A number, as its rendered text.
    Number(String),
    /// A string.
    Str(String),
    /// An array.
    Array(Vec<Json>),
    /// An object, member by member.
    Object(Vec<(String, Json)>),
}

/// What `serde_json::from_str::<JsonValue>` makes of `raw`, or
/// `None` when it is not JSON.
pub uninterp spec fn json_parse(raw: Seq<char>) -> Option<Json>;

/// What `JsonValue::to_string` writes for `v`: compact JSON.
pub uninterp spec fn json_render(v: Json) -> Seq<char>;

/// Parses `raw` with `serde_json` into a [`Json`].
#[verifier::external_body]
pub(crate) fn parse_json(raw: &str) -> (r: Option<Json>)
    ensures
        r == json_parse(raw@),
{
    serde_json::from_str::<JsonValue>(raw).ok().map(from_value)
}

/// Renders `v` as `serde_json` renders the value it came from.
#[verifier::external_body]
pub(crate) fn render_json(v: &Json) -> (r: String)
    ensures
        r@ == json_render(*v),
{
    to_value(v).to_string()
}

/// What `serde_json::from_str::<Vec<String>>` makes of `raw`: the strings
/// of a JSON array of strings, or the text of the error it reports.
pub uninterp spec fn json_strings(raw: Seq<char>) -> Result<Seq<Seq<char>>, Seq<char>>;

/// Parses `raw` with `serde_json` as an array of strings, keeping the text
/// of its error when it is not one.
#[verifier::external_body]
pub(crate) fn parse_strings(raw: &str) -> (r: Result<Vec<String>, String>)
    ensures
        match r {
            Ok(v) => json_strings(raw@) == Ok::<Seq<Seq<char>>, Seq<char>>(texts(v@)),
            Err(e) => json_strings(raw@) == Err::<Seq<Seq<char>>, Seq<char>>(e@),
        },
{
    serde_json::from_str::<Vec<String>>(raw).map_err(|error| error.to_string())
}

/// Converts a `serde_json::Value` into a [`Json`], variant for variant.
#[verifier::external_body]
fn from_value(v: JsonValue) -> Json {
    match v {
        JsonValue::Null => Json::Null,
        JsonValue::Bool(b) => Json::Bool(b),
        JsonValue::Number(n) => Json::Number(n.to_string()),
        JsonValue::String(s) => Json::Str(s),
        JsonValue::Array(items) => Json::Array(items.into_iter().map(from_value).collect()),
        JsonValue::Object(members) => {
            Json::Object(members.into_iter().map(|(k, v)| (k, from_value(v))).collect())
        },
    }
}

/// Converts a [`Json`] back into the `serde_json::Value` it stands for.
#[verifier::external_body]
fn to_value(v: &Json) -> JsonValue {
    match v {
        Json::Null => JsonValue::Null,
        Json::Bool(b) => JsonValue::Bool(*b),
        Json::Number(n) => n.parse::<serde_json::Number>().map_or(JsonValue::Null, JsonValue::Number),
        Json::Str(s) => JsonValue::String(s.clone()),
        Json::Array(items) => JsonValue::Array(items.iter().map(to_value).collect()),
        Json::Object(members) => {
            JsonValue::Object(members.iter().map(|(k, v)| (k.clone(), to_value(v))).collect())
        },
    }
}

/// The value of the first member named `name`.
pub open spec fn member(es: Seq<(String, Json)>, name: Seq<char>) -> Option<Json>
    decreases es.len(),
{
    if es.len() == 0 {
        None
    } else if es[0].0@ == name {
        Some(es[0].1)
    } else {
        member(es.drop_first(), name)
    }
}

/// The member `name` of an object; `None` for anything else.
pub open spec fn field(j: Json, name: Seq<char>) -> Option<Json> {
    match j {
        Json::Object(es) => member(es@, name),
        _ => None,
    }
}

impl Json {
    /// The member `name` of an object, as `JsonValue::get` finds it.
    pub fn get(&self, name: &str) -> (r: Option<&Json>)
        ensures
            match r {
                Some(v) => field(*self, name@) == Some(*v),
                None => field(*self, name@) is None,
            },
    {
        match self {
            Json::Object(es) => {
                let mut i: usize = 0;
                assert(es@.subrange(0, es@.len() as int) =~= es@);
                while i < es.len()
                    invariant
                        i <= es.len(),
                        field(*self, name@) == member(es@, name@),
                        member(es@, name@) == member(es@.subrange(i as int, es@.len() as int), name@),
                    decreases es.len() - i,
                {
                    let ghost rest = es@.subrange(i as int, es@.len() as int);
                    assert(rest[0] == es@[i as int]);
                    if crate::text::str_eq(es[i].0.as_str(), name) {
                        assert(member(rest, name@) == Some(es@[i as int].1));
                        assert(field(*self, name@) == Some(es@[i as int].1));
                        let found = &es[i].1;
                        assert(*found == es@[i as int].1);
                        return Some(found);
                    }
                    assert(rest.drop_first() =~= es@.subrange(i + 1, es@.len() as int));
                    i = i + 1;
                }
                None
            },
            _ => None,
        }
    }
}

} // verus!
