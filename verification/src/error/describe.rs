//! Turning a response body into one readable sentence.
//!
//! The API answers with several shapes depending on which layer rejected the
//! request: a framework validation list, a domain error object, or an
//! unstructured page from a proxy. Each is tried in a fixed order, so the same
//! request always produces the same message.

use vstd::prelude::*;

use super::body::Body;
use crate::json::{field, json_render, render_json, Json};
use crate::text::{
    append, append_str, chars_of, chars_eq, decimal, decimal_chars, join, join_chars, lit,
    slice_chars, string_of,
};

verus! {

/// Raw bodies longer than this are cut, so a stack trace stays readable.
pub const MAX_RAW_BODY: usize = 200;

/// A member that is itself a string.
pub open spec fn text_of(o: Option<Json>) -> Option<Seq<char>> {
    match o {
        Some(Json::Str(s)) => Some(s@),
        _ => None,
    }
}

/// A member that is an object carrying a string `message`.
pub open spec fn nested_message(o: Option<Json>) -> Option<Seq<char>> {
    match o {
        Some(j) => text_of(field(j, "message"@)),
        None => None,
    }
}

/// One part of a validation location: `body` is dropped, a string is kept
/// as it is, anything else is rendered as JSON.
pub open spec fn location_part(p: Json) -> Option<Seq<char>> {
    match p {
        Json::Str(t) => if t@ == "body"@ { None } else { Some(t@) },
        _ => Some(json_render(p)),
    }
}

/// The kept parts of a location, in order.
pub open spec fn location_parts(ps: Seq<Json>) -> Seq<Seq<char>>
    decreases ps.len(),
{
    if ps.len() == 0 {
        Seq::empty()
    } else {
        let prev = location_parts(ps.drop_last());
        match location_part(ps.last()) {
            Some(t) => prev.push(t),
            None => prev,
        }
    }
}

/// A location path, joined with dots.
pub open spec fn location(ps: Seq<Json>) -> Seq<char> {
    join(location_parts(ps), "."@)
}

/// One validation entry: its `msg`, prefixed by its location when it has one.
pub open spec fn validation_entry(e: Json) -> Option<Seq<char>> {
    match text_of(field(e, "msg"@)) {
        None => None,
        Some(m) => {
            let loc = match field(e, "loc"@) {
                Some(Json::Array(ps)) => location(ps@),
                _ => Seq::empty(),
            };
            if loc.len() == 0 {
                Some(m)
            } else {
                Some(loc + ": "@ + m)
            }
        },
    }
}

/// The messages of the entries that have one, in order.
pub open spec fn validation_messages(items: Seq<Json>) -> Seq<Seq<char>>
    decreases items.len(),
{
    if items.len() == 0 {
        Seq::empty()
    } else {
        let prev = validation_messages(items.drop_last());
        match validation_entry(items.last()) {
            Some(m) => prev.push(m),
            None => prev,
        }
    }
}

/// A framework validation list, its messages joined with `; `.
pub open spec fn validation_errors(o: Option<Json>) -> Option<Seq<char>> {
    match o {
        Some(Json::Array(items)) => {
            let ms = validation_messages(items@);
            if ms.len() > 0 { Some(join(ms, "; "@)) } else { None }
        },
        _ => None,
    }
}

/// `a` when present, otherwise `b`.
pub open spec fn or_else(a: Option<Seq<char>>, b: Option<Seq<char>>) -> Option<Seq<char>> {
    if a is Some { a } else { b }
}

/// The message a JSON body carries, trying the known shapes in order:
/// `error` as a string, `error.message`, `message`, `detail` as a string,
/// `detail.message`, then `detail` as a validation list.
pub open spec fn message_in(v: Json) -> Option<Seq<char>> {
    match v {
        Json::Object(_) => {
            let error = field(v, "error"@);
            let detail = field(v, "detail"@);
            or_else(text_of(error), or_else(nested_message(error), or_else(
                text_of(field(v, "message"@)),
                or_else(text_of(detail), or_else(nested_message(detail), validation_errors(detail))),
            )))
        },
        _ => None,
    }
}

/// The most specific message a body offers, if any.
pub open spec fn extracted(b: Body) -> Option<Seq<char>> {
    match b {
        Body::Text(raw) => if raw@.len() > 0 { Some(raw@) } else { None },
        Body::Json(v) => message_in(v),
        Body::Empty => None,
    }
}

/// `s` cut at two hundred characters, with an ellipsis marking the cut.
pub open spec fn truncated(s: Seq<char>) -> Seq<char> {
    if s.len() <= MAX_RAW_BODY { s } else { s.take(MAX_RAW_BODY as int).push('\u{2026}') }
}

/// The full error message for a status and body.
pub open spec fn described(status: u16, b: Body) -> Seq<char> {
    let head = decimal(status as nat) + " "@;
    match extracted(b) {
        Some(d) => head + d,
        None => match b {
            Body::Empty => decimal(status as nat) + " status code (no body)"@,
            Body::Text(raw) => head + truncated(raw@),
            Body::Json(v) => head + truncated(json_render(v)),
        },
    }
}

/// The full error message for a status and body.
pub fn describe(status: u16, body: &Body) -> (r: String)
    ensures
        r@ == described(status, *body),
{
    let mut out = decimal_chars(status as u64);
    match extract_message(body) {
        Some(detail) => {
            append_str(&mut out, " ");
            append(&mut out, &detail);
        },
        None => match body {
            Body::Empty => {
                append_str(&mut out, " status code (no body)");
            },
            Body::Text(raw) => {
                append_str(&mut out, " ");
                let cut = truncate(&chars_of(raw.as_str()));
                append(&mut out, &cut);
            },
            Body::Json(value) => {
                append_str(&mut out, " ");
                let rendered = render_json(value);
                let cut = truncate(&chars_of(rendered.as_str()));
                append(&mut out, &cut);
            },
        },
    }
    string_of(&out)
}

/// Cuts at two hundred characters, marking that it was cut.
pub fn truncate(raw: &Vec<char>) -> (r: Vec<char>)
    ensures
        r@ == truncated(raw@),
{
    if raw.len() <= MAX_RAW_BODY {
        return slice_chars(raw, 0, raw.len());
    }
    let mut kept = slice_chars(raw, 0, MAX_RAW_BODY);
    kept.push('\u{2026}');
    kept
}

/// The most specific message the body offers, if any.
pub fn extract_message(body: &Body) -> (r: Option<Vec<char>>)
    ensures
        match r {
            Some(m) => extracted(*body) == Some(m@),
            None => extracted(*body) is None,
        },
{
    match body {
        Body::Text(raw) => {
            let cs = chars_of(raw.as_str());
            if cs.len() > 0 {
                Some(cs)
            } else {
                None
            }
        },
        Body::Json(value) => from_json(value),
        Body::Empty => None,
    }
}

/// A member that is itself a string.
fn string_of_member(o: Option<&Json>) -> (r: Option<Vec<char>>)
    ensures
        match r {
            Some(m) => text_of(deref_opt(o)) == Some(m@),
            None => text_of(deref_opt(o)) is None,
        },
{
    match o {
        Some(Json::Str(s)) => Some(chars_of(s.as_str())),
        _ => None,
    }
}

/// The view of an optional reference.
pub open spec fn deref_opt(o: Option<&Json>) -> Option<Json> {
    match o {
        Some(j) => Some(*j),
        None => None,
    }
}

/// A member that is an object carrying a string `message`.
fn nested_message_of(o: Option<&Json>) -> (r: Option<Vec<char>>)
    ensures
        match r {
            Some(m) => nested_message(deref_opt(o)) == Some(m@),
            None => nested_message(deref_opt(o)) is None,
        },
{
    match o {
        Some(j) => string_of_member(j.get("message")),
        None => None,
    }
}

/// One location part, as it is written into the path.
fn location_part_of(p: &Json) -> (r: Option<Vec<char>>)
    ensures
        match r {
            Some(t) => location_part(*p) == Some(t@),
            None => location_part(*p) is None,
        },
{
    match p {
        Json::Str(t) => {
            let cs = chars_of(t.as_str());
            let body = lit("body");
            if chars_eq(&cs, &body) {
                None
            } else {
                Some(cs)
            }
        },
        _ => {
            let rendered = render_json(p);
            Some(chars_of(rendered.as_str()))
        },
    }
}

/// Joins a location path, dropping the uninformative leading `body`.
fn join_location(parts: &Vec<Json>) -> (r: Vec<char>)
    ensures
        r@ == location(parts@),
{
    let mut kept: Vec<Vec<char>> = Vec::new();
    let mut i: usize = 0;
    while i < parts.len()
        invariant
            i <= parts.len(),
            kept@.map_values(|p: Vec<char>| p@) == location_parts(parts@.take(i as int)),
        decreases parts.len() - i,
    {
        match location_part_of(&parts[i]) {
            Some(t) => {
                kept.push(t);
            },
            None => {},
        }
        proof {
            assert(parts@.take(i + 1).drop_last() =~= parts@.take(i as int));
            assert(parts@.take(i + 1).last() == parts@[i as int]);
            assert(kept@.map_values(|p: Vec<char>| p@) =~= location_parts(parts@.take(i + 1)));
        }
        i = i + 1;
    }
    assert(parts@.take(parts.len() as int) =~= parts@);
    let dot = lit(".");
    join_chars(&kept, &dot)
}

/// One validation entry, addressed by its location within the request body.
fn validation_entry_of(entry: &Json) -> (r: Option<Vec<char>>)
    ensures
        match r {
            Some(m) => validation_entry(*entry) == Some(m@),
            None => validation_entry(*entry) is None,
        },
{
    let message = match string_of_member(entry.get("msg")) {
        Some(m) => m,
        None => return None,
    };
    let loc = match entry.get("loc") {
        Some(Json::Array(ps)) => join_location(ps),
        _ => Vec::new(),
    };
    if loc.len() == 0 {
        Some(message)
    } else {
        let mut out = loc;
        append_str(&mut out, ": ");
        append(&mut out, &message);
        Some(out)
    }
}

/// A framework validation list, rendered as `path: message` entries.
fn validation_errors_of(o: Option<&Json>) -> (r: Option<Vec<char>>)
    ensures
        match r {
            Some(m) => validation_errors(deref_opt(o)) == Some(m@),
            None => validation_errors(deref_opt(o)) is None,
        },
{
    let items = match o {
        Some(Json::Array(items)) => items,
        _ => return None,
    };
    let mut found: Vec<Vec<char>> = Vec::new();
    let mut i: usize = 0;
    while i < items.len()
        invariant
            i <= items.len(),
            found@.map_values(|p: Vec<char>| p@) == validation_messages(items@.take(i as int)),
        decreases items.len() - i,
    {
        match validation_entry_of(&items[i]) {
            Some(m) => {
                found.push(m);
            },
            None => {},
        }
        proof {
            assert(items@.take(i + 1).drop_last() =~= items@.take(i as int));
            assert(items@.take(i + 1).last() == items@[i as int]);
            assert(found@.map_values(|p: Vec<char>| p@) =~= validation_messages(items@.take(i + 1)));
        }
        i = i + 1;
    }
    assert(items@.take(items.len() as int) =~= items@);
    if found.len() == 0 {
        return None;
    }
    let sep = lit("; ");
    Some(join_chars(&found, &sep))
}

/// Walks the known error shapes in precedence order.
fn from_json(value: &Json) -> (r: Option<Vec<char>>)
    ensures
        match r {
            Some(m) => message_in(*value) == Some(m@),
            None => message_in(*value) is None,
        },
{
    match value {
        Json::Object(_) => {},
        _ => return None,
    }
    let error = value.get("error");
    let detail = value.get("detail");
    if let Some(m) = string_of_member(error) {
        return Some(m);
    }
    if let Some(m) = nested_message_of(error) {
        return Some(m);
    }
    if let Some(m) = string_of_member(value.get("message")) {
        return Some(m);
    }
    if let Some(m) = string_of_member(detail) {
        return Some(m);
    }
    if let Some(m) = nested_message_of(detail) {
        return Some(m);
    }
    validation_errors_of(detail)
}

} // verus!
