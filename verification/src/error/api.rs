//! A non-2xx response, classified.

use vstd::prelude::*;

use super::body::Body;
use super::describe::{describe, described};
use crate::headers::{lookup, Entry, Headers};
use crate::text::{lowercase, owned};

verus! {

/// The header the API answers request identifiers in.
pub const REQUEST_ID: &'static str = "x-typesafe-request-id";

/// Which kind of failure a status code represents.
///
/// These are the cases callers branch on. Anything unrecognised stays
/// [`ApiErrorKind::Other`] rather than being forced into a neighbour, so a new
/// status the API starts returning is visible instead of silently mislabelled.
#[derive(Debug, Clone, Copy, PartialEq, Eq, Structural)]
pub enum ApiErrorKind {
    /// 400: the request is invalid.
    BadRequest,
    /// 401: authentication failed.
    Authentication,
    /// 403: access is denied.
    PermissionDenied,
    /// 404: the resource was not found.
    NotFound,
    /// 422: request validation failed.
    UnprocessableEntity,
    /// 429: the rate limit was exceeded.
    RateLimit,
    /// 5xx: the server failed to handle the request.
    InternalServer,
    /// Any other status.
    Other,
}

/// The kind each status is classified as.
pub open spec fn kind_of(status: u16) -> ApiErrorKind {
    if status == 400 {
        ApiErrorKind::BadRequest
    } else if status == 401 {
        ApiErrorKind::Authentication
    } else if status == 403 {
        ApiErrorKind::PermissionDenied
    } else if status == 404 {
        ApiErrorKind::NotFound
    } else if status == 422 {
        ApiErrorKind::UnprocessableEntity
    } else if status == 429 {
        ApiErrorKind::RateLimit
    } else if status >= 500 {
        ApiErrorKind::InternalServer
    } else {
        ApiErrorKind::Other
    }
}

impl ApiErrorKind {
    /// Classifies an HTTP status.
    pub fn of(status: u16) -> (r: ApiErrorKind)
        ensures
            r == kind_of(status),
    {
        match status {
            400 => ApiErrorKind::BadRequest,
            401 => ApiErrorKind::Authentication,
            403 => ApiErrorKind::PermissionDenied,
            404 => ApiErrorKind::NotFound,
            422 => ApiErrorKind::UnprocessableEntity,
            429 => ApiErrorKind::RateLimit,
            _ => if status >= 500 {
                ApiErrorKind::InternalServer
            } else {
                ApiErrorKind::Other
            },
        }
    }
}

/// An unsuccessful HTTP response from the API.
#[derive(Debug)]
pub struct ApiError {
    /// HTTP status code.
    pub status: u16,
    /// Which failure this status represents.
    pub kind: ApiErrorKind,
    /// The rendered message.
    pub message: String,
    /// The response body, parsed where possible.
    pub body: Body,
    /// Response headers.
    pub headers: Headers,
    /// Value of `x-typesafe-request-id`, when the API supplied one.
    pub request_id: Option<String>,
    /// For a rate limit, the delay the server asked for.
    ///
    /// Uncapped, unlike the retry policy's own reading of the same header: this
    /// reports what the server said, not what the client intends to do.
    pub retry_after_ms: Option<u64>,
}

/// The view of an optional string.
pub open spec fn opt_chars(o: Option<String>) -> Option<Seq<char>> {
    match o {
        Some(s) => Some(s@),
        None => None,
    }
}

/// `a` is the error for a response with this status, body and headers, given
/// the delay its headers asked for.
pub open spec fn answers_response(a: ApiError, status: u16, body: Body, headers: Seq<Entry>, retry_after_ms: Option<u64>) -> bool {
    &&& a.status == status
    &&& a.kind == kind_of(status)
    &&& a.message@ == described(status, body)
    &&& a.body == body
    &&& a.headers@ == headers
    &&& opt_chars(a.request_id) == lookup(headers, lowercase(REQUEST_ID@))
    &&& a.retry_after_ms == (if kind_of(status) == ApiErrorKind::RateLimit { retry_after_ms } else { None })
}

impl ApiError {
    /// Builds the error for a response.
    ///
    /// `retry_after_ms` is what the response's headers ask for, read at the
    /// moment the response arrived (see `parse_retry_after`); it is kept only
    /// for a rate limit.
    pub fn from_response(status: u16, body: Body, headers: &Headers, retry_after_ms: Option<u64>) -> (r: ApiError)
        ensures
            answers_response(r, status, body, headers@, retry_after_ms),
    {
        let kind = ApiErrorKind::of(status);
        let message = describe(status, &body);
        let request_id = match headers.get(REQUEST_ID) {
            Some(v) => Some(owned(v)),
            None => None,
        };
        let retry_after_ms = match kind {
            ApiErrorKind::RateLimit => retry_after_ms,
            _ => None,
        };
        ApiError {
            status,
            kind,
            message,
            body,
            headers: headers.duplicate(),
            request_id,
            retry_after_ms,
        }
    }
}

} // verus!
