//! Per-call overrides, and what a response carried besides its body.

use vstd::prelude::*;

use crate::error::api::{opt_chars, REQUEST_ID};
use crate::headers::{applied, lookup, Headers, Value};
use crate::http::RawResponse;
use crate::retry::RetryPolicy;
use crate::text::{lowercase, owned};

verus! {

/// Settings that apply to one call only.
///
/// Omitted fields inherit the client's. There is no per-call base URL or API
/// key: those identify which service and whose account, and varying them per
/// request is a sign that two clients are wanted rather than one.
#[derive(Debug)]
pub struct RequestOptions {
    /// Timeout for each attempt. There is no total budget across retries.
    pub timeout_ms: Option<u64>,
    /// Retry policy for this call.
    pub retry: Option<RetryPolicy>,
    /// Headers merged over the client's defaults, beneath the SDK's own.
    pub headers: Headers,
}

impl RequestOptions {
    /// Options that change nothing.
    pub fn new() -> (r: RequestOptions)
        ensures
            r.timeout_ms is None,
            r.retry is None,
            r.headers@.len() == 0,
    {
        RequestOptions { timeout_ms: None, retry: None, headers: Headers::new() }
    }

    /// Overrides the per-attempt timeout for this call.
    pub fn timeout_ms(self, ms: u64) -> (r: RequestOptions)
        ensures
            r.timeout_ms == Some(ms),
            r.retry == self.retry,
            r.headers == self.headers,
    {
        RequestOptions { timeout_ms: Some(ms), ..self }
    }

    /// Overrides the retry policy for this call.
    pub fn retry(self, policy: RetryPolicy) -> (r: RequestOptions)
        ensures
            r.timeout_ms == self.timeout_ms,
            r.retry == Some(policy),
            r.headers == self.headers,
    {
        RequestOptions { retry: Some(policy), ..self }
    }

    /// Adds a header to this call only.
    pub fn header(self, name: &str, value: &str) -> (r: RequestOptions)
        ensures
            r.timeout_ms == self.timeout_ms,
            r.retry == self.retry,
            r.headers@ == applied(self.headers@, name@, Some(value@)),
    {
        let mut o = self;
        o.headers.apply(name, Value::of(value));
        o
    }
}

impl Default for RequestOptions {
    fn default() -> (r: RequestOptions)
        ensures
            r.timeout_ms is None,
            r.retry is None,
            r.headers@.len() == 0,
    {
        RequestOptions::new()
    }
}

/// A result together with what the response carried alongside it.
///
/// The request id is what support needs to find one call in the service's
/// logs, so it must be reachable on success and not only on failure.
#[derive(Debug)]
pub struct Responded<T> {
    /// The parsed result.
    pub data: T,
    /// The HTTP status.
    pub status: u16,
    /// Value of `x-typesafe-request-id`, when the service supplied one.
    pub request_id: Option<String>,
}

impl<T> Responded<T> {
    /// Discards the metadata, keeping the result.
    pub fn into_data(self) -> (r: T)
        ensures
            r == self.data,
    {
        self.data
    }
}

/// Attaches the response metadata a caller may need for support.
pub fn responded<T>(response: &RawResponse, data: T) -> (r: Responded<T>)
    ensures
        r.data == data,
        r.status == response.status,
        opt_chars(r.request_id) == lookup(response.headers@, lowercase(REQUEST_ID@)),
{
    let request_id = match response.headers.get(REQUEST_ID) {
        Some(v) => Some(owned(v)),
        None => None,
    };
    Responded { data, status: response.status, request_id }
}

} // verus!
