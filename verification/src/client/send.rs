//! Turning a call into attempts, and what is logged about them.

use vstd::prelude::*;

use super::headers::{assemble, sdk_applied, merged};
use super::options::RequestOptions;
use crate::config::Config;
use crate::headers::wire;
use crate::http::{method_name, Method, Request};
use crate::log::Logger;
use crate::retry::RetryPolicy;
use crate::text::{append, append_str, chars_of, decimal, decimal_chars, lit, string_of};

verus! {

/// One call, before it becomes attempts.
pub struct Plan {
    /// The method.
    pub method: Method,
    /// The absolute URL: the base URL followed by the path.
    pub url: String,
    /// How the call is named in log lines: the method and the path.
    pub tag: String,
    /// The policy this call retries under.
    pub policy: RetryPolicy,
    /// The timeout of each attempt.
    pub timeout_ms: u64,
    /// The serialised body, when there is one.
    pub body: Option<String>,
}

/// The policy for a call: the per-call one when given, the client's otherwise.
pub fn effective_policy<L: Logger + ?Sized>(config: &Config<L>, options: &RequestOptions) -> (r: RetryPolicy)
    ensures
        r == match options.retry {
            Some(p) => p,
            None => config.retry,
        },
{
    match options.retry {
        Some(p) => p,
        None => config.retry,
    }
}

impl Plan {
    /// Plans a call of `method` on `path` beneath the configured base URL.
    pub fn of<L: Logger + ?Sized>(
        config: &Config<L>,
        method: Method,
        path: &str,
        body: Option<String>,
        options: &RequestOptions,
    ) -> (r: Plan)
        ensures
            r.method == method,
            r.url@ == config.base_url@ + path@,
            r.tag@ == method_name(method) + " "@ + path@,
            r.policy == match options.retry {
                Some(p) => p,
                None => config.retry,
            },
            r.timeout_ms == match options.timeout_ms {
                Some(ms) => ms,
                None => config.timeout_ms,
            },
            r.body == body,
    {
        let mut url = chars_of(config.base_url.as_str());
        append_str(&mut url, path);
        let mut tag = lit(method.name());
        append_str(&mut tag, " ");
        append_str(&mut tag, path);
        let timeout_ms: u64 = match options.timeout_ms {
            Some(ms) => ms,
            None => config.timeout_ms,
        };
        Plan {
            method,
            url: string_of(&url),
            tag: string_of(&tag),
            policy: effective_policy(config, options),
            timeout_ms,
            body,
        }
    }

    /// The request for attempt `attempt` (counting from zero).
    pub fn request<L: Logger + ?Sized>(
        &self,
        config: &Config<L>,
        options: &RequestOptions,
        attempt: u32,
        runtime: &str,
    ) -> (r: Request)
        ensures
            r.method == self.method,
            r.url@ == self.url@,
            r.headers@ == sdk_applied(
                merged(config.default_headers@, wire(options.headers@)),
                "Bearer "@ + config.key(),
                runtime@,
                self.body is Some,
                attempt,
            ),
            r.body == self.body,
            r.timeout_ms == self.timeout_ms,
    {
        Request {
            method: self.method,
            url: self.url.clone(),
            headers: assemble(config, &options.headers, self.body.is_some(), attempt, runtime),
            body: match &self.body {
                Some(b) => Some(b.clone()),
                None => None,
            },
            timeout_ms: self.timeout_ms,
        }
    }

    /// The debug line announcing the call: `GET /v1/models -> https://…`.
    pub fn request_line(&self) -> (r: String)
        ensures
            r@ == self.tag@ + " -> "@ + self.url@,
    {
        let mut v = chars_of(self.tag.as_str());
        append_str(&mut v, " -> ");
        append_str(&mut v, self.url.as_str());
        string_of(&v)
    }

    /// The info line reporting how the call ended: `GET /v1/models <- 200`.
    pub fn response_line(&self, status: u16) -> (r: String)
        ensures
            r@ == self.tag@ + " <- "@ + decimal(status as nat),
    {
        let mut v = chars_of(self.tag.as_str());
        append_str(&mut v, " <- ");
        append(&mut v, &decimal_chars(status as u64));
        string_of(&v)
    }

    /// The info line announcing that attempt `attempt` will be tried again
    /// after `delay` milliseconds, because of `reason`.
    pub fn retry_line(&self, attempt: u32, delay: u64, reason: &str) -> (r: String)
        ensures
            r@ == self.tag@ + " retrying in "@ + decimal(delay as nat) + "ms (retry "@
                + decimal(attempt as nat + 1) + "/"@ + decimal(self.policy.max_retries as nat)
                + ") after "@ + reason@,
    {
        let mut v = chars_of(self.tag.as_str());
        append_str(&mut v, " retrying in ");
        append(&mut v, &decimal_chars(delay));
        append_str(&mut v, "ms (retry ");
        append(&mut v, &decimal_chars(attempt as u64 + 1));
        append_str(&mut v, "/");
        append(&mut v, &decimal_chars(self.policy.max_retries as u64));
        append_str(&mut v, ") after ");
        append_str(&mut v, reason);
        string_of(&v)
    }
}

} // verus!
