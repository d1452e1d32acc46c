//! The date form of `Retry-After`.
//!
//! A server's requested delay is either a number of seconds (read by the
//! application, which parses numbers the way the service writes them) or an
//! HTTP date, which becomes the time remaining until that date.

use std::time::UNIX_EPOCH;
use vstd::prelude::*;

verus! {

/// Milliseconds since the Unix epoch of the HTTP date `raw`, as
/// `httpdate::parse_http_date` reads it; `None` when it is not one.
pub uninterp spec fn http_date_millis(raw: Seq<char>) -> Option<int>;

/// Reads an HTTP date (IMF-fixdate, RFC 850 or asctime) with `httpdate`, as
/// milliseconds since the Unix epoch. `httpdate` accepts only years from
/// 1970, so a date it reads is never before the epoch.
#[verifier::external_body]
pub(crate) fn http_date_ms(raw: &str) -> (r: Option<i64>)
    ensures
        r matches Some(ms) ==> ms >= 0,
        match r {
            Some(ms) => http_date_millis(raw@) == Some(ms as int),
            None => http_date_millis(raw@) is None,
        },
{
    let at = httpdate::parse_http_date(raw).ok()?;
    let since = at.duration_since(UNIX_EPOCH).ok()?;
    i64::try_from(since.as_millis()).ok()
}

/// The wait until `at_ms`, seen from `now_ms`: zero for a moment already past.
pub open spec fn remaining(at_ms: int, now_ms: int) -> nat {
    if at_ms > now_ms { (at_ms - now_ms) as nat } else { 0 }
}

/// The wait until `at_ms`, seen from `now_ms`; a past date is zero rather
/// than negative.
pub fn wait_until(at_ms: i64, now_ms: i64) -> (r: u64)
    requires
        at_ms >= 0,
    ensures
        r == remaining(at_ms as int, now_ms as int),
{
    if at_ms <= now_ms {
        0
    } else if now_ms >= 0 {
        (at_ms - now_ms) as u64
    } else {
        (at_ms as u64) + ((-(now_ms + 1)) as u64) + 1
    }
}

/// The delay a `Retry-After` HTTP date asks for, seen from `now_ms` (Unix
/// epoch milliseconds); `None` when `raw` is not an HTTP date.
pub fn retry_after_date(raw: &str, now_ms: i64) -> (r: Option<u64>)
    ensures
        match http_date_millis(raw@) {
            Some(at) => r == Some(remaining(at, now_ms as int) as u64),
            None => r is None,
        },
{
    match http_date_ms(raw) {
        Some(at) => Some(wait_until(at, now_ms)),
        None => None,
    }
}

} // verus!
