//! Deciding, attempt by attempt, whether a request is finished.
//!
//! The application sends each attempt and waits between them; what it does
//! next is decided here, from the attempt number, what came back, and the
//! delay the response's headers asked for.

use vstd::prelude::*;

use crate::error::api::answers_response;
use crate::error::body::parsed_from;
use crate::error::{error_message, Body, Error};
use crate::http::{success, RawResponse};
use crate::retry::{delay, retryable_error, retryable_status, RetryPolicy};
use crate::text::{decimal, decimal_chars, string_of};

verus! {

/// How one attempt ended.
#[derive(Debug)]
pub enum Outcome {
    /// Finished, either with a response to return or an error to raise.
    Done(Result<RawResponse, Error>),
    /// Worth trying again after `delay` milliseconds; `reason` says why.
    Again {
        /// How long to wait first.
        delay: u64,
        /// What went wrong with this attempt.
        reason: String,
    },
}

/// What deciding on attempt `attempt`'s result `sent` must give, under
/// `policy`, when the response's headers asked for `server_wait`.
pub open spec fn decided(
    policy: RetryPolicy,
    attempt: u32,
    sent: Result<RawResponse, Error>,
    server_wait: Option<u64>,
    r: Outcome,
) -> bool {
    let exhausted = attempt >= policy.max_retries;
    match sent {
        Ok(resp) => if success(resp.status) {
            r == Outcome::Done(Ok(resp))
        } else if exhausted || !retryable_status(resp.status) {
            r matches Outcome::Done(Err(Error::Api(a)))
                && parsed_from(resp.body@, a.body)
                && answers_response(a, resp.status, a.body, resp.headers@, server_wait)
        } else {
            r matches Outcome::Again { delay: d, reason }
                && d == delay(policy, attempt as nat, server_wait)
                && reason@ == decimal(resp.status as nat)
        },
        Err(e) => if exhausted || !retryable_error(e) {
            r == Outcome::Done(Err(e))
        } else {
            r matches Outcome::Again { delay: d, reason }
                && d == delay(policy, attempt as nat, None)
                && reason@ == error_message(e)
        },
    }
}

/// Decides whether an attempt's result ends the request or earns another try.
///
/// `server_wait` is what the response's headers asked for (nothing when no
/// response arrived); it sets the delay, and for a rate limit it is reported
/// on the error. Another try is only ever earned while retries remain.
pub fn classify(policy: &RetryPolicy, attempt: u32, sent: Result<RawResponse, Error>, server_wait: Option<u64>) -> (r: Outcome)
    ensures
        decided(*policy, attempt, sent, server_wait, r),
        r is Again ==> attempt < policy.max_retries,
        sent matches Ok(resp) && success(resp.status) ==> r is Done,
        sent matches Err(e) && e is UserAbort ==> r is Done,
{
    let exhausted = attempt >= policy.max_retries;
    match sent {
        Ok(response) => from_response(policy, attempt, exhausted, response, server_wait),
        Err(error) => {
            if exhausted || !policy.retries_error(&error) {
                return Outcome::Done(Err(error));
            }
            let reason = error.message();
            Outcome::Again { delay: policy.delay_ms(attempt, None), reason }
        },
    }
}

/// A response arrived; its status decides.
fn from_response(policy: &RetryPolicy, attempt: u32, exhausted: bool, response: RawResponse, server_wait: Option<u64>) -> (r: Outcome)
    requires
        exhausted == (attempt >= policy.max_retries),
    ensures
        decided(*policy, attempt, Ok(response), server_wait, r),
{
    if response.is_success() {
        return Outcome::Done(Ok(response));
    }
    if exhausted || !policy.retries_status(response.status) {
        return Outcome::Done(Err(failure(response, server_wait)));
    }
    Outcome::Again {
        delay: policy.delay_ms(attempt, server_wait),
        reason: string_of(&decimal_chars(response.status as u64)),
    }
}

/// Builds the error for a non-2xx response.
fn failure(response: RawResponse, server_wait: Option<u64>) -> (r: Error)
    ensures
        r matches Error::Api(a) && parsed_from(response.body@, a.body)
            && answers_response(a, response.status, a.body, response.headers@, server_wait),
{
    let body = Body::parse(response.body.as_str());
    Error::from_response(response.status, body, &response.headers, server_wait)
}

/// Where a request stands between attempts.
pub struct Attempts {
    /// The policy the request runs under.
    pub policy: RetryPolicy,
    /// The attempt about to be made, counting from zero.
    pub attempt: u32,
}

impl Attempts {
    /// Before the first attempt.
    pub fn start(policy: RetryPolicy) -> (r: Attempts)
        ensures
            r.policy == policy,
            r.attempt == 0,
    {
        Attempts { policy, attempt: 0 }
    }

    /// Takes the current attempt's result: either the request is finished, or
    /// the next attempt becomes current.
    ///
    /// However many attempts fail, the attempt number never passes
    /// `max_retries`: at most `max_retries + 1` attempts are made.
    pub fn record(&mut self, sent: Result<RawResponse, Error>, server_wait: Option<u64>) -> (r: Outcome)
        requires
            old(self).attempt <= old(self).policy.max_retries,
        ensures
            final(self).policy == old(self).policy,
            decided(old(self).policy, old(self).attempt, sent, server_wait, r),
            r is Again ==> final(self).attempt == old(self).attempt + 1,
            r is Done ==> final(self).attempt == old(self).attempt,
            final(self).attempt <= final(self).policy.max_retries,
    {
        let r = classify(&self.policy, self.attempt, sent, server_wait);
        if let Outcome::Again { .. } = r {
            self.attempt = self.attempt + 1;
        }
        r
    }
}

/// Whether attempt `attempt`'s result `sent` earns another try under `p`:
/// retries remain, and it is a retryable status or a retryable failure.
pub open spec fn retried(p: RetryPolicy, attempt: u32, sent: Result<RawResponse, Error>) -> bool {
    attempt < p.max_retries && match sent {
        Ok(resp) => !success(resp.status) && retryable_status(resp.status),
        Err(e) => retryable_error(e),
    }
}

/// An attempt is tried again exactly when its result earns it; otherwise
/// the request ends with that result.
pub proof fn law_again_exactly_when_retried(
    p: RetryPolicy,
    attempt: u32,
    sent: Result<RawResponse, Error>,
    server_wait: Option<u64>,
    r: Outcome,
)
    requires
        decided(p, attempt, sent, server_wait, r),
    ensures
        r is Again <==> retried(p, attempt, sent),
        sent is Err && !retried(p, attempt, sent) ==> r == Outcome::Done(sent),
        sent matches Ok(resp) && success(resp.status) ==> r == Outcome::Done(sent),
{
}

/// A request's attempts run in order from zero; every attempt but the last
/// was tried again because its result earned it, so at most
/// `max_retries + 1` attempts are made, and the last one ends the request.
pub proof fn law_attempts_bounded(
    p: RetryPolicy,
    sent: Seq<Result<RawResponse, Error>>,
    waits: Seq<Option<u64>>,
    outcomes: Seq<Outcome>,
)
    requires
        sent.len() == waits.len(),
        sent.len() == outcomes.len(),
        outcomes.len() <= u32::MAX as int + 1,
        forall|a: int| 0 <= a < outcomes.len() ==> decided(p, a as u32, sent[a], waits[a], #[trigger] outcomes[a]),
        forall|a: int| 0 <= a < outcomes.len() - 1 ==> #[trigger] outcomes[a] is Again,
    ensures
        outcomes.len() <= p.max_retries as int + 1,
        forall|a: int| 0 <= a < outcomes.len() - 1 ==> retried(p, a as u32, #[trigger] sent[a]),
{
    if outcomes.len() > p.max_retries as int + 1 {
        let m = p.max_retries as int;
        assert(outcomes[m] is Again);
        assert(decided(p, m as u32, sent[m], waits[m], outcomes[m]));
    }
    assert forall|a: int| 0 <= a < outcomes.len() - 1 implies retried(p, a as u32, #[trigger] sent[a]) by {
        assert(outcomes[a] is Again);
        law_again_exactly_when_retried(p, a as u32, sent[a], waits[a], outcomes[a]);
    }
}

/// Which failed responses are tried again: 408, 429 and every 5xx, while
/// retries remain. Any other non-2xx status ends the request with its error at
/// once, and so does every status once the retries are spent.
pub proof fn law_retried_statuses(
    p: RetryPolicy,
    attempt: u32,
    resp: RawResponse,
    server_wait: Option<u64>,
    r: Outcome,
)
    requires
        decided(p, attempt, Ok(resp), server_wait, r),
    ensures
        attempt < p.max_retries && (resp.status == 408 || resp.status == 429 || resp.status >= 500)
            ==> r is Again,
        attempt < p.max_retries && (resp.status == 408 || resp.status == 429 || resp.status >= 500)
            ==> (r matches Outcome::Again { delay: d, .. } && d == delay(p, attempt as nat, server_wait)),
        !(200 <= resp.status < 300) && resp.status != 408 && resp.status != 429 && resp.status < 500
            ==> (r matches Outcome::Done(Err(Error::Api(a))) && a.status == resp.status),
        attempt >= p.max_retries && !(200 <= resp.status < 300)
            ==> (r matches Outcome::Done(Err(Error::Api(a))) && a.status == resp.status),
        200 <= resp.status < 300 ==> r == Outcome::Done(Ok(resp)),
{
}

/// Which failures without a response are tried again: a connection failure
/// or a timeout, while retries remain; a cancellation or a rejection never.
pub proof fn law_retried_failures(p: RetryPolicy, attempt: u32, e: Error, server_wait: Option<u64>, r: Outcome)
    requires
        decided(p, attempt, Err(e), server_wait, r),
    ensures
        attempt < p.max_retries && (e is Connection || e is Timeout) ==> r is Again,
        (e is UserAbort || e is Invalid || e is Api) ==> r == Outcome::Done(Err(e)),
        attempt >= p.max_retries ==> r == Outcome::Done(Err(e)),
{
}

} // verus!
