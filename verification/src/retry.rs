//! When and how long to wait before trying a request again.
//!
//! Requests retry twice by default, on 408, 429 and 5xx as well as connection
//! failures and timeouts, with exponential backoff from 500ms to a 5s cap. A
//! server's `Retry-After` is honoured exactly when it asks for a minute or
//! less. The timeout of 10s applies to each attempt.

use vstd::arithmetic::power2::{lemma_pow2_unfold, pow2};
use vstd::prelude::*;

use crate::error::Error;

verus! {

/// Per-attempt timeout when nothing else is configured.
pub const DEFAULT_TIMEOUT_MS: u64 = 10_000;

/// The longest server-requested delay that is honoured as it stands.
pub const MAX_RETRY_AFTER_MS: u64 = 60_000;

/// When and how often to try again.
#[derive(Debug, Clone, Copy, PartialEq, Eq, Structural)]
pub struct RetryPolicy {
    /// Retries after the first attempt; zero never retries.
    pub max_retries: u32,
    /// The wait before the first retry.
    pub backoff_initial_ms: u64,
    /// The longest wait between attempts.
    pub backoff_max_ms: u64,
}

/// Whether a response status is worth another attempt.
pub open spec fn retryable_status(status: u16) -> bool {
    status == 408 || status == 429 || status >= 500
}

/// Whether a failure to get any response is worth another attempt: a
/// connection failure or a timeout, never a cancellation or a rejection.
pub open spec fn retryable_error(e: Error) -> bool {
    e is Connection || e is Timeout
}

/// The wait before retry `attempt + 1`: the initial wait doubled per attempt,
/// never above the cap.
pub open spec fn backoff(initial: nat, max: nat, attempt: nat) -> nat {
    if initial * pow2(attempt) <= max { initial * pow2(attempt) } else { max }
}

/// The wait before the next attempt: the server's own request when it asks
/// for a minute or less, the backoff otherwise.
pub open spec fn delay(p: RetryPolicy, attempt: nat, server_wait: Option<u64>) -> nat {
    match server_wait {
        Some(w) => if w <= MAX_RETRY_AFTER_MS { w as nat } else {
            backoff(p.backoff_initial_ms as nat, p.backoff_max_ms as nat, attempt)
        },
        None => backoff(p.backoff_initial_ms as nat, p.backoff_max_ms as nat, attempt),
    }
}

impl RetryPolicy {
    /// The documented defaults: two retries, backoff from 500ms to 5s.
    pub open spec fn default_spec() -> RetryPolicy {
        RetryPolicy { max_retries: 2, backoff_initial_ms: 500, backoff_max_ms: 5_000 }
    }
}

impl Default for RetryPolicy {
    fn default() -> (r: RetryPolicy)
        ensures
            r == RetryPolicy::default_spec(),
    {
        RetryPolicy { max_retries: 2, backoff_initial_ms: 500, backoff_max_ms: 5_000 }
    }
}

proof fn lemma_double_capped(y: nat, m: nat)
    ensures
        (if 2 * (if y <= m { y } else { m }) <= m { 2 * (if y <= m { y } else { m }) } else { m })
            == (if 2 * y <= m { 2 * y } else { m }),
{
}

proof fn lemma_backoff_step(initial: nat, max: nat, attempt: nat)
    ensures
        backoff(initial, max, attempt + 1) == (if 2 * backoff(initial, max, attempt) <= max {
            2 * backoff(initial, max, attempt)
        } else {
            max
        }),
{
    lemma_pow2_unfold(attempt + 1);
    let y: nat = initial * pow2(attempt);
    assert(initial * pow2(attempt + 1) == 2 * y) by (nonlinear_arith)
        requires
            pow2(attempt + 1) == 2 * pow2(attempt),
            y == initial * pow2(attempt),
    ;
    lemma_double_capped(y, max);
}

impl RetryPolicy {
    /// Whether a response with `status` is worth another attempt.
    pub fn retries_status(&self, status: u16) -> (r: bool)
        ensures
            r == retryable_status(status),
    {
        status == 408 || status == 429 || status >= 500
    }

    /// Whether a failure with no response is worth another attempt.
    pub fn retries_error(&self, error: &Error) -> (r: bool)
        ensures
            r == retryable_error(*error),
    {
        error.is_connection()
    }

    /// The exponential backoff before retry `attempt + 1`.
    pub fn backoff_ms(&self, attempt: u32) -> (r: u64)
        ensures
            r == backoff(self.backoff_initial_ms as nat, self.backoff_max_ms as nat, attempt as nat),
    {
        let max = self.backoff_max_ms;
        let mut d: u64 = if self.backoff_initial_ms <= max { self.backoff_initial_ms } else { max };
        proof {
            assert(pow2(0) == 1) by {
                vstd::arithmetic::power2::lemma_pow2(0);
                vstd::arithmetic::power::lemma_pow0(2);
            }
        }
        let mut i: u32 = 0;
        while i < attempt
            invariant
                i <= attempt,
                max == self.backoff_max_ms,
                d == backoff(self.backoff_initial_ms as nat, max as nat, i as nat),
                d <= max,
            decreases attempt - i,
        {
            proof {
                lemma_backoff_step(self.backoff_initial_ms as nat, max as nat, i as nat);
            }
            d = if d <= max / 2 { 2 * d } else { max };
            i = i + 1;
        }
        d
    }

    /// How long to wait before the attempt after `attempt`, given what the
    /// server asked for.
    pub fn delay_ms(&self, attempt: u32, server_wait: Option<u64>) -> (r: u64)
        ensures
            r == delay(*self, attempt as nat, server_wait),
    {
        match server_wait {
            Some(w) => if w <= MAX_RETRY_AFTER_MS { w } else { self.backoff_ms(attempt) },
            None => self.backoff_ms(attempt),
        }
    }
}

/// The backoff never exceeds the cap, and never shrinks from one retry to
/// the next.
pub proof fn law_backoff_grows_to_cap(p: RetryPolicy, attempt: nat)
    ensures
        backoff(p.backoff_initial_ms as nat, p.backoff_max_ms as nat, attempt) <= p.backoff_max_ms,
        backoff(p.backoff_initial_ms as nat, p.backoff_max_ms as nat, attempt)
            <= backoff(p.backoff_initial_ms as nat, p.backoff_max_ms as nat, attempt + 1),
{
    lemma_backoff_step(p.backoff_initial_ms as nat, p.backoff_max_ms as nat, attempt);
}

/// A server that asks for a minute or less is waited for exactly as long as
/// it asked; a longer request, like no request at all, leaves the wait to the
/// backoff.
pub proof fn law_retry_after_honoured(p: RetryPolicy, attempt: nat, wait: u64)
    ensures
        wait <= MAX_RETRY_AFTER_MS ==> delay(p, attempt, Some(wait)) == wait,
        wait > MAX_RETRY_AFTER_MS ==> delay(p, attempt, Some(wait)) == delay(p, attempt, None),
{
}

} // verus!
