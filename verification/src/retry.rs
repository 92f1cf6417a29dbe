//! The retry executor's state machine. One authenticated GET is attempted;
//! its status classifies the outcome into success, retry after a delay, or
//! failure, under a bounded attempt budget with exponential backoff. The
//! caller performs the requests and the sleeps; every decision is made —
//! and proved — here.

use vstd::prelude::*;

use crate::auth::AuthError;

verus! {

/// Failures of the data-fetch engine.
#[derive(Debug)]
pub enum ODataError {
    /// An authentication failure, wrapped.
    AuthError(AuthError),
    /// The transport failed before any response arrived.
    HttpError(String),
    /// Rate limited (429) and the budget is exhausted; carries the delay,
    /// in seconds, that a further retry would have waited.
    RateLimited(u64),
    /// A server failure or an unexpected status; carries the numeric
    /// status and the response body.
    ServerError(u16, String),
    /// A response that could not be decoded.
    ParseError(String),
    /// The resource does not exist (404); never retried.
    NotFound(String),
}

/// The retry budget: how many attempts may be made in all, and the delay
/// before the first retry.
#[derive(Debug, Clone, Copy)]
pub struct RetryPolicy {
    pub max_retries: u32,
    pub initial_delay_ms: u64,
}

/// How long to sleep before the next attempt: whole seconds after a rate
/// limit, milliseconds after a server failure.
#[derive(Debug, Clone, Copy, PartialEq, Eq, Structural)]
pub enum SleepAmount {
    Secs(u64),
    Millis(u64),
}

/// What one classified response asks the caller to do next.
pub enum RetryStep {
    /// The response is good: use it.
    Done,
    /// Sleep this long, then issue the request again.
    Backoff(SleepAmount),
    /// Give up with this failure.
    Fail(ODataError),
}

/// The statuses taken as success by the retry executor.
pub open spec fn spec_is_success(status: u16) -> bool {
    status == 200 || status == 201 || status == 204
}

/// The current delay doubled, saturating instead of overflowing.
pub open spec fn spec_next_delay(d: u64) -> u64 {
    if 2 * d > u64::MAX {
        u64::MAX
    } else {
        (2 * d) as u64
    }
}

/// The seconds a rate-limited attempt waits: the `Retry-After` header when
/// one was sent, else the current delay read as seconds.
pub open spec fn spec_rate_limit_wait(retry_after_secs: Option<u64>, delay_ms: u64) -> u64 {
    match retry_after_secs {
        Some(s) => s,
        None => delay_ms / 1000,
    }
}

/// The live state of one retried call: which attempt is under way (the
/// first is attempt 1) and the current backoff delay.
#[derive(Debug, Clone, Copy)]
pub struct RetryState {
    pub attempt: u32,
    pub delay_ms: u64,
}

impl RetryState {
    /// The state of a call about to make its first attempt.
    pub fn begin(policy: &RetryPolicy) -> (r: RetryState)
        ensures
            r.attempt == 1,
            r.delay_ms == policy.initial_delay_ms,
    {
        RetryState { attempt: 1, delay_ms: policy.initial_delay_ms }
    }

    /// Classify the response of the current attempt.
    ///
    /// - a success status ends the call at once;
    /// - 429 waits the rate-limit delay and doubles the backoff, unless
    ///   the budget is spent, which fails with the delay that would have
    ///   been waited;
    /// - 404 fails at once, whatever the budget;
    /// - a 5xx status waits the current backoff and doubles it, unless the
    ///   budget is spent, which fails with the status and body;
    /// - any other status fails at once with the status and body.
    pub fn step(
        &mut self,
        policy: &RetryPolicy,
        status: u16,
        retry_after_secs: Option<u64>,
        body: String,
    ) -> (r: RetryStep)
        ensures
            spec_is_success(status) ==> (r is Done && *final(self) == *old(self)),
            status == 429 ==> ({
                let wait = spec_rate_limit_wait(retry_after_secs, old(self).delay_ms);
                if old(self).attempt >= policy.max_retries {
                    &&& r matches RetryStep::Fail(e) && e matches ODataError::RateLimited(w)
                        && w == wait
                    &&& *final(self) == *old(self)
                } else {
                    &&& r matches RetryStep::Backoff(s) && s == SleepAmount::Secs(wait)
                    &&& final(self).attempt == old(self).attempt + 1
                    &&& final(self).delay_ms == spec_next_delay(old(self).delay_ms)
                }
            }),
            status == 404 ==> (r matches RetryStep::Fail(e) && e matches ODataError::NotFound(b)
                && b@ == body@ && *final(self) == *old(self)),
            500 <= status <= 599 ==> ({
                if old(self).attempt >= policy.max_retries {
                    &&& r matches RetryStep::Fail(e) && e matches ODataError::ServerError(st, b)
                        && st == status && b@ == body@
                    &&& *final(self) == *old(self)
                } else {
                    &&& r matches RetryStep::Backoff(s) && s == SleepAmount::Millis(
                        old(self).delay_ms,
                    )
                    &&& final(self).attempt == old(self).attempt + 1
                    &&& final(self).delay_ms == spec_next_delay(old(self).delay_ms)
                }
            }),
            !spec_is_success(status) && status != 429 && status != 404 && !(500 <= status <= 599)
                ==> (r matches RetryStep::Fail(e) && e matches ODataError::ServerError(st, b)
                && st == status && b@ == body@ && *final(self) == *old(self)),
    {
        if status == 200 || status == 201 || status == 204 {
            RetryStep::Done
        } else if status == 429 {
            let wait = match retry_after_secs {
                Some(s) => s,
                None => self.delay_ms / 1000,
            };
            if self.attempt >= policy.max_retries {
                RetryStep::Fail(ODataError::RateLimited(wait))
            } else {
                self.bump();
                RetryStep::Backoff(SleepAmount::Secs(wait))
            }
        } else if status == 404 {
            RetryStep::Fail(ODataError::NotFound(body))
        } else if 500 <= status && status <= 599 {
            if self.attempt >= policy.max_retries {
                RetryStep::Fail(ODataError::ServerError(status, body))
            } else {
                let wait = self.delay_ms;
                self.bump();
                RetryStep::Backoff(SleepAmount::Millis(wait))
            }
        } else {
            RetryStep::Fail(ODataError::ServerError(status, body))
        }
    }

    /// Move to the next attempt: count it and double the backoff.
    fn bump(&mut self)
        requires
            old(self).attempt < u32::MAX,
        ensures
            final(self).attempt == old(self).attempt + 1,
            final(self).delay_ms == spec_next_delay(old(self).delay_ms),
    {
        self.attempt = self.attempt + 1;
        self.delay_ms = if self.delay_ms > u64::MAX / 2 {
            u64::MAX
        } else {
            self.delay_ms * 2
        };
    }
}

/// Responses [429, 429, success] under a budget of three attempts and no
/// Retry-After header: from the state `RetryState::begin` yields, the
/// step contract forces a backoff of `initial/1000` seconds, then one of
/// `(2 * initial)/1000` seconds — the delay doubles — and the success
/// lands on attempt 3, within the budget. `s1` is the state at the first
/// attempt and `s2`, `s3` the states the step contract leaves after each
/// 429. The bound on the initial delay only keeps the doubling away from
/// the end of `u64`, where it saturates.
pub proof fn lemma_retry_two_rate_limits_then_success(
    p: RetryPolicy,
    s1: RetryState,
    s2: RetryState,
    s3: RetryState,
)
    requires
        p.max_retries == 3,
        p.initial_delay_ms <= u64::MAX / 2,
        s1.attempt == 1 && s1.delay_ms == p.initial_delay_ms,
        s2.attempt == s1.attempt + 1 && s2.delay_ms == spec_next_delay(s1.delay_ms),
        s3.attempt == s2.attempt + 1 && s3.delay_ms == spec_next_delay(s2.delay_ms),
    ensures
        s1.attempt < p.max_retries,
        spec_rate_limit_wait(None, s1.delay_ms) == p.initial_delay_ms / 1000,
        s2.attempt < p.max_retries,
        spec_rate_limit_wait(None, s2.delay_ms) == (2 * p.initial_delay_ms) / 1000,
        s3.attempt == 3,
{
}

/// An unbroken run of 429 responses under a budget of two attempts and no
/// Retry-After header: the first backs off `initial/1000` seconds; on the
/// second the budget is spent, so the step contract forces a rate-limited
/// failure carrying `(2 * initial)/1000` seconds — and, the state left
/// unchanged at attempt 2, a third attempt is never reached. The bound on
/// the initial delay is the saturation limit, as above.
pub proof fn lemma_retry_rate_limit_exhausts_budget(
    p: RetryPolicy,
    s1: RetryState,
    s2: RetryState,
)
    requires
        p.max_retries == 2,
        p.initial_delay_ms <= u64::MAX / 2,
        s1.attempt == 1 && s1.delay_ms == p.initial_delay_ms,
        s2.attempt == s1.attempt + 1 && s2.delay_ms == spec_next_delay(s1.delay_ms),
    ensures
        s1.attempt < p.max_retries,
        spec_rate_limit_wait(None, s1.delay_ms) == p.initial_delay_ms / 1000,
        s2.attempt >= p.max_retries,
        spec_rate_limit_wait(None, s2.delay_ms) == (2 * p.initial_delay_ms) / 1000,
        s2.attempt == 2,
{
}

} // verus!
