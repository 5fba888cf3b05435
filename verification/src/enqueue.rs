//! Boson enqueue with rate-limit backoff, shared by the iter and deletion orchestrators.

use vstd::prelude::*;

use crate::text::concat3;

verus! {

/// First sleep after a rate-limited enqueue, in milliseconds.
pub const RATE_LIMIT_BACKOFF_START_MS: u64 = 1000;

/// Longest sleep between rate-limited enqueue attempts, in milliseconds.
pub const RATE_LIMIT_BACKOFF_MAX_MS: u64 = 30_000;

/// What one enqueue attempt returned.
pub enum EnqueueOutcome {
    /// The job was accepted.
    Accepted,
    /// The queue asked the caller to slow down.
    RateLimited,
    /// Any other failure, rendered.
    Failed(String),
}

/// What to do after an enqueue attempt.
pub enum EnqueueStep {
    /// The job is queued.
    Done,
    /// Sleep `sleep_ms`, then retry with `next_backoff`.
    RetryAfter { sleep_ms: u64, next_backoff: u64 },
    /// Give up with this error.
    Fail(String),
}

/// Backoff after a rate-limited attempt: doubled, capped at the maximum.
pub open spec fn next_backoff_spec(b: nat) -> nat {
    if 2 * b < RATE_LIMIT_BACKOFF_MAX_MS {
        2 * b
    } else {
        RATE_LIMIT_BACKOFF_MAX_MS as nat
    }
}

/// Backoff after a rate-limited attempt: doubled, capped at the maximum.
pub fn next_backoff(b: u64) -> (r: u64)
    requires
        b <= u64::MAX / 2,
    ensures
        r == next_backoff_spec(b as nat),
{
    let d = b * 2;
    if d < RATE_LIMIT_BACKOFF_MAX_MS {
        d
    } else {
        RATE_LIMIT_BACKOFF_MAX_MS
    }
}

/// The retry decision: done when accepted, fail on any error other than a rate limit, and on
/// a rate limit sleep the current backoff and retry with the next one.
pub fn enqueue_step(outcome: EnqueueOutcome, backoff: u64) -> (r: EnqueueStep)
    requires
        backoff <= u64::MAX / 2,
    ensures
        match outcome {
            EnqueueOutcome::Accepted => r is Done,
            EnqueueOutcome::RateLimited => r matches EnqueueStep::RetryAfter { sleep_ms, next_backoff }
                && sleep_ms == backoff && next_backoff == next_backoff_spec(backoff as nat),
            EnqueueOutcome::Failed(m) => r matches EnqueueStep::Fail(e) && e == m,
        },
{
    match outcome {
        EnqueueOutcome::Accepted => EnqueueStep::Done,
        EnqueueOutcome::RateLimited => EnqueueStep::RetryAfter {
            sleep_ms: backoff,
            next_backoff: next_backoff(backoff),
        },
        EnqueueOutcome::Failed(m) => EnqueueStep::Fail(m),
    }
}

/// Law: starting from the initial backoff, every sleep between rate-limited attempts stays
/// between the initial and the maximum backoff, and never shrinks.
pub proof fn law_backoff_bounded(b: nat)
    requires
        RATE_LIMIT_BACKOFF_START_MS <= b <= RATE_LIMIT_BACKOFF_MAX_MS,
    ensures
        RATE_LIMIT_BACKOFF_START_MS <= next_backoff_spec(b) <= RATE_LIMIT_BACKOFF_MAX_MS,
        b <= next_backoff_spec(b),
{
}

/// Idempotency key of a queued job: `"{run_id}:{item_id}"`.
pub fn idempotency_key(run_id: &str, item_id: &str) -> (r: String)
    ensures
        r@ == run_id@ + ":"@ + item_id@,
{
    concat3(run_id, ":", item_id)
}

} // verus!
