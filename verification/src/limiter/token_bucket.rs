//! A token bucket that is filled by the bytes that were downloaded and
//! drained by the passing of time at the configured rate.
use std::time::{Duration, Instant};
use vstd::prelude::*;

use crate::arith::{clamp_u64, saturating_mul_u64};
use crate::time::{duration_millis, elapsed_between, elapsed_millis, now, whole_millis};

verus! {

/// Tokens left after draining `tokens` for `elapsed_ms` milliseconds at
/// `max_bytes_per_second`.  After more than `u64::MAX` milliseconds the bucket
/// is simply emptied.
pub open spec fn drained_tokens(tokens: u64, max_bytes_per_second: u64, elapsed_ms: u128) -> u64 {
    if elapsed_ms > u64::MAX {
        0
    } else {
        let removed = clamp_u64(elapsed_ms * max_bytes_per_second) / 1000;
        if tokens >= removed {
            (tokens - removed) as u64
        } else {
            0
        }
    }
}

/// Milliseconds it takes to drain `tokens` at `max_bytes_per_second`.
pub open spec fn drain_millis(tokens: u64, max_bytes_per_second: u64) -> u64
    recommends
        max_bytes_per_second > 0,
{
    (clamp_u64(tokens * 1000) / (max_bytes_per_second as int)) as u64
}

/// The wait that is owed with `tokens` in the bucket: none when it is empty.
pub open spec fn owed_wait(tokens: u64, max_bytes_per_second: u64) -> Option<u64> {
    if tokens > 0 {
        Some(drain_millis(tokens, max_bytes_per_second))
    } else {
        None
    }
}

pub struct TokenBucket {
    /// The target maximum bytes per second.
    pub max_bytes_per_second: u64,
    /// The last time we updated the bucket.
    last: Instant,
    /// The number of tokens in the bucket.  We slowly drain the bucket over
    /// time, at `max_bytes_per_second`.
    tokens: u64,
}

impl TokenBucket {
    /// The number of tokens currently in the bucket.
    pub closed spec fn tokens(&self) -> u64 {
        self.tokens
    }

    /// The configured maximum bytes per second.
    pub closed spec fn limit(&self) -> u64 {
        self.max_bytes_per_second
    }

    /// The clock reading at which the bucket was last drained.
    pub closed spec fn last(&self) -> Instant {
        self.last
    }

    /// Create a new limiter that allows approximately `max_bytes_per_second`
    /// bytes per second to be downloaded.
    pub fn new(max_bytes_per_second: u64) -> (r: Self)
        ensures
            r.limit() == max_bytes_per_second,
            r.tokens() == 0,
    {
        TokenBucket { max_bytes_per_second, last: now(), tokens: 0 }
    }

    /// The number of tokens in the bucket: bytes not yet drained.
    pub fn pending(&self) -> (r: u64)
        ensures
            r == self.tokens(),
    {
        self.tokens
    }

    /// Called to notify the bucket that we consumed some bytes.
    pub fn bytes_consumed(&mut self, bytes: u64)
        ensures
            final(self).limit() == old(self).limit(),
            final(self).tokens() == clamp_u64(old(self).tokens() + bytes),
            final(self).last() == old(self).last(),
    {
        self.tokens = self.tokens.saturating_add(bytes);
    }

    /// Change the maximum bytes per second.
    pub fn set_max_bytes_per_second(&mut self, max_bytes_per_second: u64)
        ensures
            final(self).limit() == max_bytes_per_second,
            final(self).tokens() == old(self).tokens(),
            final(self).last() == old(self).last(),
    {
        self.max_bytes_per_second = max_bytes_per_second;
    }

    /// Empty the bucket.
    pub fn clear(&mut self)
        ensures
            final(self).limit() == old(self).limit(),
            final(self).tokens() == 0,
            final(self).last() == old(self).last(),
    {
        self.tokens = 0;
    }

    /// Called to find out how long the caller should wait before trying to
    /// download more bytes.  The clock is read and the reading kept; the
    /// bucket is first drained by the time from the previous reading to this
    /// one, so each stretch of time drains it once.
    pub fn time_to_wait(&mut self) -> (r: Option<Duration>)
        requires
            old(self).limit() > 0 || old(self).tokens() == 0,
        ensures
            final(self).limit() == old(self).limit(),
            final(self).tokens() == drained_tokens(
                old(self).tokens(),
                old(self).limit(),
                elapsed_millis(final(self).last(), old(self).last()),
            ),
            final(self).tokens() <= old(self).tokens(),
            r.is_some() == (final(self).tokens() > 0),
            r matches Some(d) ==> whole_millis(
                d,
                drain_millis(final(self).tokens(), final(self).limit()) as int,
            ),
    {
        let current = now();
        let elapsed = elapsed_between(&current, &self.last);
        self.last = current;
        self.time_to_wait_inner(elapsed)
    }

    /// Drain the bucket by `elapsed`, and return how long to wait for the
    /// tokens that are left to drain, if any are.
    pub fn time_to_wait_inner(&mut self, elapsed: Duration) -> (r: Option<Duration>)
        requires
            old(self).limit() > 0 || old(self).tokens() == 0,
        ensures
            final(self).limit() == old(self).limit(),
            final(self).last() == old(self).last(),
            final(self).tokens() == drained_tokens(
                old(self).tokens(),
                old(self).limit(),
                duration_millis(elapsed),
            ),
            final(self).tokens() <= old(self).tokens(),
            r.is_some() == (final(self).tokens() > 0),
            r matches Some(d) ==> whole_millis(
                d,
                drain_millis(final(self).tokens(), final(self).limit()) as int,
            ),
    {
        let elapsed_ms = elapsed.as_millis();
        if elapsed_ms > u64::MAX as u128 {
            // After more than 550 million years, just reset the bucket.
            self.tokens = 0;
        } else {
            // Remove tokens from the bucket based on the elapsed time.
            let tokens_to_remove = saturating_mul_u64(elapsed_ms as u64, self.max_bytes_per_second)
                / 1000;
            self.tokens = self.tokens.saturating_sub(tokens_to_remove);
        }
        if self.tokens > 0 {
            // There are tokens left over: wait for them to drain.
            let wait_millis = saturating_mul_u64(self.tokens, 1000) / self.max_bytes_per_second;
            Some(Duration::from_millis(wait_millis))
        } else {
            None
        }
    }
}

/// Law: the bucket drains at the configured rate: over `elapsed_ms`
/// milliseconds at `max_bytes_per_second`, `elapsed_ms * max_bytes_per_second
/// / 1000` tokens leave it (all of them, when fewer are there), as long as
/// that product fits in `u64` (after more than `u64::MAX` milliseconds the
/// bucket is simply emptied).
pub proof fn law_drain_rate(tokens: u64, max_bytes_per_second: u64, elapsed_ms: u128)
    requires
        elapsed_ms <= u64::MAX,
        elapsed_ms * max_bytes_per_second <= u64::MAX,
    ensures
        ({
            let removed: int = (elapsed_ms * max_bytes_per_second) / 1000;
            drained_tokens(tokens, max_bytes_per_second, elapsed_ms) == if tokens >= removed {
                tokens - removed
            } else {
                0
            }
        }),
{
    assert(elapsed_ms * max_bytes_per_second >= 0) by (nonlinear_arith);
    assert(clamp_u64(elapsed_ms * max_bytes_per_second) == elapsed_ms * max_bytes_per_second);
}

/// Law: the wait owed for the tokens in the bucket is the time they take to
/// drain at the configured rate, in whole milliseconds rounded down:
/// `wait * rate <= tokens * 1000 < (wait + 1) * rate`.
pub proof fn law_wait_is_drain_time(tokens: u64, max_bytes_per_second: u64)
    requires
        max_bytes_per_second > 0,
        tokens * 1000 <= u64::MAX,
    ensures
        drain_millis(tokens, max_bytes_per_second) * max_bytes_per_second <= tokens * 1000,
        tokens * 1000 < (drain_millis(tokens, max_bytes_per_second) + 1) * max_bytes_per_second,
{
    let m = max_bytes_per_second as int;
    let t = tokens as int;
    let w = drain_millis(tokens, max_bytes_per_second) as int;
    assert(clamp_u64(t * 1000) == t * 1000);
    assert(w == (t * 1000) / m);
    assert(w * m <= t * 1000 && t * 1000 < (w + 1) * m) by (nonlinear_arith)
        requires
            w == (t * 1000) / m,
            m > 0,
            t >= 0,
    ;
}

/// Law: downloading no faster than the limit never makes the caller wait:
/// if the bytes in the bucket plus the new download fit in what drains during
/// the elapsed time, the bucket ends empty and no wait is owed.
pub proof fn law_slow_enough_never_waits(tokens: u64, max_bytes_per_second: u64, bytes: u64, elapsed_ms: u128)
    requires
        elapsed_ms <= u64::MAX,
        tokens + bytes <= clamp_u64(elapsed_ms * max_bytes_per_second) / 1000,
    ensures
        drained_tokens(clamp_u64(tokens + bytes) as u64, max_bytes_per_second, elapsed_ms) == 0,
        owed_wait(
            drained_tokens(clamp_u64(tokens + bytes) as u64, max_bytes_per_second, elapsed_ms),
            max_bytes_per_second,
        ) is None,
{
}

/// Law: with no time passing nothing drains, so every byte downloaded adds to
/// the wait (until the count saturates).
pub proof fn law_debt_accumulates(tokens: u64, max_bytes_per_second: u64)
    ensures
        drained_tokens(tokens, max_bytes_per_second, 0) == tokens,
{
}

/// Law: the wait owed grows with the bytes in the bucket.
pub proof fn law_wait_grows_with_tokens(fewer: u64, more: u64, max_bytes_per_second: u64)
    requires
        0 < fewer <= more,
        max_bytes_per_second > 0,
    ensures
        drain_millis(fewer, max_bytes_per_second) <= drain_millis(more, max_bytes_per_second),
{
    assert(clamp_u64(fewer * 1000) <= clamp_u64(more * 1000)) by (nonlinear_arith)
        requires fewer <= more;
    vstd::arithmetic::div_mod::lemma_div_is_ordered(
        clamp_u64(fewer * 1000),
        clamp_u64(more * 1000),
        max_bytes_per_second as int,
    );
}

/// Law: waiting the owed time drains the bucket, up to rounding: what is
/// left is less than one millisecond's worth of tokens plus one.
pub proof fn law_owed_wait_drains(tokens: u64, max_bytes_per_second: u64)
    requires
        max_bytes_per_second > 0,
        tokens * 1000 <= u64::MAX,
    ensures
        drained_tokens(tokens, max_bytes_per_second, drain_millis(tokens, max_bytes_per_second) as u128)
            * 1000 < max_bytes_per_second + 1000,
{
    let m = max_bytes_per_second as int;
    let t = tokens as int;
    let w = drain_millis(tokens, max_bytes_per_second) as int;
    assert(clamp_u64(t * 1000) == t * 1000);
    assert(w == (t * 1000) / m);
    assert(w * m <= t * 1000 && t * 1000 < w * m + m) by (nonlinear_arith)
        requires
            w == (t * 1000) / m,
            m > 0,
            t >= 0,
    ;
    assert(0 <= w * m) by (nonlinear_arith)
        requires
            w >= 0,
            m > 0,
    ;
    assert(clamp_u64(w * m) == w * m);
    let removed = (w * m) / 1000;
    assert(removed * 1000 > w * m - 1000);
}

} // verus!
