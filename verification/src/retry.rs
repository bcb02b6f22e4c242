//! Retrying failed download attempts: the back-off between attempts, the
//! handle given to a retry callback, and the decision whether to retry.
use std::time::Duration;
use vstd::prelude::*;

use crate::error::Error;
use crate::time::{duration_millis, whole_millis};

verus! {

/// Default number of retries for a download.
pub const DEFAULT_MAX_RETRIES: u64 = 5;

/// Default minimum delay between retries, in milliseconds.
pub const DEFAULT_MIN_DELAY_MS: u64 = 1000;

/// Default maximum delay between retries, in milliseconds.
pub const DEFAULT_MAX_DELAY_MS: u64 = 120_000;

/// `m` doubled `k` times.
pub open spec fn doubled(m: nat, k: nat) -> nat
    decreases k,
{
    if k == 0 {
        m
    } else {
        doubled(m, (k - 1) as nat) * 2
    }
}

/// The back-off before retry number `retries`, in milliseconds: the minimum
/// delay doubled for each retry after the first, but never above the maximum
/// (and the maximum when the doubled delay does not fit in `u64`
/// milliseconds).
pub open spec fn backoff_millis(min_ms: nat, max_ms: nat, retries: nat) -> nat {
    let d = doubled(min_ms, if retries == 0 {
        0
    } else {
        (retries - 1) as nat
    });
    if d < max_ms && d <= u64::MAX {
        d
    } else {
        max_ms
    }
}

/// True when the back-off before retry number `retries` is the maximum
/// itself: the doubled minimum reaches it or does not fit in `u64`
/// milliseconds.
pub open spec fn backoff_capped(min_ms: nat, max_ms: nat, retries: nat) -> bool {
    let d = doubled(min_ms, if retries == 0 {
        0
    } else {
        (retries - 1) as nat
    });
    !(d < max_ms && d <= u64::MAX)
}

proof fn lemma_doubled_grows(m: nat, j: nat, k: nat)
    requires
        j <= k,
    ensures
        doubled(m, j) <= doubled(m, k),
    decreases k,
{
    if j < k {
        lemma_doubled_grows(m, j, (k - 1) as nat);
    }
}

/// Law: the back-off never exceeds the maximum delay.
pub proof fn law_backoff_capped(min_ms: nat, max_ms: nat, retries: nat)
    ensures
        backoff_millis(min_ms, max_ms, retries) <= max_ms,
{
}

/// Law: the first retry waits the minimum delay (when that is below the
/// maximum).
pub proof fn law_backoff_starts_at_minimum(min_ms: nat, max_ms: nat)
    requires
        min_ms < max_ms,
        min_ms <= u64::MAX,
    ensures
        backoff_millis(min_ms, max_ms, 1) == min_ms,
        backoff_millis(min_ms, max_ms, 0) == min_ms,
{
}

/// Law: each further retry waits twice as long as the one before, until the
/// maximum is reached.
pub proof fn law_backoff_doubles(min_ms: nat, max_ms: nat, retries: nat)
    requires
        retries >= 1,
        backoff_millis(min_ms, max_ms, retries + 1) < max_ms,
    ensures
        backoff_millis(min_ms, max_ms, retries + 1) == 2 * backoff_millis(min_ms, max_ms, retries),
{
    lemma_doubled_grows(min_ms, (retries - 1) as nat, retries);
}

/// Law: the back-off never shrinks as retries go on.
pub proof fn law_backoff_grows(min_ms: nat, max_ms: nat, fewer: nat, more: nat)
    requires
        fewer <= more,
    ensures
        backoff_millis(min_ms, max_ms, fewer) <= backoff_millis(min_ms, max_ms, more),
{
    let e1: nat = if fewer == 0 { 0 } else { (fewer - 1) as nat };
    let e2: nat = if more == 0 { 0 } else { (more - 1) as nat };
    lemma_doubled_grows(min_ms, e1, e2);
}

/// Exponential back-off: `min` for the first retry, doubling for each further
/// retry, and capped at `max`.  The minimum counts in whole milliseconds; a
/// capped back-off is `max` itself, any other a whole number of milliseconds.
pub fn exponential_backoff(min: Duration, max: Duration, retries: u64) -> (r: Duration)
    ensures
        duration_millis(r) == backoff_millis(
            duration_millis(min) as nat,
            duration_millis(max) as nat,
            retries as nat,
        ),
        backoff_capped(duration_millis(min) as nat, duration_millis(max) as nat, retries as nat)
            ==> r == max,
        !backoff_capped(duration_millis(min) as nat, duration_millis(max) as nat, retries as nat)
            ==> whole_millis(
            r,
            backoff_millis(
                duration_millis(min) as nat,
                duration_millis(max) as nat,
                retries as nat,
            ) as int,
        ),
{
    let min_ms = min.as_millis();
    let max_ms = max.as_millis();
    let exponent: u64 = if retries == 0 {
        0
    } else {
        retries - 1
    };
    let mut value: u128 = min_ms;
    let mut i: u64 = 0;
    while i < exponent && value < max_ms
        invariant
            i <= exponent,
            min_ms == duration_millis(min),
            max_ms == duration_millis(max),
            exponent == (if retries == 0 {
                0
            } else {
                retries - 1
            }),
            value == doubled(min_ms as nat, i as nat),
        decreases exponent - i,
    {
        if value > u128::MAX / 2 {
            proof {
                assert(doubled(min_ms as nat, (i + 1) as nat) == value * 2);
                lemma_doubled_grows(min_ms as nat, (i + 1) as nat, exponent as nat);
                assert(doubled(min_ms as nat, exponent as nat) > max_ms);
            }
            return max;
        }
        value = value * 2;
        i = i + 1;
    }
    proof {
        lemma_doubled_grows(min_ms as nat, i as nat, exponent as nat);
    }
    if value < max_ms && value <= u64::MAX as u128 {
        Duration::from_millis(value as u64)
    } else {
        max
    }
}

/// What a retry callback is given: how many tries and consecutive retries
/// there have been, the error that failed the last try, and the delay before
/// the next one, which the callback may change; it may also cancel.
pub struct RetryHandle {
    tries: u64,
    retries: u64,
    delay: Duration,
    error: Error,
    cancelled: bool,
}

impl RetryHandle {
    /// Total tries so far.
    pub closed spec fn spec_tries(&self) -> u64 {
        self.tries
    }

    /// Consecutive retries without progress.
    pub closed spec fn spec_retries(&self) -> u64 {
        self.retries
    }

    /// The delay before the next try.
    pub closed spec fn spec_delay(&self) -> Duration {
        self.delay
    }

    /// The error that failed the last try.
    pub closed spec fn spec_error(&self) -> Error {
        self.error
    }

    /// True once the retry was cancelled.
    pub closed spec fn spec_cancelled(&self) -> bool {
        self.cancelled
    }

    /// A handle for a retry after `error`, with a proposed `delay`.
    pub fn new(tries: u64, retries: u64, delay: Duration, error: Error) -> (r: Self)
        ensures
            r.spec_tries() == tries,
            r.spec_retries() == retries,
            r.spec_delay() == delay,
            r.spec_error() == error,
            !r.spec_cancelled(),
    {
        RetryHandle { tries, retries, delay, error, cancelled: false }
    }

    /// Total number of tries so far.
    pub fn tries(&self) -> (r: u64)
        ensures
            r == self.spec_tries(),
    {
        self.tries
    }

    /// Number of consecutive retries without making progress.
    pub fn retries(&self) -> (r: u64)
        ensures
            r == self.spec_retries(),
    {
        self.retries
    }

    /// The delay before the next try.
    pub fn delay(&self) -> (r: Duration)
        ensures
            r == self.spec_delay(),
    {
        self.delay
    }

    /// The error that failed the last try.
    pub fn error(&self) -> (r: &Error)
        ensures
            *r == self.spec_error(),
    {
        &self.error
    }

    /// Change the delay before the next try.
    pub fn set_delay(&mut self, delay: Duration)
        ensures
            final(self).spec_delay() == delay,
            final(self).spec_tries() == old(self).spec_tries(),
            final(self).spec_retries() == old(self).spec_retries(),
            final(self).spec_error() == old(self).spec_error(),
            final(self).spec_cancelled() == old(self).spec_cancelled(),
    {
        self.delay = delay;
    }

    /// Give up instead of retrying; the download fails with the error.
    pub fn cancel(&mut self)
        ensures
            final(self).spec_cancelled(),
            final(self).spec_delay() == old(self).spec_delay(),
            final(self).spec_tries() == old(self).spec_tries(),
            final(self).spec_retries() == old(self).spec_retries(),
            final(self).spec_error() == old(self).spec_error(),
    {
        self.cancelled = true;
    }

    /// True once the retry was cancelled.
    pub fn is_cancelled(&self) -> (r: bool)
        ensures
            r == self.spec_cancelled(),
    {
        self.cancelled
    }

    /// What the callback decided: the error if it cancelled, else the delay to
    /// wait before the next try.
    pub fn into_decision(self) -> (r: Result<Duration, Error>)
        ensures
            r == (if self.spec_cancelled() {
                Err(self.spec_error())
            } else {
                Ok(self.spec_delay())
            }),
    {
        if self.cancelled {
            Err(self.error)
        } else {
            Ok(self.delay)
        }
    }
}

/// True when the error says the file changed on the server.
pub open spec fn is_file_changed(e: Error) -> bool {
    e is FileChanged
}

/// The delay that the default retry callback sets for a handle.
pub open spec fn default_delay_millis(e: Error, retries: u64) -> nat {
    if is_file_changed(e) {
        0
    } else {
        backoff_millis(DEFAULT_MIN_DELAY_MS as nat, DEFAULT_MAX_DELAY_MS as nat, retries as nat)
    }
}

/// The default minimum delay between retries.
pub fn default_min_delay() -> (r: Duration)
    ensures
        whole_millis(r, DEFAULT_MIN_DELAY_MS as int),
{
    Duration::from_millis(DEFAULT_MIN_DELAY_MS)
}

/// The default maximum delay between retries.
pub fn default_max_delay() -> (r: Duration)
    ensures
        whole_millis(r, DEFAULT_MAX_DELAY_MS as int),
{
    Duration::from_millis(DEFAULT_MAX_DELAY_MS)
}

/// The default delay before retrying after `error`: none when the file
/// changed on the server, else exponential back-off between the defaults.
pub fn default_delay(error: &Error, retries: u64) -> (r: Duration)
    ensures
        whole_millis(r, default_delay_millis(*error, retries) as int),
{
    if matches!(error, Error::FileChanged { .. }) {
        // No delay if the file changed.
        Duration::from_millis(0)
    } else {
        exponential_backoff(default_min_delay(), default_max_delay(), retries)
    }
}

/// Default callback used for determining backoff delay between retries.
pub fn default_retry_callback(handle: &mut RetryHandle)
    ensures
        whole_millis(
            final(handle).spec_delay(),
            default_delay_millis(old(handle).spec_error(), old(handle).spec_retries()) as int,
        ),
        final(handle).spec_tries() == old(handle).spec_tries(),
        final(handle).spec_retries() == old(handle).spec_retries(),
        final(handle).spec_error() == old(handle).spec_error(),
        final(handle).spec_cancelled() == old(handle).spec_cancelled(),
{
    let delay = default_delay(handle.error(), handle.retries());
    handle.set_delay(delay);
}

} // verus!
