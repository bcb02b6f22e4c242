//! The decisions of a rate limiter shared by concurrent downloads: the
//! caller holds the bucket under a lock, sleeps, and reports how it woke up.
use std::time::Duration;
use vstd::prelude::*;

use crate::arith::clamp_u64;
use crate::limiter::token_bucket::{drain_millis, drained_tokens, TokenBucket};
use crate::time::{elapsed_millis, whole_millis};

verus! {

/// Default rate limit. This is only ever set when the limiter is disabled.
pub const DEFAULT_MAX_BYTES_PER_SECOND: u64 = 1024 * 1024 * 1024;

/// True when the wait owed for `tokens` pending bytes at `limit` bytes per
/// second can be worked out: the limit is positive, or nothing is pending.
pub open spec fn can_wait(limit: u64, tokens: int) -> bool {
    limit > 0 || tokens == 0
}

/// The limit the bucket of a new limiter starts with.
pub fn initial_limit(max_bytes_per_second: Option<u64>) -> (r: u64)
    ensures
        r == match max_bytes_per_second {
            Some(m) => m,
            None => DEFAULT_MAX_BYTES_PER_SECOND,
        },
{
    match max_bytes_per_second {
        Some(m) => m,
        None => DEFAULT_MAX_BYTES_PER_SECOND,
    }
}

/// How a waiting download woke up.
pub enum Wakeup {
    /// The wait it was told to sleep for has passed.
    Slept,
    /// It was told that the limit changed; this is the limit now in force.
    LimitChanged(Option<u64>),
}

/// True when the bucket's tokens after a wait are what draining `before`
/// tokens at `limit` for `elapsed_ms` milliseconds leaves, and `r` is the wait
/// owed for them.
pub open spec fn waited(before: u64, limit: u64, elapsed_ms: u128, after: u64, r: Option<Duration>) -> bool {
    &&& after == drained_tokens(before, limit, elapsed_ms)
    &&& r is Some == (after > 0)
    &&& r matches Some(d) ==> whole_millis(d, drain_millis(after, limit) as int)
}

/// Records `bytes` downloaded under the limit `max_bytes_per_second`, and
/// returns the first wait owed: none when there is no limit, or when the
/// whole file is downloaded and there is no point waiting.
pub fn consume(bucket: &mut TokenBucket, max_bytes_per_second: Option<u64>, bytes: u64, complete: bool) -> (r:
    Option<Duration>)
    requires
        max_bytes_per_second matches Some(m) ==> complete || can_wait(
            m,
            old(bucket).tokens() + bytes,
        ),
    ensures
        max_bytes_per_second is None ==> r is None && final(bucket).tokens() == old(bucket).tokens()
            && final(bucket).limit() == old(bucket).limit(),
        max_bytes_per_second matches Some(m) ==> final(bucket).limit() == m,
        max_bytes_per_second is None || complete ==> final(bucket).last() == old(bucket).last(),
        max_bytes_per_second is Some && complete ==> r is None && final(bucket).tokens()
            == clamp_u64(old(bucket).tokens() + bytes),
        max_bytes_per_second is Some && !complete ==> can_wait(
            final(bucket).limit(),
            final(bucket).tokens() as int,
        ),
        max_bytes_per_second is Some && !complete ==> waited(
            clamp_u64(old(bucket).tokens() + bytes) as u64,
            final(bucket).limit(),
            elapsed_millis(final(bucket).last(), old(bucket).last()),
            final(bucket).tokens(),
            r,
        ),
{
    match max_bytes_per_second {
        Some(max_bps) => {
            bucket.set_max_bytes_per_second(max_bps);
            bucket.bytes_consumed(bytes);
            // If there are still bytes left to download, wait for the limiter
            // to let us continue; if the whole file is downloaded already,
            // there is not much point waiting around.
            if complete {
                None
            } else {
                bucket.time_to_wait()
            }
        },
        None => None,
    }
}

/// After waking up: stop waiting if the limit was removed; otherwise take a
/// changed limit into account and return the wait still owed, if any.
pub fn after_wakeup(bucket: &mut TokenBucket, wakeup: Wakeup) -> (r: Option<Duration>)
    requires
        wakeup is Slept ==> can_wait(old(bucket).limit(), old(bucket).tokens() as int),
        wakeup matches Wakeup::LimitChanged(Some(m)) ==> can_wait(m, old(bucket).tokens() as int),
    ensures
        wakeup matches Wakeup::LimitChanged(None) ==> r is None && *final(bucket) == *old(bucket),
        wakeup matches Wakeup::LimitChanged(Some(m)) ==> final(bucket).limit() == m,
        wakeup is Slept ==> final(bucket).limit() == old(bucket).limit(),
        !(wakeup matches Wakeup::LimitChanged(None)) ==> waited(
            old(bucket).tokens(),
            final(bucket).limit(),
            elapsed_millis(final(bucket).last(), old(bucket).last()),
            final(bucket).tokens(),
            r,
        ),
        !(wakeup matches Wakeup::LimitChanged(None)) ==> can_wait(
            final(bucket).limit(),
            final(bucket).tokens() as int,
        ),
{
    match wakeup {
        Wakeup::LimitChanged(None) => None,
        Wakeup::LimitChanged(Some(max_bps)) => {
            bucket.set_max_bytes_per_second(max_bps);
            bucket.time_to_wait()
        },
        Wakeup::Slept => bucket.time_to_wait(),
    }
}

} // verus!
