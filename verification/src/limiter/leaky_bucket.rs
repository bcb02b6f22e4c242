//! A leaky bucket that slowly fills with allowance over time and is emptied
//! by the bytes that were downloaded; it may go into debt.
use std::time::{Duration, Instant};
use vstd::prelude::*;

use crate::arith::{clamp_i128, saturating_add_i128, saturating_mul_i128, saturating_sub_i128};
use crate::time::{elapsed_between, elapsed_millis, now, whole_millis};

verus! {

/// The rate the bucket really uses: with no limit we would wait forever, so
/// a tiny trickle of one byte per second is always allowed.
pub open spec fn effective_rate(max_bytes_per_second: u64) -> int {
    if max_bytes_per_second >= 1 {
        max_bytes_per_second as int
    } else {
        1
    }
}

/// Allowance in the bucket after `elapsed_ms` milliseconds have passed: it
/// grows at the effective rate but never above one second's worth.  After an
/// elapsed time too large for `i128` the bucket is simply reset to full.
pub open spec fn refilled(available: i128, max_bytes_per_second: u64, elapsed_ms: u128) -> int {
    let rate = effective_rate(max_bytes_per_second);
    if elapsed_ms > i128::MAX {
        rate
    } else {
        let grown = clamp_i128(available + clamp_i128(elapsed_ms * rate) / 1000);
        if grown < rate {
            grown
        } else {
            rate
        }
    }
}

/// Allowance after `elapsed_ms` milliseconds and then `bytes` downloaded bytes.
pub open spec fn allowance_after(
    available: i128,
    max_bytes_per_second: u64,
    elapsed_ms: u128,
    bytes: u64,
) -> int {
    clamp_i128(refilled(available, max_bytes_per_second, elapsed_ms) - bytes)
}

/// The time to pay back a debt of `-available` at the effective rate, in
/// milliseconds (saturating in `i128`, and at `u64::MAX` milliseconds).
pub open spec fn debt_millis(available: int, max_bytes_per_second: u64) -> u64 {
    let millis = clamp_i128(available * -1000) / effective_rate(max_bytes_per_second);
    if millis > u64::MAX {
        u64::MAX
    } else {
        millis as u64
    }
}

pub struct LeakyBucket {
    /// The target maximum bytes per second.
    pub max_bytes_per_second: u64,
    /// The last time we tried to take some tokens from the bucket.
    last: Instant,
    /// The allowance in the bucket.  We slowly fill the bucket over time, up to
    /// a maximum of `max_bytes_per_second`.  Because we only find out how many
    /// bytes were downloaded after the fact, this can go negative to show we
    /// are "in debt".
    bytes_available: i128,
}

impl LeakyBucket {
    /// The allowance currently in the bucket.
    pub closed spec fn available(&self) -> i128 {
        self.bytes_available
    }

    /// The configured maximum bytes per second.
    pub closed spec fn limit(&self) -> u64 {
        self.max_bytes_per_second
    }

    /// The clock reading of the last call of `bytes_consumed`.
    pub closed spec fn last(&self) -> Instant {
        self.last
    }

    /// Create a new limiter that allows approximately `max_bytes_per_second`
    /// bytes per second to be downloaded.
    pub fn new(max_bytes_per_second: u64) -> (r: Self)
        ensures
            r.limit() == max_bytes_per_second,
            r.available() == 0,
    {
        LeakyBucket { max_bytes_per_second, last: now(), bytes_available: 0 }
    }

    /// Let the bucket know we downloaded some bytes.  Returns the duration of
    /// time to wait before more can be downloaded.  The clock is read and the
    /// reading kept; the bucket is credited with the time from the previous
    /// reading to this one, so no stretch of time is credited twice.
    pub fn bytes_consumed(&mut self, bytes: u64) -> (r: Option<Duration>)
        ensures
            final(self).limit() == old(self).limit(),
            final(self).available() == allowance_after(
                old(self).available(),
                old(self).limit(),
                elapsed_millis(final(self).last(), old(self).last()),
                bytes,
            ),
            final(self).available() <= effective_rate(final(self).limit()),
            r.is_some() == (final(self).available() < 0),
            r matches Some(d) ==> whole_millis(
                d,
                debt_millis(final(self).available() as int, final(self).limit()) as int,
            ),
    {
        // Work out how long it has been since someone called this.
        let current = now();
        let elapsed = elapsed_between(&current, &self.last);
        let elapsed = elapsed.as_millis();
        self.last = current;
        self.bytes_consumed_inner(bytes, elapsed)
    }

    /// Refill the bucket for `elapsed` milliseconds, take `bytes` out of it,
    /// and return the wait owed if that put the bucket in debt.
    pub fn bytes_consumed_inner(&mut self, bytes: u64, elapsed: u128) -> (r: Option<Duration>)
        ensures
            final(self).limit() == old(self).limit(),
            final(self).last() == old(self).last(),
            final(self).available() == allowance_after(
                old(self).available(),
                old(self).limit(),
                elapsed,
                bytes,
            ),
            final(self).available() <= effective_rate(final(self).limit()),
            r.is_some() == (final(self).available() < 0),
            r matches Some(d) ==> whole_millis(
                d,
                debt_millis(final(self).available() as int, final(self).limit()) as int,
            ),
    {
        // If we have no limit, then we would end up waiting forever, so always
        // allow a tiny trickle.
        let max_bps: i128 = if self.max_bytes_per_second >= 1 {
            self.max_bytes_per_second as i128
        } else {
            1
        };
        if elapsed > i128::MAX as u128 {
            // If the elapsed time is too large, just reset the bucket.
            self.bytes_available = max_bps;
        } else {
            // Add allowance to the bucket based on the elapsed time.
            let bytes_elapsed = saturating_mul_i128(elapsed as i128, max_bps) / 1000;
            let grown = saturating_add_i128(self.bytes_available, bytes_elapsed);
            self.bytes_available = if grown < max_bps {
                grown
            } else {
                max_bps
            };
        }
        self.bytes_available = saturating_sub_i128(self.bytes_available, bytes as i128);
        if self.bytes_available < 0 {
            let wait_millis = saturating_mul_i128(self.bytes_available, -1000) / max_bps;
            // A debt too large to wait off in `u64` milliseconds waits the
            // longest time there is, rather than wrapping around.
            let wait_millis: u64 = if wait_millis > u64::MAX as i128 {
                u64::MAX
            } else {
                wait_millis as u64
            };
            Some(Duration::from_millis(wait_millis))
        } else {
            None
        }
    }
}

/// Law: allowance is earned at the configured rate (one byte per second when
/// the limit is zero): over `elapsed_ms` milliseconds at most
/// `elapsed_ms * rate / 1000` bytes, and exactly that, up to one second's
/// worth, when nothing saturates.
pub proof fn law_refill_rate(available: i128, max_bytes_per_second: u64, elapsed_ms: u128)
    ensures
        ({
            let rate: int = if max_bytes_per_second >= 1 {
                max_bytes_per_second as int
            } else {
                1
            };
            let earned: int = (elapsed_ms * rate) / 1000;
            &&& elapsed_ms <= i128::MAX ==> refilled(available, max_bytes_per_second, elapsed_ms)
                <= available + earned
            &&& refilled(available, max_bytes_per_second, elapsed_ms) <= rate
            &&& elapsed_ms * rate <= i128::MAX && available + earned <= i128::MAX ==> refilled(
                available,
                max_bytes_per_second,
                elapsed_ms,
            ) == if available + earned < rate {
                available + earned
            } else {
                rate
            }
        }),
{
    let rate: int = if max_bytes_per_second >= 1 {
        max_bytes_per_second as int
    } else {
        1
    };
    assert(elapsed_ms * rate >= 0) by (nonlinear_arith)
        requires
            elapsed_ms >= 0,
            rate >= 1,
    ;
    assert(rate == effective_rate(max_bytes_per_second));
    let earned: int = (elapsed_ms * rate) / 1000;
    assert(earned >= 0);
    if elapsed_ms <= i128::MAX {
        let c = clamp_i128(elapsed_ms * rate);
        assert(0 <= c <= elapsed_ms * rate);
        assert(c / 1000 <= earned) by (nonlinear_arith)
            requires
                0 <= c <= elapsed_ms * rate,
                earned == (elapsed_ms * rate) / 1000,
        ;
        assert(c / 1000 >= 0);
        assert(clamp_i128(available + c / 1000) <= available + c / 1000);
        assert(refilled(available, max_bytes_per_second, elapsed_ms) <= available + earned);
    }
    assert(refilled(available, max_bytes_per_second, elapsed_ms) <= rate);
    if elapsed_ms * rate <= i128::MAX && available + earned <= i128::MAX {
        assert(elapsed_ms <= elapsed_ms * rate) by (nonlinear_arith)
            requires
                elapsed_ms >= 0,
                rate >= 1,
        ;
        assert(clamp_i128(elapsed_ms * rate) == elapsed_ms * rate);
        assert(clamp_i128(available + earned) == available + earned);
        assert(refilled(available, max_bytes_per_second, elapsed_ms) == if available + earned < rate {
            available + earned
        } else {
            rate
        });
    }
}

/// Law: the wait owed for a debt is the time it takes to earn it back at the
/// configured rate (one byte per second when the limit is zero), in whole
/// milliseconds rounded down: `wait * rate <= debt * 1000 < (wait + 1) * rate`.
pub proof fn law_wait_is_payback_time(available: i128, max_bytes_per_second: u64)
    requires
        available < 0,
        available * -1000 <= i128::MAX,
        (available * -1000) / (if max_bytes_per_second >= 1 {
            max_bytes_per_second as int
        } else {
            1
        }) <= u64::MAX,
    ensures
        ({
            let rate: int = if max_bytes_per_second >= 1 {
                max_bytes_per_second as int
            } else {
                1
            };
            let wait: int = debt_millis(available as int, max_bytes_per_second) as int;
            &&& wait * rate <= -available * 1000
            &&& -available * 1000 < (wait + 1) * rate
        }),
{
    let rate: int = if max_bytes_per_second >= 1 {
        max_bytes_per_second as int
    } else {
        1
    };
    assert(rate == effective_rate(max_bytes_per_second));
    let a = available as int;
    assert(clamp_i128(a * -1000) == a * -1000);
    let w = (a * -1000) / rate;
    assert(debt_millis(a, max_bytes_per_second) == w);
    assert(w * rate <= -a * 1000 && -a * 1000 < (w + 1) * rate) by (nonlinear_arith)
        requires
            w == (a * -1000) / rate,
            rate > 0,
            a < 0,
    ;
}

/// Law: downloading, from an empty bucket, more than the allowance earned at
/// the configured rate over the elapsed time always owes a wait.
pub proof fn law_faster_than_rate_must_wait(max_bytes_per_second: u64, elapsed_ms: u128, bytes: u64)
    requires
        elapsed_ms <= i128::MAX,
        bytes * 1000 > elapsed_ms * (if max_bytes_per_second >= 1 {
            max_bytes_per_second as int
        } else {
            1
        }),
    ensures
        allowance_after(0, max_bytes_per_second, elapsed_ms, bytes) < 0,
{
    law_refill_rate(0, max_bytes_per_second, elapsed_ms);
    let rate: int = if max_bytes_per_second >= 1 {
        max_bytes_per_second as int
    } else {
        1
    };
    let earned: int = (elapsed_ms * rate) / 1000;
    assert(earned < bytes) by (nonlinear_arith)
        requires
            earned == (elapsed_ms * rate) / 1000,
            bytes * 1000 > elapsed_ms * rate,
            elapsed_ms * rate >= 0,
    ;
}

/// Law: the bucket never holds more than one second's worth of allowance,
/// whatever the starting allowance, elapsed time and download.
pub proof fn law_no_burst_above_limit(available: i128, max_bytes_per_second: u64, elapsed_ms: u128, bytes: u64)
    ensures
        allowance_after(available, max_bytes_per_second, elapsed_ms, bytes) <= effective_rate(
            max_bytes_per_second,
        ),
{
}

/// Law: downloading more than one second's worth at once always puts the
/// bucket in debt, however long ago the last download was.
pub proof fn law_large_download_must_wait(available: i128, max_bytes_per_second: u64, elapsed_ms: u128, bytes: u64)
    requires
        bytes > effective_rate(max_bytes_per_second),
    ensures
        allowance_after(available, max_bytes_per_second, elapsed_ms, bytes) < 0,
{
}

/// Law: downloading no more than the allowance that has built up never
/// puts the bucket in debt, so no wait is owed.
pub proof fn law_slow_enough_never_waits(available: i128, max_bytes_per_second: u64, elapsed_ms: u128, bytes: u64)
    requires
        bytes <= refilled(available, max_bytes_per_second, elapsed_ms),
    ensures
        allowance_after(available, max_bytes_per_second, elapsed_ms, bytes) >= 0,
{
}

/// Law: with no time passing, debt accumulates: the allowance only goes down
/// by the bytes downloaded (capped to one second's worth first).
pub proof fn law_debt_accumulates(available: i128, max_bytes_per_second: u64, bytes: u64)
    ensures
        allowance_after(available, max_bytes_per_second, 0, bytes) == clamp_i128(
            (if available < effective_rate(max_bytes_per_second) {
                available as int
            } else {
                effective_rate(max_bytes_per_second)
            }) - bytes,
        ),
{
}

/// Law: waiting the owed time pays the debt back, up to rounding: what is
/// still owed afterwards is less than one millisecond's worth plus one byte.
pub proof fn law_owed_wait_pays_debt(available: i128, max_bytes_per_second: u64)
    requires
        available < 0,
        available * -1000 <= i128::MAX,
        (available * -1000) / effective_rate(max_bytes_per_second) <= u64::MAX,
    ensures
        allowance_after(
            available,
            max_bytes_per_second,
            debt_millis(available as int, max_bytes_per_second) as u128,
            0,
        ) * 1000 > -(effective_rate(max_bytes_per_second) + 1000),
{
    let r = effective_rate(max_bytes_per_second);
    let a = available as int;
    let d = (a * -1000) / r;
    assert(clamp_i128(a * -1000) == a * -1000);
    assert(debt_millis(a, max_bytes_per_second) == d);
    assert(d * r <= a * -1000 && a * -1000 < d * r + r) by (nonlinear_arith)
        requires
            d == (a * -1000) / r,
            r > 0,
            a < 0,
    ;
    assert(0 <= d * r) by (nonlinear_arith)
        requires
            d >= 0,
            r > 0,
    ;
    assert(clamp_i128(d * r) == d * r);
    let refill = (d * r) / 1000;
    assert(refill * 1000 > d * r - 1000);
    assert(refill <= -a);
}

} // verus!
