//! Views of `std::time::Duration` (its length in nanoseconds) and the clock.
use std::time::{Duration, Instant};
use vstd::prelude::*;

verus! {

/// The length of a duration in nanoseconds (`Duration::as_nanos`): whole
/// seconds and the nanoseconds beyond them, together.
pub uninterp spec fn duration_nanos(d: Duration) -> u128;

/// The whole number of milliseconds in a duration, as `Duration::as_millis`
/// reports it.
pub open spec fn duration_millis(d: Duration) -> u128 {
    duration_nanos(d) / 1_000_000
}

/// True when `d` is exactly `ms` milliseconds long.
pub open spec fn whole_millis(d: Duration, ms: int) -> bool {
    duration_nanos(d) == ms * 1_000_000
}

/// `Duration::as_millis` returns the total number of whole milliseconds.
pub assume_specification[ core::time::Duration::as_millis ](d: &Duration) -> (r: u128)
    ensures
        r == duration_nanos(*d) / 1_000_000,
;

/// `Duration::from_millis` makes a duration of exactly `millis` milliseconds.
pub assume_specification[ core::time::Duration::from_millis ](millis: u64) -> (d: Duration)
    ensures
        duration_nanos(d) == millis * 1_000_000,
;

/// `std::time::Instant`, a reading of the monotonic clock, carried as an
/// opaque value.
#[verifier::external_type_specification]
#[verifier::external_body]
pub struct ExInstant(Instant);

/// Reads the monotonic clock (`Instant::now`).  Nothing is stated of the
/// reading: it depends on when the call is made.
#[verifier::external_body]
pub(crate) fn now() -> (r: Instant) {
    Instant::now()
}

/// The time from the reading `earlier` to the reading `later`, as
/// `Instant::duration_since` computes it (zero when `earlier` is the later
/// reading): a function of the two readings alone.
pub uninterp spec fn instant_since(later: Instant, earlier: Instant) -> Duration;

/// Whole milliseconds from the reading `earlier` to the reading `later`.
pub open spec fn elapsed_millis(later: Instant, earlier: Instant) -> u128 {
    duration_millis(instant_since(later, earlier))
}

/// The time elapsed from `earlier` to `later` (`Instant::duration_since`).
#[verifier::external_body]
pub(crate) fn elapsed_between(later: &Instant, earlier: &Instant) -> (r: Duration)
    ensures
        r == instant_since(*later, *earlier),
{
    later.duration_since(*earlier)
}

} // verus!
