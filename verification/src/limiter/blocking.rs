//! A token bucket for blocking downloads, whose limit can be changed or
//! removed while downloads run.
use std::time::Duration;
use vstd::prelude::*;

use crate::limiter::token_bucket::{drain_millis, drained_tokens, TokenBucket};
use crate::time::{elapsed_millis, whole_millis};
use std::time::Instant;

verus! {

/// The limit that stands for "no limit".
pub const UNLIMITED: u64 = 0;

/// The longest single wait, in milliseconds, so that a changed limit is
/// noticed quickly.
pub const MAX_WAIT_MS: u64 = 100;

/// A token-bucket rate limiter that is off until a limit is first set.
pub struct BlockingTokenBucket {
    ever_enabled: bool,
    /// The target maximum bytes per second; `UNLIMITED` for no limit.
    pub max_bytes_per_second: u64,
    /// Tokens currently in the bucket.
    tokens: TokenBucket,
}

impl BlockingTokenBucket {
    /// True once a limit has ever been set.
    pub closed spec fn spec_ever_enabled(&self) -> bool {
        self.ever_enabled
    }

    /// The limit in force.
    pub closed spec fn limit(&self) -> u64 {
        self.max_bytes_per_second
    }

    /// The tokens in the bucket.
    pub closed spec fn tokens(&self) -> u64 {
        self.tokens.tokens()
    }

    /// The clock reading at which the bucket was last drained.
    pub closed spec fn last(&self) -> Instant {
        self.tokens.last()
    }

    /// Create a new limiter that allows approximately `max_bytes_per_second`
    /// bytes per second to be downloaded; `None` for no limit.
    pub fn new(max_bytes_per_second: Option<u64>) -> (r: Self)
        ensures
            r.spec_ever_enabled() == max_bytes_per_second is Some,
            r.limit() == match max_bytes_per_second {
                Some(m) => m,
                None => UNLIMITED,
            },
            r.tokens() == 0,
    {
        let max = match max_bytes_per_second {
            Some(m) => m,
            None => UNLIMITED,
        };
        BlockingTokenBucket {
            ever_enabled: max_bytes_per_second.is_some(),
            max_bytes_per_second: max,
            tokens: TokenBucket::new(max),
        }
    }

    /// Called to notify the bucket that we consumed some bytes.
    pub fn bytes_consumed(&mut self, bytes: u64)
        ensures
            final(self).tokens() == crate::arith::clamp_u64(old(self).tokens() + bytes),
            final(self).limit() == old(self).limit(),
            final(self).last() == old(self).last(),
            final(self).spec_ever_enabled() == old(self).spec_ever_enabled(),
    {
        self.tokens.bytes_consumed(bytes);
    }

    /// Set the maximum bytes per second; `None` removes the limit and empties
    /// the bucket.
    pub fn set_max_bytes_per_second(&mut self, max_bps: Option<u64>)
        ensures
            final(self).spec_ever_enabled() == (old(self).spec_ever_enabled()
                || max_bps is Some),
            final(self).limit() == match max_bps {
                Some(m) => m,
                None => UNLIMITED,
            },
            max_bps is None ==> final(self).tokens() == 0,
            max_bps is Some ==> final(self).tokens() == old(self).tokens(),
            final(self).last() == old(self).last(),
    {
        self.ever_enabled = self.ever_enabled || max_bps.is_some();
        self.max_bytes_per_second = match max_bps {
            Some(m) => m,
            None => UNLIMITED,
        };
        if max_bps.is_none() {
            self.tokens.clear();
        }
    }

    /// One step of waiting until more bytes may be downloaded: the time to
    /// sleep before asking again, at most `MAX_WAIT_MS`, or `None` when no
    /// wait is needed.  There is never a wait while the limiter has never been
    /// enabled or while there is no limit.
    pub fn next_delay(&mut self) -> (r: Option<Duration>)
        ensures
            final(self).limit() == old(self).limit(),
            final(self).spec_ever_enabled() == old(self).spec_ever_enabled(),
            !old(self).spec_ever_enabled() || old(self).limit() == UNLIMITED ==> r is None
                && final(self).tokens() == old(self).tokens() && final(self).last() == old(
                self,
            ).last(),
            old(self).spec_ever_enabled() && old(self).limit() != UNLIMITED ==> {
                &&& final(self).tokens() == drained_tokens(
                    old(self).tokens(),
                    old(self).limit(),
                    elapsed_millis(final(self).last(), old(self).last()),
                )
                &&& r is Some == (final(self).tokens() > 0)
                &&& r matches Some(d) ==> whole_millis(
                    d,
                    if drain_millis(final(self).tokens(), old(self).limit()) > MAX_WAIT_MS {
                        MAX_WAIT_MS as int
                    } else {
                        drain_millis(final(self).tokens(), old(self).limit()) as int
                    },
                )
            },
    {
        // If we've never turned on the limiter, or there is no limit, bypass it.
        if !self.ever_enabled || self.max_bytes_per_second == UNLIMITED {
            return None;
        }
        self.tokens.set_max_bytes_per_second(self.max_bytes_per_second);
        let waited = self.tokens.time_to_wait();
        match waited {
            Some(delay) => {
                // Don't sleep for more than 100ms at a time, so that a change of
                // the limit is noticed quickly.
                if delay.as_millis() > MAX_WAIT_MS as u128 {
                    Some(Duration::from_millis(MAX_WAIT_MS))
                } else {
                    Some(delay)
                }
            },
            None => None,
        }
    }
}

} // verus!
