use std::time::Duration;

use downlowd::limiter::blocking::BlockingTokenBucket;
use downlowd::limiter::leaky_bucket::LeakyBucket;
use downlowd::limiter::shared::{after_wakeup, consume, initial_limit, Wakeup};
use downlowd::limiter::token_bucket::TokenBucket;

#[test]
fn leaky_bucket_waits_for_its_debt() {
    let mut limiter = LeakyBucket::new(1000);
    assert_eq!(
        limiter.bytes_consumed_inner(1500, 0),
        Some(Duration::from_millis(1500))
    );
    // A zero limit still lets a trickle of one byte per second through.
    let mut limiter = LeakyBucket::new(0);
    assert_eq!(limiter.bytes_consumed_inner(1, 1000), None);
    assert_eq!(
        limiter.bytes_consumed_inner(2, 0),
        Some(Duration::from_millis(2000))
    );
}

#[test]
fn token_bucket_waits_for_tokens_to_drain() {
    let mut bucket = TokenBucket::new(1000);
    bucket.bytes_consumed(2500);
    assert_eq!(
        bucket.time_to_wait_inner(Duration::from_millis(500)),
        Some(Duration::from_millis(2000))
    );
    bucket.clear();
    assert_eq!(bucket.time_to_wait_inner(Duration::ZERO), None);
    bucket.bytes_consumed(10);
    bucket.set_max_bytes_per_second(10);
    assert_eq!(
        bucket.time_to_wait_inner(Duration::ZERO),
        Some(Duration::from_millis(1000))
    );
}

#[test]
fn blocking_bucket_is_off_until_enabled() {
    let mut limiter = BlockingTokenBucket::new(None);
    limiter.bytes_consumed(1_000_000);
    assert_eq!(limiter.next_delay(), None);

    limiter.set_max_bytes_per_second(Some(100));
    // 1,000,000 bytes at 100 bytes per second: the wait is capped at 100 ms.
    assert_eq!(limiter.next_delay(), Some(Duration::from_millis(100)));

    limiter.set_max_bytes_per_second(None);
    assert_eq!(limiter.next_delay(), None);
}

#[test]
fn blocking_bucket_small_debt() {
    let mut limiter = BlockingTokenBucket::new(Some(1000));
    limiter.bytes_consumed(50);
    let delay = limiter.next_delay().unwrap();
    assert!(delay <= Duration::from_millis(50));
}

#[test]
fn shared_limiter_decisions() {
    assert_eq!(initial_limit(None), 1024 * 1024 * 1024);
    assert_eq!(initial_limit(Some(5)), 5);

    let mut bucket = TokenBucket::new(initial_limit(Some(100)));
    assert_eq!(consume(&mut bucket, None, 10, false), None);
    assert_eq!(consume(&mut bucket, Some(100), 10, true), None);
    let first = consume(&mut bucket, Some(100), 0, false).unwrap();
    assert!(first <= Duration::from_millis(100));
    assert_eq!(after_wakeup(&mut bucket, Wakeup::LimitChanged(None)), None);
    let next = after_wakeup(&mut bucket, Wakeup::LimitChanged(Some(1_000_000)));
    assert!(next.is_none() || next.unwrap() <= Duration::from_millis(1));
    assert_eq!(
        after_wakeup(&mut bucket, Wakeup::Slept).is_some(),
        next.is_some()
    );
}

#[test]
fn leaky_bucket_wait_saturates_instead_of_wrapping() {
    // A debt whose wait does not fit in u64 milliseconds waits the longest
    // time there is.
    let mut limiter = LeakyBucket::new(100);
    assert_eq!(
        limiter.bytes_consumed_inner(1_844_674_407_370_955_162, 0),
        Some(Duration::from_millis(u64::MAX))
    );
    let mut limiter = LeakyBucket::new(100);
    assert_eq!(
        limiter.bytes_consumed_inner(1_844_674_407_370_955_161, 0),
        Some(Duration::from_millis(18_446_744_073_709_551_610))
    );
}

#[test]
fn shared_limiter_zero_limit_without_a_wait() {
    // A zero limit is fine when the download is complete, or when nothing is
    // pending: no wait has to be worked out.
    let mut bucket = TokenBucket::new(100);
    assert_eq!(consume(&mut bucket, Some(0), 10, true), None);
    assert_eq!(bucket.pending(), 10);
    let mut empty = TokenBucket::new(100);
    assert_eq!(consume(&mut empty, Some(0), 0, false), None);
    assert_eq!(empty.pending(), 0);
    assert_eq!(after_wakeup(&mut empty, Wakeup::LimitChanged(Some(0))), None);
    assert_eq!(empty.max_bytes_per_second, 0);
}
