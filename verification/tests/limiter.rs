use std::time::Duration;

use downlowd::limiter::leaky_bucket::LeakyBucket;
use downlowd::limiter::token_bucket::TokenBucket;

fn consume_bytes(limiter: &mut TokenBucket, bytes: u64, ms: u64) -> Option<Duration> {
    limiter.bytes_consumed(bytes);
    limiter.time_to_wait_inner(Duration::from_millis(ms))
}

#[test]
fn leakybucket_should_not_wait_if_consuming_slow_enough() {
    let mut limiter = LeakyBucket::new(100);
    assert_eq!(limiter.bytes_consumed_inner(100, 1000), None);
    assert_eq!(limiter.bytes_consumed_inner(100, 1000), None);
    assert_eq!(limiter.bytes_consumed_inner(100, 1000), None);
    assert_eq!(limiter.bytes_consumed_inner(50, 1000), None);
    assert_eq!(limiter.bytes_consumed_inner(10, 100), None);
    assert_eq!(limiter.bytes_consumed_inner(10, 100), None);
    assert_eq!(limiter.bytes_consumed_inner(10, 100), None);
    assert_eq!(limiter.bytes_consumed_inner(0, 1000), None);
    assert_eq!(limiter.bytes_consumed_inner(0, 0), None);
}

#[test]
fn leakybucket_should_accumulate_wait_if_called_too_often() {
    // This tests "going into debt".
    let mut limiter = LeakyBucket::new(100);
    assert_eq!(
        limiter.bytes_consumed_inner(110, 1000),
        Some(Duration::from_millis(100))
    );
    assert_eq!(
        limiter.bytes_consumed_inner(10, 0),
        Some(Duration::from_millis(200))
    );
    assert_eq!(
        limiter.bytes_consumed_inner(10, 0),
        Some(Duration::from_millis(300))
    );
}

#[test]
fn leakybucket_should_wait_if_we_start_consuming_too_fast() {
    let mut limiter = LeakyBucket::new(100);

    // If we stay under the limit, should be fine.
    assert_eq!(limiter.bytes_consumed_inner(100, 1000), None);

    // If we go over the limit, we should be told to wait.
    assert_eq!(
        limiter.bytes_consumed_inner(110, 1000),
        Some(Duration::from_millis(100))
    );

    // If we wait, should go back to 0.
    assert_eq!(limiter.bytes_consumed_inner(0, 100), None);

    // This should still wait, even though a long time has passed, because
    // we don't burst above the max.
    assert_eq!(
        limiter.bytes_consumed_inner(110, 100000),
        Some(Duration::from_millis(100))
    );
}

#[test]
fn leakybucket_should_work_for_big_numbers() {
    let mut limiter = LeakyBucket::new(100);
    assert_eq!(
        limiter.bytes_consumed_inner(100_000_000, 0),
        Some(Duration::from_secs(1_000_000))
    );

    let mut limiter = LeakyBucket::new(100);
    assert_eq!(limiter.bytes_consumed_inner(100, u128::MAX), None);

    // This is going to return something very large and nonsensical, but
    // it shouldn't overflow.
    let mut limiter = LeakyBucket::new(100);
    assert!(
        limiter
            .bytes_consumed_inner(u64::MAX, u128::MAX)
            .unwrap()
            .as_secs()
            > 1_000_000
    );
}

#[test]
fn tokenbucket_should_not_wait_if_consuming_slow_enough() {
    let mut limiter = TokenBucket::new(100);
    assert_eq!(consume_bytes(&mut limiter, 100, 1000), None);
    assert_eq!(consume_bytes(&mut limiter, 100, 1000), None);
    assert_eq!(consume_bytes(&mut limiter, 100, 1000), None);
    assert_eq!(consume_bytes(&mut limiter, 50, 1000), None);
    assert_eq!(consume_bytes(&mut limiter, 10, 100), None);
    assert_eq!(consume_bytes(&mut limiter, 10, 100), None);
    assert_eq!(consume_bytes(&mut limiter, 10, 100), None);
    assert_eq!(consume_bytes(&mut limiter, 0, 1000), None);
    assert_eq!(consume_bytes(&mut limiter, 0, 0), None);
}

#[test]
fn tokenbucket_should_accumulate_wait_if_called_too_often() {
    // This tests "going into debt".
    let mut limiter = TokenBucket::new(100);
    assert_eq!(
        consume_bytes(&mut limiter, 110, 1000),
        Some(Duration::from_millis(100))
    );
    assert_eq!(
        consume_bytes(&mut limiter, 10, 0),
        Some(Duration::from_millis(200))
    );
    assert_eq!(
        consume_bytes(&mut limiter, 10, 0),
        Some(Duration::from_millis(300))
    );
}

#[test]
fn tokenbucket_should_wait_if_we_start_consuming_too_fast() {
    let mut limiter = TokenBucket::new(100);

    // If we stay under the limit, should be fine.
    assert_eq!(consume_bytes(&mut limiter, 100, 1000), None);

    // If we go over the limit, we should be told to wait.
    assert_eq!(
        consume_bytes(&mut limiter, 110, 1000),
        Some(Duration::from_millis(100))
    );

    // If we wait, should go back to 0.
    assert_eq!(consume_bytes(&mut limiter, 0, 100), None);
}

#[test]
fn tokenbucket_should_work_for_big_numbers() {
    let mut limiter = TokenBucket::new(100);
    assert_eq!(
        consume_bytes(&mut limiter, 100_000_000, 0),
        Some(Duration::from_secs(1_000_000))
    );

    let mut limiter = TokenBucket::new(100);
    assert_eq!(consume_bytes(&mut limiter, 100, u64::MAX), None);

    // This is going to return something very large and nonsensical, but
    // it shouldn't overflow.
    let mut limiter = TokenBucket::new(100);
    assert!(
        consume_bytes(&mut limiter, u64::MAX, u64::MAX)
            .unwrap()
            .as_secs()
            > 1_000_000
    );
}
