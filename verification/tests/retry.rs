use std::time::Duration;

use downlowd::attempt::{DownloadLoop, FailureAction, LoopStep};
use downlowd::error::Error;
use downlowd::file_info::FileInfo;
use downlowd::paths::Destination;
use downlowd::retry::{default_retry_callback, exponential_backoff, RetryHandle};
use downlowd::ProgressHandle;

fn progress(bytes: u64, total: Option<u64>) -> ProgressHandle {
    let mut info = FileInfo::new();
    info.content_length = total;
    ProgressHandle::new(
        url::Url::parse("http://example.com/file.txt").unwrap(),
        None,
        Destination::new("my-file.txt".to_string()),
        info,
        bytes,
    )
}

#[test]
fn backoff_starts_at_minimum_and_doubles() {
    let min = Duration::from_secs(1);
    let max = Duration::from_secs(120);
    assert_eq!(exponential_backoff(min, max, 0), Duration::from_secs(1));
    assert_eq!(exponential_backoff(min, max, 1), Duration::from_secs(1));
    assert_eq!(exponential_backoff(min, max, 2), Duration::from_secs(2));
    assert_eq!(exponential_backoff(min, max, 3), Duration::from_secs(4));
    assert_eq!(exponential_backoff(min, max, 7), Duration::from_secs(64));
}

#[test]
fn backoff_is_capped_at_maximum() {
    let min = Duration::from_secs(5);
    let max = Duration::from_secs(120);
    assert_eq!(exponential_backoff(min, max, 6), Duration::from_secs(120));
    assert_eq!(exponential_backoff(min, max, 1000), Duration::from_secs(120));
    assert_eq!(exponential_backoff(min, max, u64::MAX), Duration::from_secs(120));
}

#[test]
fn default_callback_does_not_wait_when_file_changed() {
    let mut handle = RetryHandle::new(
        3,
        2,
        Duration::from_secs(9),
        Error::FileChanged { description: "etag changed" },
    );
    default_retry_callback(&mut handle);
    assert_eq!(handle.delay(), Duration::ZERO);
    assert_eq!(handle.tries(), 3);
    assert_eq!(handle.retries(), 2);
}

#[test]
fn default_callback_backs_off_exponentially() {
    let mut handle = RetryHandle::new(4, 3, Duration::ZERO, Error::UnexpectedStatus { status: 503 });
    default_retry_callback(&mut handle);
    assert_eq!(handle.delay(), Duration::from_secs(4));
}

#[test]
fn cancelled_retry_fails_with_the_error() {
    let mut handle = RetryHandle::new(1, 1, Duration::ZERO, Error::UnexpectedStatus { status: 500 });
    assert!(!handle.is_cancelled());
    handle.cancel();
    assert!(matches!(
        handle.into_decision(),
        Err(Error::UnexpectedStatus { status: 500 })
    ));

    let mut handle = RetryHandle::new(1, 1, Duration::ZERO, Error::Cancelled);
    handle.set_delay(Duration::from_millis(7));
    assert!(matches!(handle.into_decision(), Ok(d) if d == Duration::from_millis(7)));
}

#[test]
fn loop_finishes_when_file_is_complete() {
    let mut p = progress(11, Some(11));
    let mut attempts = DownloadLoop::new(Some(5));
    assert!(matches!(attempts.next_step(&mut p), LoopStep::Finished));
    assert_eq!(p.tries(), 0);
}

#[test]
fn loop_counts_tries_and_retries() {
    let mut p = progress(0, None);
    let mut attempts = DownloadLoop::new(Some(5));
    assert!(matches!(
        attempts.next_step(&mut p),
        LoopStep::Attempt { bytes_before: 0 }
    ));
    assert_eq!(p.tries(), 1);
    assert_eq!(attempts.retries, 1);
}

#[test]
fn loop_gives_up_on_client_errors() {
    let mut p = progress(0, None);
    let mut attempts = DownloadLoop::new(None);
    attempts.next_step(&mut p);
    let action = attempts.after_failure(&p, 0, Error::UnexpectedStatus { status: 404 });
    assert!(matches!(
        action,
        FailureAction::GiveUp(Error::UnexpectedStatus { status: 404 })
    ));
}

#[test]
fn loop_gives_up_after_too_many_retries() {
    let mut p = progress(0, None);
    let mut attempts = DownloadLoop::new(Some(1));
    attempts.next_step(&mut p);
    let action = attempts.after_failure(&p, 0, Error::UnexpectedStatus { status: 500 });
    assert!(matches!(action, FailureAction::Retry { restart: false, .. }));
    attempts.next_step(&mut p);
    let action = attempts.after_failure(&p, 0, Error::UnexpectedStatus { status: 500 });
    assert!(matches!(action, FailureAction::GiveUp(_)));
}

#[test]
fn loop_resets_retries_after_progress() {
    let mut p = progress(0, None);
    let mut attempts = DownloadLoop::new(Some(1));
    attempts.next_step(&mut p);
    attempts.after_failure(&p, 0, Error::UnexpectedStatus { status: 500 });
    attempts.next_step(&mut p);
    p.record_chunk(10);
    let action = attempts.after_failure(&p, 0, Error::UnexpectedStatus { status: 500 });
    match action {
        FailureAction::Retry { restart, handle } => {
            assert!(!restart);
            assert_eq!(handle.retries(), 0);
            assert_eq!(handle.tries(), 2);
        }
        FailureAction::GiveUp(_) => panic!("should retry after progress"),
    }
    assert_eq!(attempts.retries, 0);
}

#[test]
fn loop_restarts_when_file_changed() {
    let mut p = progress(5, None);
    let mut attempts = DownloadLoop::new(Some(5));
    attempts.next_step(&mut p);
    let action = attempts.after_failure(&p, 0, Error::FileChanged { description: "etag changed" });
    match action {
        FailureAction::Retry { restart, handle } => {
            assert!(restart);
            assert_eq!(handle.delay(), Duration::ZERO);
        }
        FailureAction::GiveUp(_) => panic!("a changed file should be retried"),
    }
}
