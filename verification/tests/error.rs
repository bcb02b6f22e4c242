use downlowd::error::Error;

#[test]
fn test_can_retry() {
    assert!(
        Error::FileChanged {
            description: "etag changed"
        }
        .can_retry()
    );

    assert!(Error::UnexpectedStatus { status: 500 }.can_retry());

    assert!(!Error::UnexpectedStatus { status: 404 }.can_retry());
}
