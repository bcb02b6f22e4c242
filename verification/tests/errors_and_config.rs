use downlowd::config::{
    configure_max_bytes_per_second, epoch_offset, kept_error, should_load_sidecar,
    validate_max_bytes_per_second,
};
use downlowd::error::Error;
use downlowd::file_info::FileInfo;

#[test]
fn retryable_errors() {
    assert!(Error::Network {
        during: "GET",
        url: "http://example.com".to_string(),
        cause: "reset".to_string()
    }
    .can_retry());
    assert!(Error::UnexpectedStatus { status: 399 }.can_retry());
    assert!(Error::UnexpectedStatus { status: 503 }.can_retry());
    assert!(!Error::UnexpectedStatus { status: 400 }.can_retry());
    assert!(!Error::UnexpectedStatus { status: 499 }.can_retry());
    assert!(!Error::InvalidConfig { message: "x".to_string() }.can_retry());
    assert!(!Error::InvalidUrl { cause: "x".to_string() }.can_retry());
    assert!(!Error::InvalidHeader { cause: "x".to_string() }.can_retry());
    assert!(!Error::BadRedirect { reason: "too many redirects" }.can_retry());
    assert!(!Error::Write {
        action: "writing",
        path: std::path::PathBuf::from("x"),
        cause: std::io::Error::other("disk full")
    }
    .can_retry());
    assert!(!Error::Cancelled.can_retry());
}

#[test]
fn zero_rate_is_refused() {
    match validate_max_bytes_per_second(Some(0)) {
        Err(Error::InvalidConfig { message }) => {
            assert_eq!(message, "max_bytes_per_second must be greater than 0")
        }
        _ => panic!("expected an invalid configuration"),
    }
    assert!(matches!(validate_max_bytes_per_second(Some(10)), Ok(Some(10))));
    assert!(matches!(validate_max_bytes_per_second(None), Ok(None)));
}

#[test]
fn sidecar_is_loaded_only_without_validator() {
    let mut info = FileInfo::new();
    assert!(should_load_sidecar(&info));
    info.content_length = Some(3);
    assert!(should_load_sidecar(&info));
    info.etag = Some("e".to_string());
    assert!(!should_load_sidecar(&info));
    let mut info = FileInfo::new();
    info.last_modified = Some("yesterday".to_string());
    assert!(!should_load_sidecar(&info));
}

#[test]
fn epoch_offsets() {
    assert_eq!(epoch_offset(1500), (true, 1500));
    assert_eq!(epoch_offset(0), (true, 0));
    assert_eq!(epoch_offset(-1500), (false, 1500));
}

#[test]
fn builder_keeps_a_configuration_error() {
    let mut limit = Some(5);
    let mut kept = None;
    configure_max_bytes_per_second(&mut limit, &mut kept, Some(10));
    assert_eq!(limit, Some(10));
    assert!(kept.is_none());
    configure_max_bytes_per_second(&mut limit, &mut kept, None);
    assert_eq!(limit, None);
    configure_max_bytes_per_second(&mut limit, &mut kept, Some(0));
    assert_eq!(limit, None);
    assert!(matches!(
        &kept,
        Some(Error::InvalidConfig { message }) if message == "max_bytes_per_second must be greater than 0"
    ));
    assert!(matches!(kept_error(kept), Err(Error::InvalidConfig { .. })));
    assert!(kept_error(None).is_ok());
}
