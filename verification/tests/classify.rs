use std::io::{Error, ErrorKind};

use loop_retry::IsRetryable;

#[test]
fn transient_io_errors_are_retryable() {
    for kind in [
        ErrorKind::ConnectionRefused,
        ErrorKind::ConnectionReset,
        ErrorKind::ConnectionAborted,
        ErrorKind::TimedOut,
        ErrorKind::WouldBlock,
        ErrorKind::BrokenPipe,
    ] {
        assert!(Error::new(kind, "x").is_retryable(), "{:?}", kind);
    }
}

#[test]
fn permanent_io_errors_are_not_retryable() {
    for kind in [
        ErrorKind::NotFound,
        ErrorKind::PermissionDenied,
        ErrorKind::InvalidInput,
        ErrorKind::InvalidData,
        ErrorKind::UnexpectedEof,
        ErrorKind::Other,
    ] {
        assert!(!Error::new(kind, "x").is_retryable(), "{:?}", kind);
    }
}

#[test]
fn auth_and_interrupted_io_errors_are_not_retryable() {
    assert!(!Error::new(ErrorKind::PermissionDenied, "auth failed").is_retryable());
    assert!(!Error::from(ErrorKind::Interrupted).is_retryable());
    assert!(Error::from(ErrorKind::TimedOut).is_retryable());
}

#[test]
fn os_error_codes_are_classified_by_kind() {
    let refused = Error::from(ErrorKind::ConnectionRefused);
    let from_os = Error::from_raw_os_error(refused.raw_os_error().unwrap_or(111));
    assert_eq!(from_os.is_retryable(), from_os.kind() == ErrorKind::ConnectionRefused);
}
