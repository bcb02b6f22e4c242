//! The library's error type.
use std::path::PathBuf;
use vstd::prelude::*;

verus! {

/// `std::path::PathBuf`, carried as an opaque value.
#[verifier::external_type_specification]
#[verifier::external_body]
pub struct ExPathBuf(PathBuf);

/// `PathBuf::clone` gives an equal path.
pub assume_specification[ <PathBuf as Clone>::clone ](p: &PathBuf) -> (r: PathBuf)
    ensures
        r == *p,
;

/// `std::io::Error`, carried as an opaque value.
#[verifier::external_type_specification]
#[verifier::external_body]
pub struct ExIoError(std::io::Error);

/// Everything that can go wrong while configuring or running a download.
#[derive(Debug)]
#[allow(inconsistent_fields)]
pub enum Error {
    /// The client or download was configured with an invalid value.
    InvalidConfig { message: String },
    /// The URL could not be parsed.
    InvalidUrl { cause: String },
    /// A header name or value was invalid.
    InvalidHeader { cause: String },
    /// The network failed while sending a request or reading a response.
    Network { during: &'static str, url: String, cause: String },
    /// The server redirected badly, for example too many times.
    BadRedirect { reason: &'static str },
    /// A local file could not be written.
    Write { action: &'static str, path: PathBuf, cause: std::io::Error },
    /// The server answered with a status that is not a success.
    UnexpectedStatus { status: u16 },
    /// The file changed on the server while we were downloading it.
    FileChanged { description: &'static str },
    /// The download was cancelled by the caller.
    Cancelled,
}

/// True for the statuses that are worth retrying: anything but a 4xx.
pub open spec fn retryable_status(status: u16) -> bool {
    status < 400 || status >= 500
}

/// True for the errors that are worth retrying.
pub open spec fn is_retryable(e: Error) -> bool {
    match e {
        Error::Network { .. } | Error::FileChanged { .. } => true,
        Error::UnexpectedStatus { status } => retryable_status(status),
        _ => false,
    }
}

impl Error {
    /// Return true if this is an error that can be retried.
    pub fn can_retry(&self) -> (r: bool)
        ensures
            r == is_retryable(*self),
    {
        match self {
            Error::Network { .. } | Error::FileChanged { .. } => true,
            Error::UnexpectedStatus { status } => {
                // 4xx errors are not retryable.
                *status < 400 || *status >= 500
            },
            Error::InvalidConfig { .. }
            | Error::InvalidUrl { .. }
            | Error::InvalidHeader { .. }
            | Error::Write { .. }
            | Error::BadRedirect { .. }
            | Error::Cancelled => false,
        }
    }
}

} // verus!
