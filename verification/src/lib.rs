//! Verified core of a resumable, rate-limited HTTP file downloader: the rate
//! limiters, the sidecar file format, header parsing, retry policy and the
//! decisions of the download loop.  The network and file I/O around them is
//! done by the caller.
use vstd::prelude::*;

pub mod arith;
pub mod attempt;
pub mod config;
pub mod error;
pub mod file_info;
pub mod head;
pub mod headers;
pub mod into_url;
pub mod limiter;
pub mod paths;
pub mod progress;
pub mod progress_data;
pub mod request;
pub mod retry;
pub mod text;
pub mod time;

pub use error::Error;
pub use file_info::FileInfo;
pub use into_url::IntoUrl;
pub use progress::{DownloadResult, ProgressHandle};
pub use retry::{exponential_backoff, RetryHandle};

verus! {

} // verus!
