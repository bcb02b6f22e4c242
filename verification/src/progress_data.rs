//! The progress report of a download, with the event being reported.
use std::path::PathBuf;
use std::time::Duration;
use url::Url;
use vstd::prelude::*;

use crate::error::Error;

verus! {

/// What a progress report is about.
pub enum ProgressEvent {
    /// We've made some progress downloading the file.
    BytesDownloaded,
    /// We've encountered an error, and will retry.
    Error { err: Error, time_until_retry: Duration },
    /// We're done downloading the file.  The file has been renamed to its final
    /// destination.
    Done,
}

/// A progress report.
pub struct ProgressData {
    /// The type of event we are reporting.
    pub event: ProgressEvent,
    /// The original URL we are downloading from.
    pub original_url: Url,
    /// The URL we are downloading from.  Note that if we followed a redirect,
    /// this may be different from the original URL.
    pub updated_url: Option<Url>,
    /// The final path we are downloading to.
    pub destination: PathBuf,
    /// The total number of tries so far to download this file.
    pub tries: u64,
    /// The number of bytes actually transferred so far.
    pub bytes_transferred: u64,
    /// The size of the local file on disk, including any bytes downloaded.
    pub bytes: u64,
    /// Total bytes in the file, if known.
    pub total_bytes: Option<u64>,
    /// True if the download has been cancelled.
    pub cancelled: bool,
}

impl ProgressData {
    /// Returns the type of event we are reporting.
    pub fn event(&self) -> (r: &ProgressEvent)
        ensures
            *r == self.event,
    {
        &self.event
    }

    /// Returns the original URL we are downloading from.
    pub fn original_url(&self) -> (r: &Url)
        ensures
            *r == self.original_url,
    {
        &self.original_url
    }

    /// Returns the URL we are downloading from.  Note that if we followed a
    /// redirect, this may be different from the original URL.
    pub fn url(&self) -> (r: &Url)
        ensures
            *r == match self.updated_url {
                Some(u) => u,
                None => self.original_url,
            },
    {
        match &self.updated_url {
            Some(u) => u,
            None => &self.original_url,
        }
    }

    /// Returns the final path we are downloading to.
    pub fn destination(&self) -> (r: &PathBuf)
        ensures
            *r == self.destination,
    {
        &self.destination
    }

    /// Returns the total number of tries so far to download this file.
    pub fn tries(&self) -> (r: u64)
        ensures
            r == self.tries,
    {
        self.tries
    }

    /// Return the number of bytes actually transferred so far.  If we are
    /// resuming a partial download, this will be less than `bytes()`.
    pub fn bytes_transferred(&self) -> (r: u64)
        ensures
            r == self.bytes_transferred,
    {
        self.bytes_transferred
    }

    /// Returns the size of the local file on disk, including any bytes downloaded
    /// in a previous partial download.
    pub fn bytes(&self) -> (r: u64)
        ensures
            r == self.bytes,
    {
        self.bytes
    }

    /// Returns the total number of bytes in the file, if known.
    pub fn total_bytes(&self) -> (r: Option<u64>)
        ensures
            r == self.total_bytes,
    {
        self.total_bytes
    }

    /// Cancel this download. This will cause the download to stop immediately.
    pub fn cancel(&mut self)
        ensures
            final(self).cancelled,
            final(self).tries == old(self).tries,
            final(self).bytes == old(self).bytes,
            final(self).bytes_transferred == old(self).bytes_transferred,
            final(self).total_bytes == old(self).total_bytes,
    {
        self.cancelled = true;
    }
}

} // verus!
