//! The progress of one download, as reported to a progress callback.
use std::path::PathBuf;
use url::Url;
use vstd::prelude::*;

use crate::file_info::{empty_info, opt_str_chars, FileInfo};
use crate::paths::Destination;

verus! {

/// The result of a download operation.
#[derive(Debug, Clone)]
#[non_exhaustive]
pub struct DownloadResult {
    /// The total number of tries we made to download the file.
    pub tries: u64,
    /// The path the file was saved to.
    pub path: PathBuf,
    /// The total number of bytes downloaded.
    pub bytes_downloaded: u64,
}

impl DownloadResult {
    /// The result of a download saved to `path`.
    pub fn new(tries: u64, path: PathBuf, bytes_downloaded: u64) -> (r: Self)
        ensures
            r.tries == tries,
            r.path == path,
            r.bytes_downloaded == bytes_downloaded,
    {
        DownloadResult { tries, path, bytes_downloaded }
    }

    /// The result for a download that was skipped because the file was
    /// already complete on disk.
    pub fn skipped(path: PathBuf) -> (r: Self)
        ensures
            r.tries == 0,
            r.path == path,
            r.bytes_downloaded == 0,
    {
        DownloadResult { tries: 0, path, bytes_downloaded: 0 }
    }
}

pub struct ProgressHandle {
    /// The original URL we are downloading from.
    pub original_url: Url,
    /// The URL we are downloading from.  Note that if we followed a redirect,
    /// this may be different from the original URL.
    pub updated_url: Option<Url>,
    /// The final path we are downloading to.
    pub destination: Destination,
    /// The total number of tries so far to download this file.
    pub tries: u64,
    /// The number of bytes actually transferred so far.
    pub bytes_transferred: u64,
    /// The size of the local file on disk, including any bytes downloaded.
    pub bytes: u64,
    /// The number of bytes transferred since the last time the progress
    /// handler was called.
    pub delta: u64,
    /// Cached information about the local file, either from reading the sidecar
    /// file, or fetched from the server.
    pub local_file_info: FileInfo,
    /// True if the download has been cancelled.
    pub cancelled: bool,
}

/// Whether the whole file is on disk: unknown when the remote length is
/// unknown.
pub open spec fn completeness(total: Option<u64>, bytes: u64) -> Option<bool> {
    match total {
        Some(len) => Some(bytes == len),
        None => None,
    }
}

impl ProgressHandle {
    /// The progress of a download that has `existing_file_length` bytes on
    /// disk already and has not been tried yet.
    pub fn new(
        original_url: Url,
        updated_url: Option<Url>,
        destination: Destination,
        local_file_info: FileInfo,
        existing_file_length: u64,
    ) -> (r: Self)
        ensures
            r.original_url == original_url,
            r.updated_url == updated_url,
            r.destination == destination,
            r.local_file_info == local_file_info,
            r.tries == 0,
            r.bytes_transferred == 0,
            r.bytes == existing_file_length,
            r.delta == 0,
            !r.cancelled,
    {
        ProgressHandle {
            original_url,
            updated_url,
            destination,
            tries: 0,
            bytes_transferred: 0,
            bytes: existing_file_length,
            delta: 0,
            local_file_info,
            cancelled: false,
        }
    }

    /// Reset progress and the local file information before restarting a
    /// download from scratch.  (The caller removes the sidecar file.)
    pub fn reset(&mut self)
        ensures
            final(self).bytes == 0,
            final(self).local_file_info@ == empty_info(),
            final(self).original_url == old(self).original_url,
            final(self).updated_url == old(self).updated_url,
            final(self).destination == old(self).destination,
            final(self).tries == old(self).tries,
            final(self).bytes_transferred == old(self).bytes_transferred,
            final(self).delta == old(self).delta,
            final(self).cancelled == old(self).cancelled,
    {
        self.bytes = 0;
        self.local_file_info = FileInfo::new();
    }

    /// Prepare for writing a response to the part file: unless it is appended
    /// to what is there, the file starts again from nothing; and nothing has
    /// been transferred since the progress handler was last called.
    pub fn start_transfer(&mut self, append: bool)
        ensures
            final(self).bytes == (if append {
                old(self).bytes
            } else {
                0
            }),
            final(self).delta == 0,
            final(self).local_file_info == old(self).local_file_info,
            final(self).original_url == old(self).original_url,
            final(self).updated_url == old(self).updated_url,
            final(self).destination == old(self).destination,
            final(self).tries == old(self).tries,
            final(self).bytes_transferred == old(self).bytes_transferred,
            final(self).cancelled == old(self).cancelled,
    {
        if !append {
            self.bytes = 0;
        }
        self.delta = 0;
    }

    /// Returns `Some(true)` if we have the entire file already downloaded,
    /// and `None` when the length of the remote file is unknown.
    pub fn is_complete(&self) -> (r: Option<bool>)
        ensures
            r == completeness(self.local_file_info.content_length, self.bytes),
    {
        match self.local_file_info.content_length {
            Some(len) => Some(self.bytes == len),
            None => None,
        }
    }

    /// Records a chunk of `len` bytes written to the file.
    pub fn record_chunk(&mut self, len: u64)
        requires
            old(self).bytes + len <= u64::MAX,
            old(self).bytes_transferred + len <= u64::MAX,
        ensures
            final(self).delta == len,
            final(self).bytes == old(self).bytes + len,
            final(self).bytes_transferred == old(self).bytes_transferred + len,
            final(self).tries == old(self).tries,
            final(self).local_file_info == old(self).local_file_info,
            final(self).cancelled == old(self).cancelled,
            final(self).destination == old(self).destination,
            final(self).original_url == old(self).original_url,
            final(self).updated_url == old(self).updated_url,
    {
        self.delta = len;
        self.bytes = self.bytes + len;
        self.bytes_transferred = self.bytes_transferred + len;
    }

    /// Returns the original URL we are downloading from.
    pub fn original_url(&self) -> (r: &Url)
        ensures
            *r == self.original_url,
    {
        &self.original_url
    }

    /// Returns the URL we are downloading from.  Note that if we followed a
    /// redirect, this may be different from the original URL.  If you are
    /// looking for the URL that was supplied by the user, see `original_url()`.
    pub fn url(&self) -> (r: &Url)
        ensures
            *r == match self.updated_url {
                Some(u) => u,
                None => self.original_url,
            },
    {
        match &self.updated_url {
            Some(u) => u,
            None => &self.original_url,
        }
    }

    /// Returns the final path we are downloading to.
    pub fn destination(&self) -> (r: &str)
        ensures
            r@ == self.destination.path@,
    {
        self.destination.path.as_str()
    }

    /// Returns the total number of tries so far to download this file.  Note that
    /// the retry count is reset every time we make progress downloading the file,
    /// so this number may be higher than the maximum number of retries allowed.
    pub fn tries(&self) -> (r: u64)
        ensures
            r == self.tries,
    {
        self.tries
    }

    /// Returns the number of bytes transferred since the last time the progress
    /// handler was called.
    pub fn delta(&self) -> (r: u64)
        ensures
            r == self.delta,
    {
        self.delta
    }

    /// Returns the size of the local file on disk, including any bytes downloaded
    /// in a previous partial download.
    pub fn bytes(&self) -> (r: u64)
        ensures
            r == self.bytes,
    {
        self.bytes
    }

    /// Returns the size of the file on the server, if known.
    pub fn total_bytes(&self) -> (r: Option<u64>)
        ensures
            r == self.local_file_info.content_length,
    {
        self.local_file_info.content_length
    }

    /// Cancel this download. This will cause the download to stop immediately.
    /// Any partially downloaded file will be left on disk.
    pub fn cancel(&mut self)
        ensures
            final(self).cancelled,
            final(self).bytes == old(self).bytes,
            final(self).tries == old(self).tries,
            final(self).delta == old(self).delta,
            final(self).bytes_transferred == old(self).bytes_transferred,
            final(self).local_file_info == old(self).local_file_info,
            final(self).destination == old(self).destination,
            final(self).original_url == old(self).original_url,
            final(self).updated_url == old(self).updated_url,
    {
        self.cancelled = true;
    }

    /// Return the etag for the file, if known.
    pub fn etag(&self) -> (r: Option<&str>)
        ensures
            opt_str_chars(r) == self.local_file_info@.etag,
    {
        match &self.local_file_info.etag {
            Some(s) => Some(s.as_str()),
            None => None,
        }
    }

    /// Return the last modified time for the file, if known.
    pub fn last_modified(&self) -> (r: Option<&str>)
        ensures
            opt_str_chars(r) == self.local_file_info@.last_modified,
    {
        match &self.local_file_info.last_modified {
            Some(s) => Some(s.as_str()),
            None => None,
        }
    }
}

} // verus!
