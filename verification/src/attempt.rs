//! The decisions of a download: whether to skip it, what to ask the server
//! for, how to read its answer, and what to do after a failed attempt.  The
//! caller performs the I/O and hands the outcomes back.
use http::HeaderMap;
use vstd::prelude::*;

use crate::error::{is_retryable, Error};
use crate::file_info::{opt_chars, FileInfo, FileInfoView};
use crate::headers::{etag, get_last_modified, header_text, parse_content_length};
use crate::progress::{completeness, ProgressHandle};
use crate::retry::{default_delay, default_delay_millis, is_file_changed, RetryHandle};
use crate::text::{decimal, parse_u64_spec, push_char, push_chars, u64_to_decimal};
use crate::time::whole_millis;

verus! {

/// True for a success status (2xx).
pub open spec fn is_success(status: u16) -> bool {
    200 <= status <= 299
}

/// The status of a `Range Not Satisfiable` answer.
pub const RANGE_NOT_SATISFIABLE: u16 = 416;

/// The status of a `Partial Content` answer.
pub const PARTIAL_CONTENT: u16 = 206;

/// True when the local file exists and is as long as the remote file.
pub fn should_skip(local_length: Option<u64>, remote_length: Option<u64>) -> (r: bool)
    ensures
        r == (local_length is Some && remote_length is Some && local_length == remote_length),
{
    match (local_length, remote_length) {
        (Some(local), Some(remote)) => local == remote,
        _ => false,
    }
}

/// The answer to a GET request is acceptable unless it is neither a success
/// nor a `416 Range Not Satisfiable`.
pub fn check_response_status(status: u16) -> (r: Result<(), Error>)
    ensures
        r is Ok <==> (is_success(status) || status == RANGE_NOT_SATISFIABLE),
        r matches Err(e) ==> e == (Error::UnexpectedStatus { status }),
{
    if !(200 <= status && status <= 299) && status != RANGE_NOT_SATISFIABLE {
        Err(Error::UnexpectedStatus { status })
    } else {
        Ok(())
    }
}

/// After a `416 Range Not Satisfiable`: we are done if the server's total
/// length is what we have on disk, and otherwise the file changed.
pub fn range_not_satisfiable(total: Option<u64>, bytes: u64) -> (r: Result<(), Error>)
    ensures
        r is Ok <==> total == Some(bytes),
        r matches Err(e) ==> e == (Error::FileChanged { description: "range not satisfiable" }),
{
    match total {
        Some(t) if t == bytes => Ok(()),
        _ => Err(Error::FileChanged { description: "range not satisfiable" }),
    }
}

/// True when the server answered with part of the file, to be appended.
pub fn is_partial_content(status: u16) -> (r: bool)
    ensures
        r == (status == PARTIAL_CONTENT),
{
    status == PARTIAL_CONTENT
}

/// The `Range` header value asking for everything from byte `bytes` on.
pub open spec fn range_value(bytes: u64) -> Seq<char> {
    seq!['b', 'y', 't', 'e', 's', '='] + decimal(bytes as nat) + seq!['-']
}

/// The validator sent in `If-Range`: the etag, else the last-modified time.
pub open spec fn if_range_value(info: FileInfoView) -> Option<Seq<char>> {
    match info.etag {
        Some(e) => Some(e),
        None => info.last_modified,
    }
}

/// The `Range` and `If-Range` header values to resume a download with, when
/// part of the file is on disk and we know a validator for it.
pub open spec fn resume_request(bytes: u64, info: FileInfoView) -> Option<(Seq<char>, Seq<char>)> {
    if bytes > 0 {
        match if_range_value(info) {
            Some(v) => Some((range_value(bytes), v)),
            None => None,
        }
    } else {
        None
    }
}

/// The `Range` and `If-Range` header values to resume the download with, if
/// any.
pub fn resume_headers(progress: &ProgressHandle) -> (r: Option<(String, String)>)
    ensures
        match r {
            Some((range, if_range)) => Some((range@, if_range@)),
            None => None,
        } == resume_request(progress.bytes, progress.local_file_info@),
{
    if progress.bytes > 0 {
        let validator = match &progress.local_file_info.etag {
            Some(e) => Some(e.clone()),
            None => match &progress.local_file_info.last_modified {
                Some(l) => Some(l.clone()),
                None => None,
            },
        };
        match validator {
            Some(if_range) => {
                let mut range = String::new();
                push_char(&mut range, 'b');
                push_char(&mut range, 'y');
                push_char(&mut range, 't');
                push_char(&mut range, 'e');
                push_char(&mut range, 's');
                push_char(&mut range, '=');
                let digits = u64_to_decimal(progress.bytes);
                push_chars(&mut range, digits.as_slice());
                push_char(&mut range, '-');
                assert(range@ =~= range_value(progress.bytes));
                Some((range, if_range))
            },
            None => None,
        }
    } else {
        None
    }
}

/// After calling the progress callback: fail with `Cancelled` if it
/// cancelled the download.
pub fn check_cancelled(progress: &ProgressHandle) -> (r: Result<(), Error>)
    ensures
        r is Ok <==> !progress.cancelled,
        r matches Err(e) ==> e == Error::Cancelled,
{
    if progress.cancelled {
        Err(Error::Cancelled)
    } else {
        Ok(())
    }
}

/// The length of the remote file that an answer tells: its content length,
/// or, for a partial answer, the bytes we already have plus its content
/// length.
pub open spec fn remote_length(status: u16, content_length: Option<u64>, bytes: u64) -> Option<u64> {
    match content_length {
        Some(len) => if status == PARTIAL_CONTENT {
            if bytes + len <= u64::MAX {
                Some((bytes + len) as u64)
            } else {
                None
            }
        } else {
            Some(len)
        },
        None => None,
    }
}

/// The information an answer gives about the remote file.
pub open spec fn response_info(status: u16, headers: HeaderMap, bytes: u64) -> FileInfoView {
    FileInfoView {
        content_length: remote_length(
            status,
            match header_text(headers, "content-length"@) {
                Some(v) => parse_u64_spec(v),
                None => None,
            },
            bytes,
        ),
        last_modified: header_text(headers, "last-modified"@),
        etag: header_text(headers, "etag"@),
    }
}

/// An owned copy of an optional string slice.
fn to_owned_opt(s: Option<&str>) -> (r: Option<String>)
    ensures
        opt_chars(r) == crate::file_info::opt_str_chars(s),
{
    match s {
        Some(s) => Some(s.to_owned()),
        None => None,
    }
}

impl FileInfo {
    /// The information about the remote file in an answer with `status` and
    /// `headers`, when `bytes` bytes are already on disk.
    pub fn from_response(status: u16, headers: &HeaderMap, bytes: u64) -> (r: FileInfo)
        ensures
            r@ == response_info(status, *headers, bytes),
    {
        let content_length = match parse_content_length(headers) {
            Some(len) => if status == PARTIAL_CONTENT {
                bytes.checked_add(len)
            } else {
                Some(len)
            },
            None => None,
        };
        FileInfo {
            content_length,
            last_modified: to_owned_opt(get_last_modified(headers)),
            etag: to_owned_opt(etag(headers)),
        }
    }
}

/// True when both sides know a value and the values differ.
pub open spec fn known_and_different<T>(a: Option<T>, b: Option<T>) -> bool {
    a is Some && b is Some && a != b
}

/// Why the remote file differs from the one part of which is on disk, if it
/// does: a known etag, last-modified time or length that differs.
pub open spec fn change_description(local: FileInfoView, remote: FileInfoView) -> Option<&'static str> {
    if known_and_different(local.etag, remote.etag) {
        Some("etag changed")
    } else if known_and_different(local.last_modified, remote.last_modified) {
        Some("last modified changed")
    } else if known_and_different(local.content_length, remote.content_length) {
        Some("length changed")
    } else {
        None
    }
}

/// True when the two optional strings are both known and differ.
fn strings_differ(a: &Option<String>, b: &Option<String>) -> (r: bool)
    ensures
        r == known_and_different(opt_chars(*a), opt_chars(*b)),
{
    match (a, b) {
        (Some(a), Some(b)) => !crate::text::str_equal(a.as_str(), b.as_str()),
        _ => false,
    }
}

/// Before appending to the part file: fail with `FileChanged` if the remote
/// file is not the one part of which is on disk.
pub fn verify_unchanged(local: &FileInfo, remote: &FileInfo) -> (r: Result<(), Error>)
    ensures
        r is Ok <==> change_description(local@, remote@) is None,
        r matches Err(e) ==> (e matches Error::FileChanged { description } && Some(description)
            == change_description(local@, remote@)),
{
    if strings_differ(&local.etag, &remote.etag) {
        Err(Error::FileChanged { description: "etag changed" })
    } else if strings_differ(&local.last_modified, &remote.last_modified) {
        Err(Error::FileChanged { description: "last modified changed" })
    } else if local.content_length.is_some() && remote.content_length.is_some()
        && local.content_length != remote.content_length {
        Err(Error::FileChanged { description: "length changed" })
    } else {
        Ok(())
    }
}

/// The retry bookkeeping of one download.
pub struct DownloadLoop {
    /// Consecutive retries without making progress.
    pub retries: u64,
    /// The most consecutive retries allowed; `None` retries forever.
    pub max_retries: Option<u64>,
}

/// What to do at the top of the download loop.
pub enum LoopStep {
    /// The whole file is on disk: finish the download.
    Finished,
    /// Make another attempt; it started with this many bytes transferred.
    Attempt { bytes_before: u64 },
}

/// What to do after a failed attempt.
pub enum FailureAction {
    /// Fail the download with this error.
    GiveUp(Error),
    /// Retry: if `restart`, the file changed on the server and the part file
    /// must be truncated and the progress reset first.  The handle goes to the
    /// retry callback, which may change the delay or cancel.
    Retry { restart: bool, handle: RetryHandle },
}

/// The retry count after an attempt: reset when the attempt made progress.
pub open spec fn retries_after(retries: u64, made_progress: bool) -> u64 {
    if made_progress {
        0
    } else {
        retries
    }
}

/// True when `retries` consecutive retries are more than allowed.
pub open spec fn too_many_retries(retries: u64, max_retries: Option<u64>) -> bool {
    match max_retries {
        Some(m) => retries > m,
        None => false,
    }
}

/// Law: with no maximum number of retries, an error that can be retried is
/// always retried.
pub proof fn law_retry_forever_without_limit(retries: u64)
    ensures
        !too_many_retries(retries, None),
{
}

/// Law: an attempt that made progress resets the retry count, so a download
/// that keeps making progress is never given up for too many retries (with
/// any maximum).
pub proof fn law_progress_resets_retries(retries: u64, max_retries: u64)
    ensures
        retries_after(retries, true) == 0,
        !too_many_retries(retries_after(retries, true), Some(max_retries)),
{
}

/// Law: with a maximum of `max_retries`, a retryable failure that made no
/// progress gives up exactly when the consecutive-retry count is above the
/// maximum (with the default of five, after the sixth attempt), and a failure
/// keeps the count it had.
pub proof fn law_give_up_after_max_retries(retries: u64, max_retries: u64)
    ensures
        retries_after(retries, false) == retries,
        too_many_retries(retries_after(retries, false), Some(max_retries)) <==> retries
            > max_retries,
{
}

/// Law: a download resumes from the bytes on disk whenever part of the file
/// is there and a validator is known: it asks for `bytes=N-`, and sends the
/// etag as `If-Range` when there is one, else the last-modified time.  With
/// nothing on disk, or no validator, the whole file is asked for.
pub proof fn law_resume_request(bytes: u64, info: FileInfoView)
    ensures
        bytes == 0 ==> resume_request(bytes, info) is None,
        bytes > 0 ==> (info.etag matches Some(e) ==> resume_request(bytes, info) == Some(
            ("bytes="@ + decimal(bytes as nat) + "-"@, e),
        )),
        bytes > 0 && info.etag is None ==> (info.last_modified matches Some(l)
            ==> resume_request(bytes, info) == Some(("bytes="@ + decimal(bytes as nat) + "-"@, l))),
        info.etag is None && info.last_modified is None ==> resume_request(bytes, info) is None,
{
    reveal_strlit("bytes=");
    reveal_strlit("-");
    assert(range_value(bytes) =~= "bytes="@ + decimal(bytes as nat) + "-"@);
}

/// Law: client errors (4xx statuses) are never retried; server errors (5xx)
/// always are.
pub proof fn law_status_retries(status: u16)
    ensures
        400 <= status < 500 ==> !is_retryable(Error::UnexpectedStatus { status }),
        500 <= status ==> is_retryable(Error::UnexpectedStatus { status }),
{
}

impl DownloadLoop {
    /// The bookkeeping before the first attempt.
    pub fn new(max_retries: Option<u64>) -> (r: Self)
        ensures
            r.retries == 0,
            r.max_retries == max_retries,
    {
        DownloadLoop { retries: 0, max_retries }
    }

    /// The top of the download loop: finish when the whole file is on disk,
    /// else count one more try and one more retry and make an attempt.
    pub fn next_step(&mut self, progress: &mut ProgressHandle) -> (r: LoopStep)
        requires
            old(progress).tries < u64::MAX,
            old(self).retries < u64::MAX,
        ensures
            ({
                let complete = completeness(
                    old(progress).local_file_info.content_length,
                    old(progress).bytes,
                ) == Some(true);
                &&& complete ==> r is Finished && *final(progress) == *old(progress)
                    && *final(self) == *old(self)
                &&& !complete ==> {
                    &&& r == (LoopStep::Attempt { bytes_before: old(progress).bytes_transferred })
                    &&& final(progress).tries == old(progress).tries + 1
                    &&& final(self).retries == old(self).retries + 1
                    &&& final(self).max_retries == old(self).max_retries
                    &&& *final(progress) == ProgressHandle {
                        tries: final(progress).tries,
                        ..*old(progress)
                    }
                }
            }),
    {
        if progress.is_complete() == Some(true) {
            // We already have the whole file!
            return LoopStep::Finished;
        }
        progress.tries = progress.tries + 1;
        self.retries = self.retries + 1;
        LoopStep::Attempt { bytes_before: progress.bytes_transferred }
    }

    /// After a failed attempt that started with `bytes_before` bytes
    /// transferred: give up on errors that cannot be retried and after too
    /// many retries without progress; else retry, after the default delay.
    pub fn after_failure(&mut self, progress: &ProgressHandle, bytes_before: u64, error: Error) -> (r:
        FailureAction)
        ensures
            final(self).max_retries == old(self).max_retries,
            !is_retryable(error) ==> r == FailureAction::GiveUp(error) && final(self).retries
                == old(self).retries,
            is_retryable(error) ==> final(self).retries == retries_after(
                old(self).retries,
                progress.bytes_transferred > bytes_before,
            ),
            is_retryable(error) && too_many_retries(final(self).retries, old(self).max_retries)
                ==> r == FailureAction::GiveUp(error),
            is_retryable(error) && !too_many_retries(final(self).retries, old(self).max_retries)
                ==> (r matches FailureAction::Retry { restart, handle } && restart
                == is_file_changed(error) && handle.spec_tries() == progress.tries
                && handle.spec_retries() == final(self).retries && handle.spec_error() == error
                && !handle.spec_cancelled() && whole_millis(
                handle.spec_delay(),
                default_delay_millis(error, final(self).retries) as int,
            )),
    {
        if !error.can_retry() {
            return FailureAction::GiveUp(error);
        }
        if progress.bytes_transferred > bytes_before {
            // We made some progress - reset the retry counter.
            self.retries = 0;
        }
        if let Some(max_retries) = self.max_retries {
            if self.retries > max_retries {
                return FailureAction::GiveUp(error);
            }
        }
        let restart = matches!(error, Error::FileChanged { .. });
        let delay = default_delay(&error, self.retries);
        FailureAction::Retry {
            restart,
            handle: RetryHandle::new(progress.tries, self.retries, delay, error),
        }
    }
}

} // verus!
