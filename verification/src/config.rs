//! Checks on the configuration a client is built with, and small
//! conversions the download steps need.
use vstd::prelude::*;

use crate::error::Error;
use crate::file_info::FileInfo;

verus! {

broadcast use vstd::string::group_string_axioms;

/// The message for a rate limit of zero.
pub open spec fn zero_rate_message() -> Seq<char> {
    "max_bytes_per_second must be greater than 0"@
}

/// Checks a maximum download rate: a limit of zero is refused, since nothing
/// could ever be downloaded; no limit and any positive limit are accepted.
pub fn validate_max_bytes_per_second(max: Option<u64>) -> (r: Result<Option<u64>, Error>)
    ensures
        max == Some(0u64) ==> (r matches Err(Error::InvalidConfig { message }) && message@
            == zero_rate_message()),
        max != Some(0u64) ==> r == Ok::<Option<u64>, Error>(max),
{
    if max == Some(0u64) {
        Err(Error::InvalidConfig {
            message: "max_bytes_per_second must be greater than 0".to_owned(),
        })
    } else {
        Ok(max)
    }
}

/// Takes a maximum download rate into a builder's settings: a limit of zero
/// is refused and its error kept for later, in place of any kept before; no
/// limit or a positive one is taken.
pub fn configure_max_bytes_per_second(limit: &mut Option<u64>, kept: &mut Option<Error>, max: Option<
    u64,
>)
    ensures
        max == Some(0u64) ==> *final(limit) == *old(limit),
        max == Some(0u64) ==> (*final(kept) matches Some(Error::InvalidConfig { message })
            && message@ == zero_rate_message()),
        max != Some(0u64) ==> *final(limit) == max,
        max != Some(0u64) ==> *final(kept) == *old(kept),
{
    match validate_max_bytes_per_second(max) {
        Ok(m) => {
            *limit = m;
        },
        Err(e) => {
            *kept = Some(e);
        },
    }
}

/// What a builder or a download yields once its result is asked for: the
/// error kept while it was configured, if there is one.
pub fn kept_error(kept: Option<Error>) -> (r: Result<(), Error>)
    ensures
        r == match kept {
            Some(e) => Err::<(), Error>(e),
            None => Ok(()),
        },
{
    match kept {
        Some(e) => Err(e),
        None => Ok(()),
    }
}

/// True when the caller gave no validator for the file (neither an etag nor
/// a last-modified time), so the one saved in the sidecar file should be used.
pub fn should_load_sidecar(info: &FileInfo) -> (r: bool)
    ensures
        r == (info.etag is None && info.last_modified is None),
{
    info.etag.is_none() && info.last_modified.is_none()
}

/// A time given in milliseconds from the Unix epoch, as a direction and a
/// distance: `(true, m)` for `m` milliseconds after it, `(false, m)` for `m`
/// milliseconds before it.
pub fn epoch_offset(millis: i64) -> (r: (bool, u64))
    requires
        millis != i64::MIN,
    ensures
        r.0 == (millis >= 0),
        r.0 ==> r.1 == millis,
        !r.0 ==> r.1 == -millis,
{
    if millis >= 0 {
        (true, millis as u64)
    } else {
        (false, (-millis) as u64)
    }
}

} // verus!
