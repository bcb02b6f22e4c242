//! Small decisions around sending a request: how a failed request is named
//! in its error, and whether the answer came from another URL.
use vstd::prelude::*;

use crate::text::str_equal;

verus! {

/// The step named in the error of a failed request with method `method`.
pub open spec fn request_step(method: Seq<char>) -> Seq<char> {
    if method == "GET"@ {
        "GET"@
    } else if method == "HEAD"@ {
        "HEAD"@
    } else {
        "REQUEST"@
    }
}

/// The step named in the error of a failed request: the method for `GET`
/// and `HEAD` requests, `REQUEST` for any other.
pub fn request_step_name(method: &str) -> (r: &'static str)
    ensures
        r@ == request_step(method@),
{
    if str_equal(method, "GET") {
        "GET"
    } else if str_equal(method, "HEAD") {
        "HEAD"
    } else {
        "REQUEST"
    }
}

/// True when the answer came from another URL than the one requested (the
/// request was redirected): the two URLs' texts differ.
pub fn was_redirected(requested: &str, fetched: &str) -> (r: bool)
    ensures
        r == (requested@ != fetched@),
{
    !str_equal(requested, fetched)
}

} // verus!
