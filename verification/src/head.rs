//! Information about a URL fetched with a HEAD request.
use http::HeaderMap;
use url::Url;
use vstd::prelude::*;

use crate::attempt::{is_success, response_info};
use crate::error::Error;
use crate::file_info::{opt_chars, FileInfo};
use crate::headers::{disposition_filename, header_text, parse_content_disposition};
use crate::into_url::{url_path, url_path_of};
use crate::paths::{filename_from_path, last_segment};

verus! {

broadcast use vstd::string::group_string_axioms;

/// Information about a URL fetched with a HEAD request.
pub struct Head {
    pub updated_url: Option<Url>,
    pub remote_file_info: Option<FileInfo>,
    pub filename: Option<String>,
}

/// The file name in a `Content-Disposition` header, if there is one.
pub open spec fn disposition_of(headers: HeaderMap) -> Option<Seq<char>> {
    match header_text(headers, "content-disposition"@) {
        Some(v) => disposition_filename(v),
        None => None,
    }
}

impl Head {
    /// The information in the answer to a HEAD request for `url`: an error
    /// unless the status is a success; otherwise what the headers say of the
    /// remote file, and its name, from `Content-Disposition` or else from the
    /// last segment of the URL path.
    pub fn create_inner(status: u16, headers: &HeaderMap, url: &Url, updated_url: Option<Url>) -> (r:
        Result<Self, Error>)
        ensures
            !is_success(status) ==> r == Err::<Head, Error>(Error::UnexpectedStatus { status }),
            is_success(status) ==> r is Ok,
            r matches Ok(head) ==> head.updated_url == updated_url,
            r matches Ok(head) ==> (head.remote_file_info matches Some(info) && info@
                == response_info(status, *headers, 0)),
            r matches Ok(head) ==> (disposition_of(*headers) is Some ==> opt_chars(head.filename)
                == disposition_of(*headers)),
            r matches Ok(head) ==> (disposition_of(*headers) is None ==> opt_chars(head.filename)
                == last_segment(url_path_of(*url))),
    {
        if !(200 <= status && status <= 299) {
            return Err(Error::UnexpectedStatus { status });
        }
        let remote_file_info = FileInfo::from_response(status, headers, 0);
        // Get the filename from the server, or else from the URL.
        let filename = match parse_content_disposition(headers) {
            Some(std::borrow::Cow::Owned(name)) => Some(name),
            Some(std::borrow::Cow::Borrowed(name)) => Some(name.to_owned()),
            None => filename_from_path(url_path(url)),
        };
        Ok(Head { updated_url, remote_file_info: Some(remote_file_info), filename })
    }

    /// Return the remote filename, or `file` when it is unknown.
    pub fn get_remote_file_name(&self) -> (r: &str)
        ensures
            r@ == match self.filename {
                Some(name) => name@,
                None => "file"@,
            },
    {
        match &self.filename {
            Some(name) => name.as_str(),
            None => "file",
        }
    }

    /// Try to get the length of the remote file.  This may return None if the
    /// server doesn't provide a Content-Length header.
    pub fn get_remote_file_length(&self) -> (r: Option<u64>)
        ensures
            r == match self.remote_file_info {
                Some(info) => info.content_length,
                None => None,
            },
    {
        match &self.remote_file_info {
            Some(info) => info.content_length,
            None => None,
        }
    }

    /// Information that knows nothing.
    pub fn empty() -> (r: Self)
        ensures
            r.updated_url is None,
            r.remote_file_info is None,
            r.filename is None,
    {
        Head { updated_url: None, remote_file_info: None, filename: None }
    }
}

impl Default for Head {
    fn default() -> (r: Self)
        ensures
            r.updated_url is None,
            r.remote_file_info is None,
            r.filename is None,
    {
        Head::empty()
    }
}

} // verus!
