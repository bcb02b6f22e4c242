//! Conversion of the values a caller may name a download by into a URL.
use http::Uri;
use url::Url;
use vstd::prelude::*;

use crate::error::Error;

verus! {

/// `url::Url`, a parsed URL, carried as an opaque value.
#[verifier::external_type_specification]
#[verifier::external_body]
pub struct ExUrl(Url);

/// `http::Uri`, carried as an opaque value.
#[verifier::external_type_specification]
#[verifier::external_body]
pub struct ExUri(Uri);

/// What `Url::parse` makes of `s`: the URL, or the message of the error it
/// refuses `s` with.  It depends on `s` alone.
pub uninterp spec fn url_parse(s: Seq<char>) -> Result<Url, Seq<char>>;

/// True when `r` is what the library reports for the text `s`: the URL that
/// `Url::parse` makes of it, or an `InvalidUrl` error with the parser's
/// message.
pub open spec fn parse_outcome(r: Result<Url, Error>, s: Seq<char>) -> bool {
    match url_parse(s) {
        Ok(u) => r == Ok::<Url, Error>(u),
        Err(m) => r matches Err(Error::InvalidUrl { cause }) && cause@ == m,
    }
}

/// A parse result with its error message taken by its characters.
pub open spec fn message_view(r: Result<Url, String>) -> Result<Url, Seq<char>> {
    match r {
        Ok(u) => Ok(u),
        Err(m) => Err(m@),
    }
}

/// Parses `s` as an absolute URL (`Url::parse`), turning a refusal into its
/// message.
#[verifier::external_body]
pub(crate) fn parse_url(s: &str) -> (r: Result<Url, String>)
    ensures
        message_view(r) == url_parse(s@),
{
    Url::parse(s).map_err(|e| e.to_string())
}

/// A copy of `u` (`Url::clone`).
#[verifier::external_body]
pub(crate) fn clone_url(u: &Url) -> (r: Url)
    ensures
        r == *u,
{
    u.clone()
}

/// The path of a URL as `Url::path` gives it: a function of the URL alone.
pub uninterp spec fn url_path_of(u: Url) -> Seq<char>;

/// The path of `u` (`Url::path`).
#[verifier::external_body]
pub(crate) fn url_path(u: &Url) -> (r: &str)
    ensures
        r@ == url_path_of(*u),
{
    u.path()
}

/// The text that `Uri`'s `Display` impl writes for a URI: its scheme,
/// authority, path and query as they were parsed, a function of the URI alone.
pub uninterp spec fn uri_display(u: Uri) -> Seq<char>;

/// The text of `u` (`Uri` as `Display` writes it, through `to_string`).
#[verifier::external_body]
fn uri_text(u: &Uri) -> (r: String)
    ensures
        r@ == uri_display(*u),
{
    u.to_string()
}

/// Parses `s` into a URL, or the error the library reports for it.
pub fn parse_str_url(s: &str) -> (r: Result<Url, Error>)
    ensures
        parse_outcome(r, s@),
{
    match parse_url(s) {
        Ok(u) => Ok(u),
        Err(cause) => Err(Error::InvalidUrl { cause }),
    }
}

/// A value that a download can be created from.
pub trait IntoUrlSealed {
    /// Converts the value into a URL, or an `InvalidUrl` error.
    fn into_url(self) -> Result<Url, Error>;
}

/// A trait for converting a type into a `url::Url`, heavily inspired by
/// `reqwest::IntoUrl`.
pub trait IntoUrl: IntoUrlSealed {}

impl IntoUrl for &str {}
impl IntoUrl for &String {}
impl IntoUrl for String {}
impl IntoUrl for Url {}
impl IntoUrl for &Url {}
impl IntoUrl for Uri {}
impl IntoUrl for &Uri {}

impl IntoUrlSealed for &str {
    fn into_url(self) -> (r: Result<Url, Error>)
        ensures
            parse_outcome(r, self@),
    {
        parse_str_url(self)
    }
}

impl IntoUrlSealed for &String {
    fn into_url(self) -> (r: Result<Url, Error>)
        ensures
            parse_outcome(r, self@),
    {
        parse_str_url(self.as_str())
    }
}

impl IntoUrlSealed for String {
    fn into_url(self) -> (r: Result<Url, Error>)
        ensures
            parse_outcome(r, self@),
    {
        parse_str_url(self.as_str())
    }
}

impl IntoUrlSealed for Url {
    fn into_url(self) -> (r: Result<Url, Error>)
        ensures
            r == Ok::<Url, Error>(self),
    {
        Ok(self)
    }
}

impl IntoUrlSealed for &Url {
    fn into_url(self) -> (r: Result<Url, Error>)
        ensures
            r == Ok::<Url, Error>(*self),
    {
        Ok(clone_url(self))
    }
}

impl IntoUrlSealed for Uri {
    fn into_url(self) -> (r: Result<Url, Error>)
        ensures
            parse_outcome(r, uri_display(self)),
    {
        let text = uri_text(&self);
        parse_str_url(text.as_str())
    }
}

impl IntoUrlSealed for &Uri {
    fn into_url(self) -> (r: Result<Url, Error>)
        ensures
            parse_outcome(r, uri_display(*self)),
    {
        let text = uri_text(self);
        parse_str_url(text.as_str())
    }
}

} // verus!
