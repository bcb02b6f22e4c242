//! Reading the response headers that matter to a download.
use std::borrow::Cow;

use http::{HeaderMap, HeaderValue};
use vstd::prelude::*;

use crate::file_info::{opt_chars, opt_str_chars};
use crate::text::{
    find_char, lemma_find_char, parse_u64, parse_u64_spec, string_from_chars, sub_chars,
    to_chars,
};

verus! {

broadcast use vstd::string::group_string_axioms;

/// `http::HeaderMap`, the headers of a response, carried as an opaque value.
#[verifier::external_type_specification]
#[verifier::external_body]
#[verifier::reject_recursive_types(T)]
pub struct ExHeaderMap<T>(HeaderMap<T>);

/// `http::HeaderValue`, one header value, carried as an opaque value.
#[verifier::external_type_specification]
#[verifier::external_body]
pub struct ExHeaderValue(HeaderValue);

/// The contents of a header map: for each (lower-case) header name present,
/// its values in the order they were added, as bytes.
pub uninterp spec fn header_values(h: HeaderMap) -> Map<Seq<char>, Seq<Seq<u8>>>;

/// The bytes of a header value.
pub uninterp spec fn header_value_bytes(v: HeaderValue) -> Seq<u8>;

/// True for a header name written the way `HeaderMap` stores names: lower
/// case letters, digits and dashes.
pub open spec fn lowercase_name(name: Seq<char>) -> bool {
    &&& name.len() > 0
    &&& forall|i: int|
        0 <= i < name.len() ==> ('a' <= #[trigger] name[i] <= 'z' || '0' <= name[i] <= '9'
            || name[i] == '-')
}

/// True when every byte is visible ASCII or a tab, as `HeaderValue::to_str`
/// demands.
pub open spec fn visible_ascii(bytes: Seq<u8>) -> bool {
    forall|i: int| 0 <= i < bytes.len() ==> (32 <= #[trigger] bytes[i] < 127 || bytes[i] == 9)
}

/// The characters of ASCII bytes.
pub open spec fn ascii_chars(bytes: Seq<u8>) -> Seq<char> {
    bytes.map_values(|b: u8| b as char)
}

/// The first value of header `name` as text: none when the header is absent
/// or its first value is not visible ASCII.
pub open spec fn header_text(h: HeaderMap, name: Seq<char>) -> Option<Seq<char>> {
    if header_values(h).dom().contains(name) {
        let bytes = header_values(h)[name][0];
        if visible_ascii(bytes) {
            Some(ascii_chars(bytes))
        } else {
            None
        }
    } else {
        None
    }
}

/// The first value of header `name` (`HeaderMap::get`).  The map holds a
/// non-empty list of values for every name it holds, and `get` returns the
/// first.
#[verifier::external_body]
fn header_get<'a>(h: &'a HeaderMap, name: &str) -> (r: Option<&'a HeaderValue>)
    requires
        lowercase_name(name@),
    ensures
        r is Some <==> header_values(*h).dom().contains(name@),
        r matches Some(v) ==> header_values(*h)[name@].len() > 0 && header_value_bytes(*v)
            == header_values(*h)[name@][0],
{
    h.get(name)
}

/// The value as text (`HeaderValue::to_str`): it succeeds exactly when every
/// byte is visible ASCII or a tab, and then holds those bytes as characters.
#[verifier::external_body]
fn header_value_text(v: &HeaderValue) -> (r: Option<&str>)
    ensures
        r is Some <==> visible_ascii(header_value_bytes(*v)),
        r matches Some(s) ==> s@ == ascii_chars(header_value_bytes(*v)),
{
    v.to_str().ok()
}

/// Percent-decoding of `s` as UTF-8, as `urlencoding::decode` does it.
pub uninterp spec fn percent_decoded(s: Seq<char>) -> Option<Seq<char>>;

/// Percent-decodes `s` (`urlencoding::decode`, its error dropped).  The
/// result depends on `s` alone; text without `%` comes back unchanged.
#[verifier::external_body]
fn percent_decode(s: &str) -> (r: Option<String>)
    ensures
        opt_chars(r) == percent_decoded(s@),
        (r is Some && r->0@ == s@) || s@.contains('%'),
{
    urlencoding::decode(s).ok().map(|d| d.into_owned())
}

/// Retrieves a header value as a string slice.
fn get_header_str<'a>(headers: &'a HeaderMap, name: &str) -> (r: Option<&'a str>)
    requires
        lowercase_name(name@),
    ensures
        opt_str_chars(r) == header_text(*headers, name@),
{
    match header_get(headers, name) {
        Some(value) => header_value_text(value),
        None => None,
    }
}

proof fn lemma_name_content_length()
    ensures
        lowercase_name("content-length"@),
{
    reveal_strlit("content-length");
}

proof fn lemma_name_content_disposition()
    ensures
        lowercase_name("content-disposition"@),
{
    reveal_strlit("content-disposition");
}

proof fn lemma_name_etag()
    ensures
        lowercase_name("etag"@),
{
    reveal_strlit("etag");
}

proof fn lemma_name_last_modified()
    ensures
        lowercase_name("last-modified"@),
{
    reveal_strlit("last-modified");
}

/// Parses the `Content-Length` header value into a `u64`.
pub fn parse_content_length(headers: &HeaderMap) -> (r: Option<u64>)
    ensures
        r == match header_text(*headers, "content-length"@) {
            Some(v) => parse_u64_spec(v),
            None => None,
        },
{
    proof {
        lemma_name_content_length();
    }
    match get_header_str(headers, "content-length") {
        Some(v) => parse_content_length_str(v),
        None => None,
    }
}

/// Parses a `Content-Length` value as `str::parse::<u64>` does.
pub fn parse_content_length_str(value: &str) -> (r: Option<u64>)
    ensures
        r == parse_u64_spec(value@),
{
    let chars = to_chars(value);
    parse_u64(chars.as_slice())
}

/// True for the characters `char::is_whitespace` accepts: those with the
/// Unicode `White_Space` property.
pub open spec fn is_whitespace(c: char) -> bool {
    ||| '\t' <= c <= '\r'
    ||| c == ' '
    ||| c == '\u{85}'
    ||| c == '\u{A0}'
    ||| c == '\u{1680}'
    ||| '\u{2000}' <= c <= '\u{200A}'
    ||| c == '\u{2028}'
    ||| c == '\u{2029}'
    ||| c == '\u{202F}'
    ||| c == '\u{205F}'
    ||| c == '\u{3000}'
}

/// `s` without the leading characters that satisfy `p`.
pub open spec fn drop_leading(s: Seq<char>, p: spec_fn(char) -> bool) -> Seq<char>
    decreases s.len(),
{
    if s.len() > 0 && p(s[0]) {
        drop_leading(s.drop_first(), p)
    } else {
        s
    }
}

/// `s` without the trailing characters that satisfy `p`.
pub open spec fn drop_trailing(s: Seq<char>, p: spec_fn(char) -> bool) -> Seq<char>
    decreases s.len(),
{
    if s.len() > 0 && p(s.last()) {
        drop_trailing(s.drop_last(), p)
    } else {
        s
    }
}

/// `s` without leading and trailing characters that satisfy `p`.
pub open spec fn trim_by(s: Seq<char>, p: spec_fn(char) -> bool) -> Seq<char> {
    drop_trailing(drop_leading(s, p), p)
}

/// `str::trim`: without leading and trailing whitespace.
pub open spec fn trimmed(s: Seq<char>) -> Seq<char> {
    trim_by(s, |c: char| is_whitespace(c))
}

/// `str::trim_matches('"')`: without leading and trailing double quotes.
pub open spec fn unquoted(s: Seq<char>) -> Seq<char> {
    trim_by(s, |c: char| c == '"')
}

/// True when `s` starts with `p`.
pub open spec fn starts_with(s: Seq<char>, p: Seq<char>) -> bool {
    p.len() <= s.len() && s.take(p.len() as int) == p
}

/// `str::trim_start_matches(p)`: `s` without every repetition of `p` at its
/// start.
pub open spec fn strip_prefixes(s: Seq<char>, p: Seq<char>) -> Seq<char>
    decreases s.len(),
{
    if p.len() > 0 && starts_with(s, p) {
        strip_prefixes(s.skip(p.len() as int), p)
    } else {
        s
    }
}

/// The prefix of a plain file name parameter.
pub open spec fn plain_prefix() -> Seq<char> {
    "filename="@
}

/// The prefix of an encoded file name parameter.
pub open spec fn encoded_prefix() -> Seq<char> {
    "filename*=UTF-8''"@
}

/// The file name after one `;`-separated part of the header: a plain
/// `filename=` part is taken (unquoted) only when no name was found yet, an
/// encoded `filename*=UTF-8''` part is percent-decoded (and gives no name when
/// it does not decode), and any other part leaves the name as it was.
pub open spec fn disposition_step(found: Option<Seq<char>>, part: Seq<char>) -> Option<Seq<char>> {
    let t = trimmed(part);
    if starts_with(t, plain_prefix()) && found is None {
        Some(unquoted(strip_prefixes(t, plain_prefix())))
    } else if starts_with(t, encoded_prefix()) {
        percent_decoded(strip_prefixes(t, encoded_prefix()))
    } else {
        found
    }
}

/// The file name after the `;`-separated parts of `s`, in order (`str::split`
/// gives a last, possibly empty, part after the last `;`).
pub open spec fn disposition_parts(found: Option<Seq<char>>, s: Seq<char>) -> Option<Seq<char>>
    decreases s.len(),
{
    match find_char(s, ';') {
        Some(i) => if 0 <= i < s.len() {
            disposition_parts(disposition_step(found, s.take(i)), s.skip(i + 1))
        } else {
            None
        },
        None => disposition_step(found, s),
    }
}

/// The file name that a `Content-Disposition` value gives.
pub open spec fn disposition_filename(value: Seq<char>) -> Option<Seq<char>> {
    disposition_parts(None, value)
}

proof fn lemma_drop_leading(s: Seq<char>, p: spec_fn(char) -> bool, k: int)
    requires
        0 <= k <= s.len(),
        forall|i: int| 0 <= i < k ==> p(#[trigger] s[i]),
        k == s.len() || !p(s[k]),
    ensures
        drop_leading(s, p) == s.skip(k),
    decreases k,
{
    if k == 0 {
        assert(s.skip(0) =~= s);
    } else {
        lemma_drop_leading(s.drop_first(), p, k - 1);
        assert(s.drop_first().skip(k - 1) =~= s.skip(k));
    }
}

proof fn lemma_drop_trailing(s: Seq<char>, p: spec_fn(char) -> bool, k: int)
    requires
        0 <= k <= s.len(),
        forall|i: int| k <= i < s.len() ==> p(#[trigger] s[i]),
        k == 0 || !p(s[k - 1]),
    ensures
        drop_trailing(s, p) == s.take(k),
    decreases s.len() - k,
{
    if k == s.len() {
        assert(s.take(k) =~= s);
    } else {
        lemma_drop_trailing(s.drop_last(), p, k);
        assert(s.drop_last().take(k) =~= s.take(k));
    }
}

/// True when `c` is whitespace (`char::is_whitespace`).
fn is_whitespace_char(c: char) -> (r: bool)
    ensures
        r == is_whitespace(c),
{
    ('\t' <= c && c <= '\r') || c == ' ' || c == '\u{85}' || c == '\u{A0}' || c == '\u{1680}' || (
    '\u{2000}' <= c && c <= '\u{200A}') || c == '\u{2028}' || c == '\u{2029}' || c == '\u{202F}'
        || c == '\u{205F}' || c == '\u{3000}'
}

/// The characters of `s` without leading and trailing whitespace.
fn trim_whitespace(s: &[char]) -> (r: Vec<char>)
    ensures
        r@ == trimmed(s@),
{
    let ghost p = |c: char| is_whitespace(c);
    let mut start: usize = 0;
    while start < s.len() && is_whitespace_char(s[start])
        invariant
            start <= s.len(),
            p == (|c: char| is_whitespace(c)),
            forall|i: int| 0 <= i < start ==> p(#[trigger] s@[i]),
        decreases s.len() - start,
    {
        start = start + 1;
    }
    proof {
        lemma_drop_leading(s@, p, start as int);
    }
    let ghost rest = s@.skip(start as int);
    let mut end: usize = s.len();
    while end > start && is_whitespace_char(s[end - 1])
        invariant
            start <= end <= s.len(),
            rest == s@.skip(start as int),
            p == (|c: char| is_whitespace(c)),
            forall|i: int| end - start <= i < rest.len() ==> p(#[trigger] rest[i]),
        decreases end,
    {
        end = end - 1;
    }
    proof {
        lemma_drop_trailing(rest, p, end - start);
        assert(rest.take(end - start) =~= s@.subrange(start as int, end as int));
    }
    sub_chars(s, start, end)
}

/// The characters of `s` without leading and trailing double quotes.
fn trim_quotes(s: &[char]) -> (r: Vec<char>)
    ensures
        r@ == unquoted(s@),
{
    let ghost p = |c: char| c == '"';
    let mut start: usize = 0;
    while start < s.len() && s[start] == '"'
        invariant
            start <= s.len(),
            p == (|c: char| c == '"'),
            forall|i: int| 0 <= i < start ==> p(#[trigger] s@[i]),
        decreases s.len() - start,
    {
        start = start + 1;
    }
    proof {
        lemma_drop_leading(s@, p, start as int);
    }
    let ghost rest = s@.skip(start as int);
    let mut end: usize = s.len();
    while end > start && s[end - 1] == '"'
        invariant
            start <= end <= s.len(),
            rest == s@.skip(start as int),
            p == (|c: char| c == '"'),
            forall|i: int| end - start <= i < rest.len() ==> p(#[trigger] rest[i]),
        decreases end,
    {
        end = end - 1;
    }
    proof {
        lemma_drop_trailing(rest, p, end - start);
        assert(rest.take(end - start) =~= s@.subrange(start as int, end as int));
    }
    sub_chars(s, start, end)
}

/// True when `p` occurs in `s` at `pos`.
fn occurs_at(s: &[char], p: &[char], pos: usize) -> (r: bool)
    requires
        pos <= s.len(),
    ensures
        r == starts_with(s@.skip(pos as int), p@),
{
    if p.len() > s.len() - pos {
        return false;
    }
    let mut i: usize = 0;
    while i < p.len()
        invariant
            i <= p.len(),
            pos + p.len() <= s.len(),
            forall|k: int| 0 <= k < i ==> s@[pos + k] == #[trigger] p@[k],
        decreases p.len() - i,
    {
        if s[pos + i] != p[i] {
            assert(s@.skip(pos as int).take(p.len() as int)[i as int] != p@[i as int]);
            return false;
        }
        i = i + 1;
    }
    assert(s@.skip(pos as int).take(p.len() as int) =~= p@);
    true
}

/// The characters of `s` without every repetition of `p` at its start.
fn strip_all_prefixes(s: &[char], p: &[char]) -> (r: Vec<char>)
    requires
        p.len() > 0,
    ensures
        r@ == strip_prefixes(s@, p@),
{
    let mut pos: usize = 0;
    assert(s@.skip(0) =~= s@);
    while occurs_at(s, p, pos)
        invariant
            pos <= s.len(),
            p.len() > 0,
            strip_prefixes(s@.skip(pos as int), p@) == strip_prefixes(s@, p@),
        decreases s.len() - pos,
    {
        assert(s@.skip(pos as int).skip(p.len() as int) =~= s@.skip(pos + p.len()));
        pos = pos + p.len();
    }
    assert(s@.skip(pos as int) =~= s@.subrange(pos as int, s.len() as int));
    sub_chars(s, pos, s.len())
}

/// One step of reading a `Content-Disposition` value.
fn disposition_step_exec(found: Option<String>, part: &[char]) -> (r: Option<String>)
    ensures
        opt_chars(r) == disposition_step(opt_chars(found), part@),
{
    let t = trim_whitespace(part);
    let plain = to_chars("filename=");
    let encoded = to_chars("filename*=UTF-8''");
    if occurs_at(t.as_slice(), plain.as_slice(), 0) && found.is_none() {
        assert(t@.skip(0) =~= t@);
        proof {
            reveal_strlit("filename=");
        }
        let name = strip_all_prefixes(t.as_slice(), plain.as_slice());
        let name = trim_quotes(name.as_slice());
        Some(string_from_chars(name.as_slice()))
    } else if occurs_at(t.as_slice(), encoded.as_slice(), 0) {
        assert(t@.skip(0) =~= t@);
        proof {
            reveal_strlit("filename*=UTF-8''");
        }
        let name = strip_all_prefixes(t.as_slice(), encoded.as_slice());
        let name = string_from_chars(name.as_slice());
        percent_decode(name.as_str())
    } else {
        assert(t@.skip(0) =~= t@);
        found
    }
}

/// Parses the file name from a `Content-Disposition` header value.  The
/// value is split at `;`; each part, trimmed, may set or replace the name
/// (an encoded name that does not decode clears it), and the name after the
/// last part is returned.
pub fn parse_content_disposition_str<'a>(value: &'a str) -> (r: Option<Cow<'a, str>>)
    ensures
        match r {
            Some(name) => Some(name@),
            None => None::<Seq<char>>,
        } == disposition_filename(value@),
{
    let text = to_chars(value);
    let n = text.len();
    let mut found: Option<String> = None;
    let mut pos: usize = 0;
    assert(text@.skip(0) =~= text@);
    loop
        invariant
            n == text@.len(),
            pos <= n,
            text@ == value@,
            disposition_parts(opt_chars(found), text@.skip(pos as int)) == disposition_filename(
                value@,
            ),
        decreases n - pos,
    {
        let ghost rest = text@.skip(pos as int);
        let mut j = pos;
        while j < n && text[j] != ';'
            invariant
                n == text@.len(),
                pos <= j <= n,
                rest == text@.skip(pos as int),
                forall|i: int| 0 <= i < j - pos ==> rest[i] != ';',
            decreases n - j,
        {
            j = j + 1;
        }
        proof {
            lemma_find_char(rest, ';', j - pos);
        }
        let part = sub_chars(text.as_slice(), pos, j);
        if j < n {
            assert(part@ =~= rest.take(j - pos));
            found = disposition_step_exec(found, part.as_slice());
            assert(rest.skip(j - pos + 1) =~= text@.skip(j + 1));
            pos = j + 1;
        } else {
            assert(part@ =~= rest);
            let result = disposition_step_exec(found, part.as_slice());
            return match result {
                Some(name) => Some(Cow::Owned(name)),
                None => None,
            };
        }
    }
}

/// Parses the file name from the `Content-Disposition` header.
pub fn parse_content_disposition(headers: &HeaderMap) -> (r: Option<Cow<'_, str>>)
    ensures
        match r {
            Some(name) => Some(name@),
            None => None::<Seq<char>>,
        } == match header_text(*headers, "content-disposition"@) {
            Some(v) => disposition_filename(v),
            None => None,
        },
{
    proof {
        lemma_name_content_disposition();
    }
    match get_header_str(headers, "content-disposition") {
        Some(v) => parse_content_disposition_str(v),
        None => None,
    }
}

/// The complete length in a `Content-Range` value (`bytes a-b/length`): the
/// number after the `/`, if it is one (not `*`).
pub open spec fn content_range_total(value: Seq<char>) -> Option<u64> {
    match find_char(value, '/') {
        Some(i) => parse_u64_spec(value.skip(i + 1)),
        None => None,
    }
}

proof fn lemma_name_content_range()
    ensures
        lowercase_name("content-range"@),
{
    reveal_strlit("content-range");
}

/// Parses the complete length of the file from a `Content-Range` value.
pub fn parse_content_range_total_str(value: &str) -> (r: Option<u64>)
    ensures
        r == content_range_total(value@),
{
    let chars = to_chars(value);
    let mut i: usize = 0;
    while i < chars.len() && chars[i] != '/'
        invariant
            i <= chars.len(),
            chars@ == value@,
            forall|k: int| 0 <= k < i ==> chars@[k] != '/',
        decreases chars.len() - i,
    {
        i = i + 1;
    }
    proof {
        lemma_find_char(chars@, '/', i as int);
    }
    if i < chars.len() {
        let rest = sub_chars(chars.as_slice(), i + 1, chars.len());
        assert(rest@ =~= value@.skip(i + 1));
        parse_u64(rest.as_slice())
    } else {
        None
    }
}

/// Parses the complete length of the file from the `Content-Range` header.
pub fn parse_content_range_total(headers: &HeaderMap) -> (r: Option<u64>)
    ensures
        r == match header_text(*headers, "content-range"@) {
            Some(v) => content_range_total(v),
            None => None,
        },
{
    proof {
        lemma_name_content_range();
    }
    match get_header_str(headers, "content-range") {
        Some(v) => parse_content_range_total_str(v),
        None => None,
    }
}

/// Returns the value of the `ETag` header, if present.
pub fn etag(headers: &HeaderMap) -> (r: Option<&str>)
    ensures
        opt_str_chars(r) == header_text(*headers, "etag"@),
{
    proof {
        lemma_name_etag();
    }
    get_header_str(headers, "etag")
}

/// Returns the value of the `Last-Modified` header, if present.
pub fn get_last_modified(headers: &HeaderMap) -> (r: Option<&str>)
    ensures
        opt_str_chars(r) == header_text(*headers, "last-modified"@),
{
    proof {
        lemma_name_last_modified();
    }
    get_header_str(headers, "last-modified")
}

proof fn lemma_disposition_parts_concat(found: Option<Seq<char>>, a: Seq<char>, b: Seq<char>)
    ensures
        disposition_parts(found, a + seq![';'] + b) == disposition_parts(
            disposition_parts(found, a),
            b,
        ),
    decreases a.len(),
{
    let s = a + seq![';'] + b;
    match find_char(a, ';') {
        Some(i) => {
            crate::text::lemma_find_char_is_first(a, ';');
            assert forall|k: int| 0 <= k < i implies s[k] != ';' by {
                assert(s[k] == a[k]);
            }
            assert(s[i] == a[i]);
            lemma_find_char(s, ';', i);
            assert(s.take(i) =~= a.take(i));
            assert(s.skip(i + 1) =~= a.skip(i + 1) + seq![';'] + b);
            lemma_disposition_parts_concat(
                disposition_step(found, a.take(i)),
                a.skip(i + 1),
                b,
            );
        },
        None => {
            crate::text::lemma_find_char_is_first(a, ';');
            assert forall|k: int| 0 <= k < a.len() implies s[k] != ';' by {
                assert(s[k] == a[k]);
            }
            lemma_find_char(s, ';', a.len() as int);
            assert(s.take(a.len() as int) =~= a);
            assert(s.skip(a.len() as int + 1) =~= b);
        },
    }
}

/// Law: an encoded `filename*=UTF-8''` parameter at the end of the header
/// takes precedence over anything before it, a plain `filename=` included:
/// the name is its percent-decoded value.
pub proof fn law_encoded_name_takes_precedence(before: Seq<char>, last: Seq<char>)
    requires
        !last.contains(';'),
        starts_with(trimmed(last), encoded_prefix()),
    ensures
        disposition_filename(before + seq![';'] + last) == percent_decoded(
            strip_prefixes(trimmed(last), encoded_prefix()),
        ),
{
    reveal_strlit("filename=");
    reveal_strlit("filename*=UTF-8''");
    lemma_disposition_parts_concat(None, before, last);
    let found = disposition_parts(None, before);
    crate::text::lemma_find_char_is_first(last, ';');
    assert(find_char(last, ';') is None);
    let t = trimmed(last);
    assert(t.take(encoded_prefix().len() as int)[8] == '*');
    assert(!starts_with(t, plain_prefix()));
}

/// `unquoted` of a name between two double quotes is the name, when the name
/// holds no double quote.
proof fn lemma_unquoted_name(name: Seq<char>)
    requires
        !name.contains('"'),
    ensures
        unquoted(seq!['"'] + name + seq!['"']) == name,
{
    let q = seq!['"'];
    let u = q + name + q;
    let pq = |c: char| c == '"';
    if name.len() == 0 {
        lemma_drop_leading(u, pq, 2);
        assert(u.skip(2) =~= Seq::<char>::empty());
        assert(drop_trailing(Seq::<char>::empty(), pq) == Seq::<char>::empty());
        assert(name =~= Seq::<char>::empty());
    } else {
        assert(u[1] == name[0]);
        lemma_drop_leading(u, pq, 1);
        let v = u.skip(1);
        assert(v =~= name + q);
        assert(v[name.len() - 1] == name[name.len() - 1]);
        lemma_drop_trailing(v, pq, name.len() as int);
        assert(v.take(name.len() as int) =~= name);
    }
}

/// Law: a plain file name between double quotes is the name, whole: every
/// character between the quotes is kept, spaces included
/// (`attachment; filename="Annual Report.pdf"` names `Annual Report.pdf`).
pub proof fn law_quoted_name_kept(name: Seq<char>)
    requires
        !name.contains(';'),
        !name.contains('"'),
    ensures
        disposition_filename("attachment; filename=\""@ + name + "\""@) == Some(name),
{
    reveal_strlit("attachment; filename=\"");
    reveal_strlit("\"");
    reveal_strlit("filename=");
    reveal_strlit("filename*=UTF-8''");
    let ws = |c: char| is_whitespace(c);
    let q = seq!['"'];
    let before = seq!['a', 't', 't', 'a', 'c', 'h', 'm', 'e', 'n', 't'];
    let head = seq![' ', 'f', 'i', 'l', 'e', 'n', 'a', 'm', 'e', '=', '"'];
    let part = head + name + q;
    assert("attachment; filename=\""@ + name + "\""@ =~= before + seq![';'] + part);
    lemma_disposition_parts_concat(None, before, part);
    // The first part, `attachment`, names nothing.
    lemma_find_char(before, ';', before.len() as int);
    lemma_drop_leading(before, ws, 0);
    assert(before.skip(0) =~= before);
    lemma_drop_trailing(before, ws, before.len() as int);
    assert(before.take(before.len() as int) =~= before);
    assert(trimmed(before) == before);
    assert(before.take(9)[0] != plain_prefix()[0]);
    assert(encoded_prefix().len() == 17);
    assert(disposition_parts(None, before) is None);
    // The second part is the quoted name.
    assert forall|i: int| 0 <= i < part.len() implies part[i] != ';' by {
        if head.len() <= i < head.len() + name.len() {
            assert(part[i] == name[i - head.len()]);
        }
    }
    lemma_find_char(part, ';', part.len() as int);
    assert(part[1] == 'f');
    lemma_drop_leading(part, ws, 1);
    let t = part.skip(1);
    assert(t[t.len() - 1] == '"');
    lemma_drop_trailing(t, ws, t.len() as int);
    assert(t.take(t.len() as int) =~= t);
    assert(trimmed(part) == t);
    assert(t.take(9) =~= plain_prefix());
    let u = t.skip(9);
    assert(u =~= q + name + q);
    assert(u[0] == '"');
    assert(!starts_with(u, plain_prefix())) by {
        if u.len() >= 9 {
            assert(u.take(9)[0] != plain_prefix()[0]);
        }
    }
    assert(plain_prefix().len() == 9);
    assert(strip_prefixes(u, plain_prefix()) == u);
    assert(strip_prefixes(t, plain_prefix()) == strip_prefixes(u, plain_prefix()));
    lemma_unquoted_name(name);
}

/// Law: a plain file name without quotes is the name, whole, spaces inside it
/// included (`attachment; filename=Annual Report.pdf` names
/// `Annual Report.pdf`), as long as it does not end in whitespace, which is
/// trimmed, or itself start with `filename=`.
pub proof fn law_bare_name_kept(name: Seq<char>)
    requires
        name.len() > 0,
        !name.contains(';'),
        !name.contains('"'),
        !is_whitespace(name[name.len() - 1]),
        !(name.len() >= 9 && name.take(9) == "filename="@),
    ensures
        disposition_filename("attachment; filename="@ + name) == Some(name),
{
    reveal_strlit("attachment; filename=");
    reveal_strlit("filename=");
    reveal_strlit("filename*=UTF-8''");
    let ws = |c: char| is_whitespace(c);
    let pq = |c: char| c == '"';
    let before = seq!['a', 't', 't', 'a', 'c', 'h', 'm', 'e', 'n', 't'];
    let head = seq![' ', 'f', 'i', 'l', 'e', 'n', 'a', 'm', 'e', '='];
    let part = head + name;
    assert("attachment; filename="@ + name =~= before + seq![';'] + part);
    lemma_disposition_parts_concat(None, before, part);
    // The first part, `attachment`, names nothing.
    lemma_find_char(before, ';', before.len() as int);
    lemma_drop_leading(before, ws, 0);
    assert(before.skip(0) =~= before);
    lemma_drop_trailing(before, ws, before.len() as int);
    assert(before.take(before.len() as int) =~= before);
    assert(trimmed(before) == before);
    assert(before.take(9)[0] != plain_prefix()[0]);
    assert(encoded_prefix().len() == 17);
    assert(disposition_parts(None, before) is None);
    // The second part is the name.
    assert forall|i: int| 0 <= i < part.len() implies part[i] != ';' by {
        if head.len() <= i {
            assert(part[i] == name[i - head.len()]);
        }
    }
    lemma_find_char(part, ';', part.len() as int);
    assert(part[1] == 'f');
    lemma_drop_leading(part, ws, 1);
    let t = part.skip(1);
    assert(t[t.len() - 1] == name[name.len() - 1]);
    lemma_drop_trailing(t, ws, t.len() as int);
    assert(t.take(t.len() as int) =~= t);
    assert(trimmed(part) == t);
    assert(t.take(9) =~= plain_prefix());
    let u = t.skip(9);
    assert(u =~= name);
    assert(plain_prefix().len() == 9);
    assert(strip_prefixes(u, plain_prefix()) == u);
    assert(strip_prefixes(t, plain_prefix()) == strip_prefixes(u, plain_prefix()));
    assert(name[0] != '"');
    lemma_drop_leading(name, pq, 0);
    assert(name.skip(0) =~= name);
    assert(name[name.len() - 1] != '"');
    lemma_drop_trailing(name, pq, name.len() as int);
    assert(name.take(name.len() as int) =~= name);
}

/// True when one of the `;`-separated parts of `s`, trimmed, is an encoded
/// `filename*=UTF-8''` part.
pub open spec fn has_encoded_part(s: Seq<char>) -> bool
    decreases s.len(),
{
    match find_char(s, ';') {
        Some(i) => if 0 <= i < s.len() {
            starts_with(trimmed(s.take(i)), encoded_prefix()) || has_encoded_part(s.skip(i + 1))
        } else {
            false
        },
        None => starts_with(trimmed(s), encoded_prefix()),
    }
}

/// Law: once a name is found, the parts that follow it leave it alone unless
/// one of them is an encoded name: a later plain `filename=` part, or any
/// other parameter, does not change or clear it.
pub proof fn law_found_name_kept(found: Option<Seq<char>>, s: Seq<char>)
    requires
        found is Some,
        !has_encoded_part(s),
    ensures
        disposition_parts(found, s) == found,
    decreases s.len(),
{
    crate::text::lemma_find_char_is_first(s, ';');
    match find_char(s, ';') {
        Some(i) => {
            law_found_name_kept(disposition_step(found, s.take(i)), s.skip(i + 1));
        },
        None => {},
    }
}

/// Law: an encoded `filename*=UTF-8''` name that decodes takes precedence in
/// either order: whatever comes before it, and whatever follows it but another
/// encoded name (a plain `filename=` part included), the name is its
/// percent-decoded value.
pub proof fn law_encoded_name_wins_in_either_order(
    before: Seq<char>,
    encoded: Seq<char>,
    after: Seq<char>,
)
    requires
        !encoded.contains(';'),
        starts_with(trimmed(encoded), encoded_prefix()),
        percent_decoded(strip_prefixes(trimmed(encoded), encoded_prefix())) is Some,
        !has_encoded_part(after),
    ensures
        disposition_filename(before + seq![';'] + encoded + seq![';'] + after) == percent_decoded(
            strip_prefixes(trimmed(encoded), encoded_prefix()),
        ),
{
    law_encoded_name_takes_precedence(before, encoded);
    lemma_disposition_parts_concat(None, before + seq![';'] + encoded, after);
    law_found_name_kept(disposition_parts(None, before + seq![';'] + encoded), after);
}

} // verus!
