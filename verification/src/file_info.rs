//! What we know about a remote file, and its sidecar text format: one
//! `Key: value` line per known field.
use vstd::prelude::*;

use crate::error::Error;
use crate::text::{
    find_char, lemma_find_char, chars_equal, push_chars, sub_chars, decimal, law_parse_decimal, parse_u64, parse_u64_spec, push_char,
    string_from_chars, to_chars, u64_to_decimal,
};

verus! {

broadcast use vstd::string::group_string_axioms;

/// Information we know about a file.
#[derive(Debug)]
pub struct FileInfo {
    pub content_length: Option<u64>,
    pub last_modified: Option<String>,
    pub etag: Option<String>,
}

/// The mathematical value of a [`FileInfo`].
pub struct FileInfoView {
    pub content_length: Option<u64>,
    pub last_modified: Option<Seq<char>>,
    pub etag: Option<Seq<char>>,
}

/// The characters of an optional string.
pub open spec fn opt_chars(s: Option<String>) -> Option<Seq<char>> {
    match s {
        Some(s) => Some(s@),
        None => None,
    }
}

/// The characters of an optional string slice.
pub open spec fn opt_str_chars(s: Option<&str>) -> Option<Seq<char>> {
    match s {
        Some(s) => Some(s@),
        None => None,
    }
}

impl View for FileInfo {
    type V = FileInfoView;

    open spec fn view(&self) -> FileInfoView {
        FileInfoView {
            content_length: self.content_length,
            last_modified: opt_chars(self.last_modified),
            etag: opt_chars(self.etag),
        }
    }
}

/// A `FileInfo` that knows nothing.
pub open spec fn empty_info() -> FileInfoView {
    FileInfoView { content_length: None, last_modified: None, etag: None }
}

/// The separator between a key and its value.
pub open spec fn separator() -> Seq<char> {
    seq![':', ' ']
}

/// One `key: value` line, ending with a newline.
pub open spec fn field_line(key: Seq<char>, value: Seq<char>) -> Seq<char> {
    key + separator() + value + seq!['\n']
}

/// The line for an optional field: nothing when the field is unknown.
pub open spec fn opt_field_line(key: Seq<char>, value: Option<Seq<char>>) -> Seq<char> {
    match value {
        Some(v) => field_line(key, v),
        None => Seq::empty(),
    }
}

/// The text stored in the sidecar file: the known fields, in the order
/// content length, last modified, etag.
pub open spec fn serialized(info: FileInfoView) -> Seq<char> {
    opt_field_line(
        "Content-Length"@,
        match info.content_length {
            Some(n) => Some(decimal(n as nat)),
            None => None,
        },
    ) + opt_field_line("Last-Modified"@, info.last_modified) + opt_field_line(
        "Etag"@,
        info.etag,
    )
}

/// The index of the first `": "` in `s`, if there is one.
pub open spec fn find_separator(s: Seq<char>) -> Option<int>
    decreases s.len(),
{
    if s.len() < 2 {
        None
    } else if s[0] == ':' && s[1] == ' ' {
        Some(0)
    } else {
        match find_separator(s.drop_first()) {
            Some(i) => Some(i + 1),
            None => None,
        }
    }
}

/// A line without the carriage return that ended it, if any.
pub open spec fn strip_cr(line: Seq<char>) -> Seq<char> {
    if line.len() > 0 && line.last() == '\r' {
        line.drop_last()
    } else {
        line
    }
}

/// The effect of one line of the sidecar text: a line without `": "` and a
/// line with an unknown key change nothing; a content length that does not
/// parse changes nothing; a known key sets its field, the last one winning.
pub open spec fn apply_line(info: FileInfoView, line: Seq<char>) -> FileInfoView {
    match find_separator(line) {
        None => info,
        Some(j) => {
            let key = line.take(j);
            let value = line.skip(j + 2);
            if key == "Content-Length"@ {
                match parse_u64_spec(value) {
                    Some(n) => FileInfoView { content_length: Some(n), ..info },
                    None => info,
                }
            } else if key == "Last-Modified"@ {
                FileInfoView { last_modified: Some(value), ..info }
            } else if key == "Etag"@ {
                FileInfoView { etag: Some(value), ..info }
            } else {
                info
            }
        },
    }
}

/// The effect of the lines of `text`, as `str::lines` splits them: at each
/// `\n`, dropping a `\r` just before it; a last line needs no `\n`.
pub open spec fn apply_text(info: FileInfoView, text: Seq<char>) -> FileInfoView
    decreases text.len(),
{
    if text.len() == 0 {
        info
    } else {
        match find_char(text, '\n') {
            Some(i) => if 0 <= i < text.len() {
                apply_text(apply_line(info, strip_cr(text.take(i))), text.skip(i + 1))
            } else {
                info
            },
            None => apply_line(info, text),
        }
    }
}

/// The information read back from the sidecar text `text`.
pub open spec fn deserialized(text: Seq<char>) -> FileInfoView {
    apply_text(empty_info(), text)
}

/// The information after an update: the given values.
pub open spec fn updated_info(
    content_length: Option<u64>,
    last_modified: Option<Seq<char>>,
    etag: Option<Seq<char>>,
) -> FileInfoView {
    FileInfoView { content_length, last_modified, etag }
}

/// The sidecar text an update writes: none when nothing changed (nothing to
/// write) or nothing is known any more (the sidecar file is removed), else
/// the new information.
pub open spec fn update_text(old_info: FileInfoView, new_info: FileInfoView) -> Option<Seq<char>> {
    if old_info != new_info && new_info != empty_info() {
        Some(serialized(new_info))
    } else {
        None
    }
}

/// A value that survives a round trip through the sidecar text: it holds no
/// newline and does not end with a carriage return.
pub open spec fn line_safe(value: Seq<char>) -> bool {
    &&& forall|i: int| 0 <= i < value.len() ==> value[i] != '\n'
    &&& !(value.len() > 0 && value.last() == '\r')
}

/// True when an optional value survives a round trip through the sidecar text.
pub open spec fn opt_line_safe(value: Option<Seq<char>>) -> bool {
    match value {
        Some(v) => line_safe(v),
        None => true,
    }
}

/// Law: an update with the values already held changes nothing and writes
/// nothing, so repeating an update is harmless.
pub proof fn law_update_idempotent(info: FileInfoView)
    ensures
        update_text(info, info) is None,
{
}

proof fn lemma_find_separator(s: Seq<char>, k: int)
    requires
        0 <= k <= s.len(),
        forall|i: int| 0 <= i < k && i + 1 < s.len() ==> !(#[trigger] s[i] == ':' && s[i + 1] == ' '),
    ensures
        k + 1 < s.len() && s[k] == ':' && s[k + 1] == ' ' ==> find_separator(s) == Some(k),
        k + 1 >= s.len() ==> find_separator(s) is None,
    decreases s.len(),
{
    if s.len() >= 2 && k > 0 {
        lemma_find_separator(s.drop_first(), k - 1);
    }
}

/// Appends the line `key: value\n` to `s`.
fn push_field_line(s: &mut String, key: &str, value: &[char])
    ensures
        final(s)@ == old(s)@ + field_line(key@, value@),
{
    s.append(key);
    push_char(s, ':');
    push_char(s, ' ');
    push_chars(s, value);
    push_char(s, '\n');
    assert(s@ =~= old(s)@ + field_line(key@, value@));
}

impl FileInfo {
    /// A `FileInfo` that knows nothing.
    pub fn new() -> (r: Self)
        ensures
            r@ == empty_info(),
    {
        FileInfo { content_length: None, last_modified: None, etag: None }
    }

    /// Serialize the FileInfo to a string that can be stored alongside the part file.
    pub fn serialize(&self) -> (r: String)
        ensures
            r@ == serialized(self@),
    {
        let mut result = String::new();
        if let Some(len) = self.content_length {
            let digits = u64_to_decimal(len);
            push_field_line(&mut result, "Content-Length", digits.as_slice());
        }
        assert(result@ =~= opt_field_line(
            "Content-Length"@,
            match self@.content_length {
                Some(n) => Some(decimal(n as nat)),
                None => None,
            },
        ));
        let ghost first = result@;
        if let Some(last_modified) = &self.last_modified {
            let chars = to_chars(last_modified.as_str());
            push_field_line(&mut result, "Last-Modified", chars.as_slice());
        }
        assert(result@ =~= first + opt_field_line("Last-Modified"@, self@.last_modified));
        let ghost second = result@;
        if let Some(etag) = &self.etag {
            let chars = to_chars(etag.as_str());
            push_field_line(&mut result, "Etag", chars.as_slice());
        }
        assert(result@ =~= second + opt_field_line("Etag"@, self@.etag));
        result
    }

    /// Apply one line of sidecar text to this information.
    fn apply_line(&mut self, line: &[char])
        ensures
            final(self)@ == apply_line(old(self)@, line@),
    {
        // Find the first ": ".
        let mut j: usize = 0;
        while j < line.len() && j + 1 < line.len() && !(line[j] == ':' && line[j + 1] == ' ')
            invariant
                j <= line.len(),
                forall|i: int|
                    0 <= i < j && i + 1 < line@.len() ==> !(#[trigger] line@[i] == ':' && line@[i + 1] == ' '),
            decreases line.len() - j,
        {
            j = j + 1;
        }
        proof {
            lemma_find_separator(line@, j as int);
        }
        if j >= line.len() || j + 1 >= line.len() {
            // No separator: ignore the invalid line.
            return;
        }
        let key = sub_chars(line, 0, j);
        let value = sub_chars(line, j + 2, line.len());
        assert(key@ == line@.take(j as int));
        assert(value@ == line@.skip(j + 2));
        let content_length_key = to_chars("Content-Length");
        let last_modified_key = to_chars("Last-Modified");
        let etag_key = to_chars("Etag");
        if chars_equal(key.as_slice(), content_length_key.as_slice()) {
            if let Some(v) = parse_u64(value.as_slice()) {
                self.content_length = Some(v);
            }
        } else if chars_equal(key.as_slice(), last_modified_key.as_slice()) {
            self.last_modified = Some(string_from_chars(value.as_slice()));
        } else if chars_equal(key.as_slice(), etag_key.as_slice()) {
            self.etag = Some(string_from_chars(value.as_slice()));
        }
    }

    /// Deserialize a FileInfo from a string.  Every field is reset first, then
    /// set from the lines of `s`; lines that cannot be understood are ignored.
    pub fn deserialize(&mut self, s: &str) -> (r: Result<(), Error>)
        ensures
            r is Ok,
            final(self)@ == deserialized(s@),
    {
        self.content_length = None;
        self.last_modified = None;
        self.etag = None;
        let text = to_chars(s);
        let n = text.len();
        assert(self@ == empty_info());
        assert(text@.skip(0) =~= text@);
        let mut pos: usize = 0;
        while pos < n
            invariant
                n == text@.len(),
                pos <= n,
                text@ == s@,
                apply_text(self@, text@.skip(pos as int)) == deserialized(s@),
            decreases n - pos,
        {
            let ghost rest = text@.skip(pos as int);
            // Find the end of this line.
            let mut j = pos;
            while j < n && text[j] != '\n'
                invariant
                    n == text@.len(),
                    pos <= j <= n,
                    rest == text@.skip(pos as int),
                    forall|i: int| 0 <= i < j - pos ==> rest[i] != '\n',
                decreases n - j,
            {
                j = j + 1;
            }
            proof {
                lemma_find_char(rest, '\n', j - pos);
            }
            if j < n {
                let end = if j > pos && text[j - 1] == '\r' {
                    j - 1
                } else {
                    j
                };
                let line = sub_chars(text.as_slice(), pos, end);
                assert(line@ == strip_cr(rest.take(j - pos)));
                self.apply_line(line.as_slice());
                assert(rest.skip(j - pos + 1) =~= text@.skip(j + 1));
                pos = j + 1;
            } else {
                let line = sub_chars(text.as_slice(), pos, n);
                assert(line@ =~= rest);
                self.apply_line(line.as_slice());
                assert(text@.skip(n as int) =~= Seq::<char>::empty());
                pos = n;
            }
        }
        assert(text@.skip(n as int) =~= Seq::<char>::empty());
        Ok(())
    }

    /// Set the information to the given values, if anything changed.  Returns
    /// the new sidecar text when something changed and something is known, and
    /// `None` when nothing changed or nothing is known any more (the sidecar
    /// file should then be removed).
    pub fn update_inner(
        &mut self,
        content_length: Option<u64>,
        last_modified: Option<&str>,
        etag: Option<&str>,
    ) -> (r: Option<String>)
        ensures
            final(self)@ == updated_info(content_length, opt_str_chars(last_modified), opt_str_chars(etag)),
            opt_chars(r) == update_text(
                old(self)@,
                updated_info(content_length, opt_str_chars(last_modified), opt_str_chars(etag)),
            ),
    {
        let changed = self.content_length != content_length || !opt_string_equal(
            &self.last_modified,
            last_modified,
        ) || !opt_string_equal(&self.etag, etag);
        let mut serialized = None;
        if changed {
            self.content_length = content_length;
            self.last_modified = match last_modified {
                Some(s) => Some(s.to_owned()),
                None => None,
            };
            self.etag = match etag {
                Some(s) => Some(s.to_owned()),
                None => None,
            };
            if self.content_length.is_some() || self.last_modified.is_some()
                || self.etag.is_some() {
                serialized = Some(self.serialize());
            }
        }
        serialized
    }
}

/// What an update means for the sidecar file.
pub enum SidecarChange {
    /// Nothing changed: the sidecar file stays as it is.
    Unchanged,
    /// The information changed: the sidecar file gets this text.
    Write(String),
    /// The information changed and nothing is known any more: the sidecar
    /// file is removed.
    Remove,
}

impl FileInfo {
    /// Set the information to the given values, and say what becomes of the
    /// sidecar file: it is left alone when nothing changed, rewritten when
    /// something is known, and removed when nothing is known any more.
    pub fn sidecar_update(
        &mut self,
        content_length: Option<u64>,
        last_modified: Option<&str>,
        etag: Option<&str>,
    ) -> (r: SidecarChange)
        ensures
            final(self)@ == updated_info(content_length, opt_str_chars(last_modified), opt_str_chars(etag)),
            r is Unchanged <==> old(self)@ == final(self)@,
            r matches SidecarChange::Write(text) ==> Some(text@) == update_text(old(self)@, final(self)@),
            r is Remove <==> (old(self)@ != final(self)@ && final(self)@ == empty_info()),
    {
        let unchanged = self.content_length == content_length && opt_string_equal(
            &self.last_modified,
            last_modified,
        ) && opt_string_equal(&self.etag, etag);
        let text = self.update_inner(content_length, last_modified, etag);
        if unchanged {
            SidecarChange::Unchanged
        } else {
            match text {
                Some(text) => SidecarChange::Write(text),
                None => SidecarChange::Remove,
            }
        }
    }
}

/// True when the optional string and the optional string slice hold the same text.
fn opt_string_equal(a: &Option<String>, b: Option<&str>) -> (r: bool)
    ensures
        r == (opt_chars(*a) == opt_str_chars(b)),
{
    match (a, b) {
        (Some(a), Some(b)) => crate::text::str_equal(a.as_str(), b),
        (None, None) => true,
        _ => false,
    }
}

impl Default for FileInfo {
    fn default() -> (r: Self)
        ensures
            r@ == empty_info(),
    {
        FileInfo::new()
    }
}

/// True when `c` does not occur in `s`.
pub open spec fn lacks_char(s: Seq<char>, c: char) -> bool {
    forall|i: int| 0 <= i < s.len() ==> s[i] != c
}

proof fn lemma_field_line_separator(key: Seq<char>, value: Seq<char>)
    requires
        lacks_char(key, ':'),
    ensures
        find_separator(key + separator() + value) == Some(key.len() as int),
        (key + separator() + value).take(key.len() as int) == key,
        (key + separator() + value).skip(key.len() as int + 2) == value,
{
    let line = key + separator() + value;
    assert forall|i: int| 0 <= i < key.len() && i + 1 < line.len() implies !(#[trigger] line[i]
        == ':' && line[i + 1] == ' ') by {
        assert(line[i] == key[i]);
    }
    lemma_find_separator(line, key.len() as int);
    assert(line.take(key.len() as int) =~= key);
    assert(line.skip(key.len() as int + 2) =~= value);
}

proof fn lemma_field_line_step(info: FileInfoView, key: Seq<char>, value: Seq<char>, rest: Seq<char>)
    requires
        lacks_char(key, '\n'),
        line_safe(value),
    ensures
        apply_text(info, field_line(key, value) + rest) == apply_text(
            apply_line(info, key + separator() + value),
            rest,
        ),
{
    let body = key + separator() + value;
    let text = field_line(key, value) + rest;
    let len = body.len() as int;
    assert(text.take(len) =~= body);
    assert(text[len] == '\n');
    assert forall|i: int| 0 <= i < len implies text[i] != '\n' by {
        assert(text[i] == body[i]);
        if i < key.len() {
            assert(body[i] == key[i]);
        } else if i >= key.len() + 2 {
            assert(body[i] == value[i - key.len() - 2]);
        }
    }
    lemma_find_char(text, '\n', len);
    assert(strip_cr(body) == body) by {
        if value.len() > 0 {
            assert(body.last() == value.last());
        }
    }
    assert(text.skip(len + 1) =~= rest);
}

/// Law: the sidecar text reads back as the information it was written from,
/// as long as the last-modified and etag values hold no newline and do not
/// end with a carriage return.
pub proof fn law_serialize_round_trip(info: FileInfoView)
    requires
        opt_line_safe(info.last_modified),
        opt_line_safe(info.etag),
    ensures
        deserialized(serialized(info)) == info,
{
    reveal_strlit("Content-Length");
    reveal_strlit("Last-Modified");
    reveal_strlit("Etag");
    let cl_key = "Content-Length"@;
    let lm_key = "Last-Modified"@;
    let et_key = "Etag"@;
    assert(lacks_char(cl_key, ':') && lacks_char(cl_key, '\n'));
    assert(lacks_char(lm_key, ':') && lacks_char(lm_key, '\n'));
    assert(lacks_char(et_key, ':') && lacks_char(et_key, '\n'));
    let cl_line = opt_field_line(
        cl_key,
        match info.content_length {
            Some(n) => Some(decimal(n as nat)),
            None => None,
        },
    );
    let lm_line = opt_field_line(lm_key, info.last_modified);
    let et_line = opt_field_line(et_key, info.etag);
    let text = serialized(info);
    assert(text == cl_line + lm_line + et_line);
    // After the content-length line.
    let s1 = match info.content_length {
        Some(n) => FileInfoView { content_length: Some(n), ..empty_info() },
        None => empty_info(),
    };
    assert(apply_text(empty_info(), text) == apply_text(s1, lm_line + et_line)) by {
        match info.content_length {
            Some(n) => {
                let d = decimal(n as nat);
                law_parse_decimal(n);
                crate::text::lemma_decimal_line_safe(n as nat);
                lemma_field_line_separator(cl_key, d);
                lemma_field_line_step(empty_info(), cl_key, d, lm_line + et_line);
                assert(text =~= field_line(cl_key, d) + (lm_line + et_line));
            },
            None => {
                assert(text =~= lm_line + et_line);
            },
        }
    }
    let s2 = FileInfoView { last_modified: info.last_modified, ..s1 };
    assert(apply_text(s1, lm_line + et_line) == apply_text(s2, et_line)) by {
        match info.last_modified {
            Some(v) => {
                lemma_field_line_separator(lm_key, v);
                lemma_field_line_step(s1, lm_key, v, et_line);
            },
            None => {
                assert(lm_line + et_line =~= et_line);
            },
        }
    }
    assert(apply_text(s2, et_line) == info) by {
        match info.etag {
            Some(v) => {
                lemma_field_line_separator(et_key, v);
                lemma_field_line_step(s2, et_key, v, Seq::empty());
                assert(et_line + Seq::<char>::empty() =~= et_line);
            },
            None => {},
        }
    }
}

/// Law: the sidecar text an update writes reads back as the new
/// information (when its last-modified and etag values are line-safe).
pub proof fn law_update_reads_back(old_info: FileInfoView, new_info: FileInfoView)
    requires
        opt_line_safe(new_info.last_modified),
        opt_line_safe(new_info.etag),
        update_text(old_info, new_info) is Some,
    ensures
        deserialized(update_text(old_info, new_info)->0) == new_info,
{
    law_serialize_round_trip(new_info);
}

} // verus!
