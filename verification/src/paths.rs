//! File names used by a download: the final file, the `.part` file it is
//! written to, and the `.downloadinfo` sidecar file.
use std::path::{Path, PathBuf};
use vstd::prelude::*;

use crate::file_info::opt_chars;
use crate::text::{push_char, push_chars, string_from_chars, to_chars};

verus! {

broadcast use vstd::string::group_string_axioms;

/// The extension of `path` as `Path::extension` finds it: the part of the
/// file name after its last `.`, if it has one.
pub uninterp spec fn extension_of(path: Seq<char>) -> Option<Seq<char>>;

/// `path` with its extension replaced by `extension` (or added, when it has
/// none), as `PathBuf::set_extension` does it.
pub uninterp spec fn with_extension_of(path: Seq<char>, extension: Seq<char>) -> Seq<char>;

/// True when `s` holds neither `/` nor `\`, the characters that separate
/// path components (`/` everywhere, `\` on Windows as well).
pub open spec fn separator_free(s: Seq<char>) -> bool {
    !s.contains('/') && !s.contains('\\')
}

/// True when `extension` may be given to `PathBuf::set_extension` on `path`
/// without a panic: it holds no `/`, and a `\` only inside the path's own
/// current extension at its start (there it cannot be a separator, or it
/// would have ended the file name).
pub open spec fn settable_extension(path: Seq<char>, extension: Seq<char>) -> bool {
    &&& !extension.contains('/')
    &&& extension.contains('\\') ==> (extension_of(path) matches Some(e) && e.len()
        <= extension.len() && extension.take(e.len() as int) == e && !extension.skip(
        e.len() as int,
    ).contains('\\'))
}

/// The extension of `path` (`Path::extension`), as text.  It is part of the
/// file name, so it holds no `/`.
#[verifier::external_body]
fn path_extension(path: &str) -> (r: Option<String>)
    ensures
        opt_chars(r) == extension_of(path@),
        r matches Some(e) ==> !e@.contains('/'),
{
    Path::new(path).extension().map(|e| e.to_string_lossy().into_owned())
}

/// `path` with its extension set to `extension` (`PathBuf::set_extension`),
/// which panics when the extension holds a path separator: the `requires`
/// rules that out on every platform.
#[verifier::external_body]
fn path_with_extension(path: &str, extension: &str) -> (r: String)
    requires
        settable_extension(path@, extension@),
    ensures
        r@ == with_extension_of(path@, extension@),
{
    let mut p = PathBuf::from(path);
    p.set_extension(extension);
    p.to_string_lossy().into_owned()
}

/// The path with `extension` added: when the path already has an extension,
/// the new one is appended to it, separated by a dot (adding `part` to
/// `file.tar` gives `file.tar.part`).
pub open spec fn added_extension(path: Seq<char>, extension: Seq<char>) -> Seq<char> {
    match extension_of(path) {
        Some(existing) => with_extension_of(path, existing + seq!['.'] + extension),
        None => with_extension_of(path, extension),
    }
}

/// Law: adding an extension keeps the extension a path already has, whatever
/// its length, and puts the new one after it (`data.json` gets
/// `data.json.part`); a path without one just gets the new extension.
pub proof fn law_existing_extension_kept(path: Seq<char>, extension: Seq<char>)
    ensures
        extension_of(path) matches Some(e) ==> added_extension(path, extension)
            == with_extension_of(path, e + seq!['.'] + extension),
        extension_of(path) is None ==> added_extension(path, extension) == with_extension_of(
            path,
            extension,
        ),
{
}

/// Add an extension to a path.  If the path already has an extension, the
/// new extension is appended to the existing one, separated by a dot.
pub fn add_extension(path: &str, extension: &str) -> (r: String)
    requires
        separator_free(extension@),
    ensures
        r@ == added_extension(path@, extension@),
{
    match path_extension(path) {
        Some(existing) => {
            let ghost e = existing@;
            let mut combined = existing;
            push_char(&mut combined, '.');
            let ext = to_chars(extension);
            push_chars(&mut combined, ext.as_slice());
            assert(combined@ =~= e + seq!['.'] + extension@);
            proof {
                let c = combined@;
                assert(c.take(e.len() as int) =~= e);
                assert(c.skip(e.len() as int) =~= seq!['.'] + extension@);
                assert(!c.contains('/')) by {
                    if c.contains('/') {
                        let k = choose|k: int| 0 <= k < c.len() && c[k] == '/';
                        if k < e.len() {
                            assert(e[k] == '/');
                        } else if k > e.len() {
                            assert(extension@[k - e.len() - 1] == '/');
                        }
                    }
                }
                assert(!c.skip(e.len() as int).contains('\\')) by {
                    let t = c.skip(e.len() as int);
                    if t.contains('\\') {
                        let k = choose|k: int| 0 <= k < t.len() && t[k] == '\\';
                        if k > 0 {
                            assert(extension@[k - 1] == '\\');
                        }
                    }
                }
            }
            path_with_extension(path, combined.as_str())
        },
        None => path_with_extension(path, extension),
    }
}

/// Where a download ends up, and the files used on the way there.
pub struct Destination {
    /// The final path of the downloaded file.
    pub path: String,
    /// The file the download is written to until it is complete.
    pub part_file: String,
    /// The file holding what we know about the remote file, so that an
    /// interrupted download can be resumed.
    pub sidecar_file: String,
}

impl Destination {
    /// The destination for the final path `path`.
    pub fn new(path: String) -> (r: Self)
        ensures
            r.path@ == path@,
            r.part_file@ == added_extension(path@, "part"@),
            r.sidecar_file@ == added_extension(path@, "downloadinfo"@),
    {
        proof {
            reveal_strlit("part");
            reveal_strlit("downloadinfo");
            assert(separator_free("part"@));
            assert(separator_free("downloadinfo"@));
        }
        let part_file = add_extension(path.as_str(), "part");
        let sidecar_file = add_extension(path.as_str(), "downloadinfo");
        Destination { path, part_file, sidecar_file }
    }
}

/// The last `/`-separated segment of `path`, unless it is empty.
pub open spec fn last_segment(path: Seq<char>) -> Option<Seq<char>> {
    let start = last_slash_end(path, path.len() as int);
    if start < path.len() {
        Some(path.skip(start))
    } else {
        None
    }
}

/// The index just after the last `/` in `path[..end]`, or zero.
pub open spec fn last_slash_end(path: Seq<char>, end: int) -> int
    decreases end,
{
    if end <= 0 {
        0
    } else if path[end - 1] == '/' {
        end
    } else {
        last_slash_end(path, end - 1)
    }
}

/// The file name a URL path gives: its last segment, unless it is empty.
pub fn filename_from_path(path: &str) -> (r: Option<String>)
    ensures
        opt_chars(r) == last_segment(path@),
{
    let chars = to_chars(path);
    let mut start = chars.len();
    while start > 0 && chars[start - 1] != '/'
        invariant
            start <= chars.len(),
            chars@ == path@,
            last_slash_end(path@, start as int) == last_slash_end(path@, path@.len() as int),
        decreases start,
    {
        start = start - 1;
    }
    if start < chars.len() {
        let mut rest = Vec::new();
        let mut i = start;
        while i < chars.len()
            invariant
                start <= i <= chars.len(),
                rest@ == chars@.subrange(start as int, i as int),
            decreases chars.len() - i,
        {
            rest.push(chars[i]);
            i = i + 1;
            assert(rest@ =~= chars@.subrange(start as int, i as int));
        }
        assert(rest@ =~= path@.skip(start as int));
        Some(string_from_chars(rest.as_slice()))
    } else {
        None
    }
}

} // verus!
