//! Paths as text, and the few questions this crate asks of them.
//!
//! A path is held as a `String`. What a path's extension, file stem or a
//! joined path is, std's `Path` decides: each such call stands behind one
//! small wrapper whose result is named by a spec function of the path text.
//! Case-insensitive ASCII comparison is the crate's own, proved below.
use vstd::prelude::*;

verus! {

/// What `std::path::Path::extension` returns for a path with the given text
/// (the text after the final `.` of the file name), taken as text.
pub uninterp spec fn path_extension(path: Seq<char>) -> Option<Seq<char>>;

/// What `std::path::Path::file_stem` returns for a path with the given text
/// (the file name without its extension), taken as text.
pub uninterp spec fn path_file_stem(path: Seq<char>) -> Option<Seq<char>>;

/// The text of the path that `std::path::Path::join` builds from `base` and
/// `tail`.
pub uninterp spec fn path_join(base: Seq<char>, tail: Seq<char>) -> Seq<char>;

/// Calls `std::path::Path::extension` on `path`.
/// Trusted: the text of the result is what `path_extension` names for the
/// text of `path`; a part of a `str` is valid UTF-8, so the lossy conversion
/// back to a `String` keeps it unchanged.
#[verifier::external_body]
pub(crate) fn extension_of(path: &str) -> (ext: Option<String>)
    ensures
        match ext {
            Some(e) => path_extension(path@) == Some(e@),
            None => path_extension(path@) is None,
        },
{
    std::path::Path::new(path).extension().map(|e| e.to_string_lossy().into_owned())
}

/// Calls `std::path::Path::file_stem` on `path`.
/// Trusted: the text of the result is what `path_file_stem` names for the
/// text of `path`.
#[verifier::external_body]
pub(crate) fn file_stem_of(path: &str) -> (stem: Option<String>)
    ensures
        match stem {
            Some(s) => path_file_stem(path@) == Some(s@),
            None => path_file_stem(path@) is None,
        },
{
    std::path::Path::new(path).file_stem().map(|s| s.to_string_lossy().into_owned())
}

/// Calls `std::path::Path::join` on `base` and `tail`.
/// Trusted: the text of the joined path is what `path_join` names for the two
/// texts; joining two UTF-8 texts gives UTF-8 text, so the lossy conversion
/// keeps it unchanged.
#[verifier::external_body]
pub(crate) fn join_paths(base: &str, tail: &str) -> (joined: String)
    ensures
        joined@ == path_join(base@, tail@),
{
    std::path::Path::new(base).join(tail).to_string_lossy().into_owned()
}

/// The ASCII lower-case form of a character; other characters stay as they are.
pub open spec fn ascii_lower(c: char) -> char {
    if 'A' <= c && c <= 'Z' {
        ((c as u32) + 32) as char
    } else {
        c
    }
}

/// Two texts are equal when ASCII letters are compared without their case.
pub open spec fn eq_ignore_ascii_case(a: Seq<char>, b: Seq<char>) -> bool {
    &&& a.len() == b.len()
    &&& forall|i: int| 0 <= i < a.len() ==> ascii_lower(#[trigger] a[i]) == ascii_lower(b[i])
}

/// Compares two texts character by character.
pub fn text_eq(a: &str, b: &str) -> (same: bool)
    ensures
        same == (a@ == b@),
{
    let len: usize = a.unicode_len();
    if len != b.unicode_len() {
        return false;
    }
    let mut i: usize = 0;
    while i < len
        invariant
            len == a@.len(),
            len == b@.len(),
            i <= len,
            forall|j: int| 0 <= j < i ==> #[trigger] a@[j] == b@[j],
        decreases len - i,
    {
        if a.get_char(i) != b.get_char(i) {
            return false;
        }
        i = i + 1;
    }
    assert(a@ =~= b@);
    true
}

/// The code of `ascii_lower(c)`.
fn ascii_lower_code(c: char) -> (code: u32)
    ensures
        code == ascii_lower(c) as u32,
{
    let n: u32 = c as u32;
    if 'A' <= c && c <= 'Z' {
        assert(ascii_lower(c) as u32 == n + 32);
        n + 32
    } else {
        n
    }
}

/// Compares two texts, ignoring the case of ASCII letters.
pub fn text_eq_ignore_ascii_case(a: &str, b: &str) -> (same: bool)
    ensures
        same == eq_ignore_ascii_case(a@, b@),
{
    let len: usize = a.unicode_len();
    if len != b.unicode_len() {
        return false;
    }
    let mut i: usize = 0;
    while i < len
        invariant
            len == a@.len(),
            len == b@.len(),
            i <= len,
            forall|j: int| 0 <= j < i ==> ascii_lower(#[trigger] a@[j]) == ascii_lower(b@[j]),
        decreases len - i,
    {
        let ca = ascii_lower_code(a.get_char(i));
        let cb = ascii_lower_code(b.get_char(i));
        if ca != cb {
            assert(ascii_lower(a@[i as int]) != ascii_lower(b@[i as int]));
            return false;
        }
        i = i + 1;
    }
    true
}

} // verus!
