//! The two parts of a file path that the library reads: the file's stem and
//! its extension, as std's `Path` finds them.

use vstd::prelude::*;
use crate::text::has_substring;

verus! {

/// The index of the last `c` in `s`, or -1 when there is none.
pub open spec fn last_index_of(s: Seq<char>, c: char) -> int
    decreases s.len(),
{
    if s.len() == 0 {
        -1
    } else if s.last() == c {
        s.len() - 1
    } else {
        last_index_of(s.drop_last(), c)
    }
}

/// The last index of a character lies within the sequence, or is -1.
pub proof fn lemma_last_index_of_bounds(s: Seq<char>, c: char)
    ensures
        -1 <= last_index_of(s, c) < s.len(),
        last_index_of(s, c) >= 0 ==> s[last_index_of(s, c)] == c,
    decreases s.len(),
{
    if s.len() > 0 && s.last() != c {
        lemma_last_index_of_bounds(s.drop_last(), c);
    }
}

/// The part of a path after its last `/`.
pub open spec fn file_name_part(path: Seq<char>) -> Seq<char> {
    path.subrange(last_index_of(path, '/') + 1, path.len() as int)
}

/// The part of a path after its last separator, `/` or `\`.
pub open spec fn base_name(path: Seq<char>) -> Seq<char> {
    let cut = if last_index_of(path, '/') < last_index_of(path, '\\') {
        last_index_of(path, '\\')
    } else {
        last_index_of(path, '/')
    };
    path.subrange(cut + 1, path.len() as int)
}

/// Whether a path starts with two separators, as network and device paths
/// do on Windows.
pub open spec fn starts_with_two_separators(path: Seq<char>) -> bool {
    path.len() >= 2 && (path[0] == '/' || path[0] == '\\') && (path[1] == '/' || path[1] == '\\')
}

/// A path whose extension every platform reads alike: it does not start with
/// two separators, the part after its last separator (`/` or `\`) holds no
/// `:`, is not `..`, and has a `.` with something before it. Ordinary
/// Windows paths such as `C:\Music\a.mp3` are of this kind.
pub open spec fn has_clear_extension(path: Seq<char>) -> bool {
    let base = base_name(path);
    &&& !starts_with_two_separators(path)
    &&& !base.contains(':')
    &&& base != seq!['.', '.']
    &&& last_index_of(base, '.') > 0
}

/// The extension of such a path: the part of its base name after the last
/// `.` (empty where the name ends in `.`).
pub open spec fn clear_extension(path: Seq<char>) -> Seq<char> {
    let base = base_name(path);
    base.subrange(last_index_of(base, '.') + 1, base.len() as int)
}

/// A path whose file name starts with its only `.`, such as `/home/u/.cache`:
/// it does not start with two separators, the part after its last `/` holds
/// no `\` and no `:`, has at least two characters, and its one `.` comes
/// first. Such a name has no extension.
pub open spec fn is_dot_name_without_extension(path: Seq<char>) -> bool {
    let name = file_name_part(path);
    &&& !starts_with_two_separators(path)
    &&& !name.contains('\\')
    &&& !name.contains(':')
    &&& name.len() >= 2
    &&& last_index_of(name, '.') == 0
}

/// A path whose file name every platform reads alike, stem included: it does
/// not start with two separators, the part after its last `/` holds no `\`
/// and no `:`, is not `..`, and has a `.` with something before it.
pub open spec fn is_plain_file_path(path: Seq<char>) -> bool {
    let name = file_name_part(path);
    &&& !starts_with_two_separators(path)
    &&& !name.contains('\\')
    &&& !name.contains(':')
    &&& name != seq!['.', '.']
    &&& last_index_of(name, '.') > 0
}

/// The file name of a plain path up to its last `.`.
pub open spec fn plain_stem(path: Seq<char>) -> Seq<char> {
    let name = file_name_part(path);
    name.subrange(0, last_index_of(name, '.'))
}

/// std's `Path::extension` of `path`, as a `String`: the part of the file
/// name after its last `.`; none where the name has no `.`, or starts with
/// its only `.`. Where std draws the file name depends on the platform's
/// separators and prefixes (`\` separates only on Windows, where `C:` and
/// `\\server` start prefixes), so only what holds on every platform is
/// stated: the extension holds no `.` and no `/` and follows a `.` in the
/// path; a path without any `.` has none; a path with a clear extension (see
/// `has_clear_extension`) has the part of its base name after the last `.`,
/// empty where the name ends in `.`; and a name whose only `.` comes first
/// has none. The extensions of the remaining paths (network paths, names
/// with `:`, names that start with `.` after a `\`) are left unsaid.
#[verifier::external_body]
pub(crate) fn path_extension(path: &str) -> (r: Option<String>)
    ensures
        has_clear_extension(path@) ==> r is Some && r.unwrap()@ == clear_extension(path@),
        is_dot_name_without_extension(path@) ==> r is None,
        r matches Some(e) ==> (!e@.contains('.') && !e@.contains('/') && has_substring(
            path@,
            seq!['.'] + e@,
        )),
        !path@.contains('.') ==> r is None,
{
    match std::path::Path::new(path).extension() {
        Some(e) => e.to_str().map(String::from),
        None => None,
    }
}

/// std's `Path::file_stem` of `path`, as a `String`: the file name without
/// its extension. As with the extension, only what holds on every platform is
/// stated: the stem is not empty, holds no `/`, and occurs in the path; and a
/// plain path (see `is_plain_file_path`) has the part of its file name before
/// the last `.`. The stems of other paths, Windows paths with `\` among
/// them (where the stem depends on whether `\` separates), are left unsaid.
#[verifier::external_body]
pub(crate) fn path_file_stem(path: &str) -> (r: Option<String>)
    ensures
        is_plain_file_path(path@) ==> r is Some && r.unwrap()@ == plain_stem(path@),
        r matches Some(s) ==> (s@.len() > 0 && !s@.contains('/') && has_substring(path@, s@)),
{
    match std::path::Path::new(path).file_stem() {
        Some(s) => s.to_str().map(String::from),
        None => None,
    }
}

} // verus!
