//! The audio formats that the library takes in, recognised by file extension.

use vstd::prelude::*;
use crate::library::file_path::{
    base_name, clear_extension, has_clear_extension, is_dot_name_without_extension, last_index_of,
    lemma_last_index_of_bounds, path_extension,
};
use crate::text::{ascii_lower, has_substring, is_ascii_text, lowercase, spec_lowercase, str_equal};

verus! {

/// The extensions (in lower case) of the audio files that the player takes.
pub open spec fn is_supported_extension_text(e: Seq<char>) -> bool {
    e == "mp3"@ || e == "mp2"@ || e == "mp1"@ || e == "wav"@ || e == "aiff"@ || e == "aif"@
        || e == "ogg"@ || e == "flac"@ || e == "m4a"@ || e == "aac"@ || e == "mp4"@ || e == "alac"@
        || e == "opus"@ || e == "ape"@ || e == "wma"@ || e == "wv"@ || e == "tta"@ || e == "mka"@
}

/// Whether an extension names a supported audio format, in any letter case.
pub fn is_supported_extension(ext: &str) -> (r: bool)
    ensures
        r == is_supported_extension_text(spec_lowercase(ext@)),
        r == (spec_lowercase(ext@) == "mp3"@ || spec_lowercase(ext@) == "mp2"@ ||
                spec_lowercase(ext@) == "mp1"@ || spec_lowercase(ext@) == "wav"@ ||
                spec_lowercase(ext@) == "aiff"@ || spec_lowercase(ext@) == "aif"@ ||
                spec_lowercase(ext@) == "ogg"@ || spec_lowercase(ext@) == "flac"@ ||
                spec_lowercase(ext@) == "m4a"@ || spec_lowercase(ext@) == "aac"@ ||
                spec_lowercase(ext@) == "mp4"@ || spec_lowercase(ext@) == "alac"@ ||
                spec_lowercase(ext@) == "opus"@ || spec_lowercase(ext@) == "ape"@ ||
                spec_lowercase(ext@) == "wma"@ || spec_lowercase(ext@) == "wv"@ ||
                spec_lowercase(ext@) == "tta"@ || spec_lowercase(ext@) == "mka"@),
        is_ascii_text(ext@) ==> r == is_supported_extension_text(ascii_lower(ext@)),
{
    let lower = lowercase(ext);
    let e = lower.as_str();
    str_equal(e, "mp3") || str_equal(e, "mp2") || str_equal(e, "mp1") || str_equal(e, "wav")
        || str_equal(e, "aiff") || str_equal(e, "aif") || str_equal(e, "ogg") || str_equal(e, "flac")
        || str_equal(e, "m4a") || str_equal(e, "aac") || str_equal(e, "mp4") || str_equal(e, "alac")
        || str_equal(e, "opus") || str_equal(e, "ape") || str_equal(e, "wma") || str_equal(e, "wv")
        || str_equal(e, "tta") || str_equal(e, "mka")
}

/// Law: the supported formats are exactly these eighteen extensions, in
/// lower case: mp3, mp2, mp1, wav, aiff, aif, ogg, flac, m4a, aac, mp4, alac,
/// opus, ape, wma, wv, tta and mka.
pub proof fn law_supported_extensions_are_the_listed_formats(e: Seq<char>)
    ensures
        is_supported_extension_text(e) <== (e == "mp3"@ || e == "mp2"@ || e == "mp1"@ || e == "wav"@
                || e == "aiff"@ ||
                e == "aif"@ || e == "ogg"@ || e == "flac"@ || e == "m4a"@ || e == "aac"@ ||
                e == "mp4"@ || e == "alac"@ || e == "opus"@ || e == "ape"@ ||
                e == "wma"@ || e == "wv"@ || e == "tta"@ || e == "mka"@),
        is_supported_extension_text(e) ==> (e == "mp3"@ || e == "mp2"@ || e == "mp1"@ || e == "wav"@
                || e == "aiff"@ ||
                e == "aif"@ || e == "ogg"@ || e == "flac"@ || e == "m4a"@ || e == "aac"@ ||
                e == "mp4"@ || e == "alac"@ || e == "opus"@ || e == "ape"@ ||
                e == "wma"@ || e == "wv"@ || e == "tta"@ || e == "mka"@),
{
}

/// Whether the file at `path` is a supported audio file by its extension.
/// A path with no extension never is; a supported one ends its file name in
/// `.` and an extension that lowercases to a supported one; for a path with a
/// clear extension (Windows paths such as `C:\Music\a.mp3` among them) the
/// answer is whether that extension, lowercased, is supported.
pub fn is_supported_audio_file(path: &str) -> (r: bool)
    ensures
        has_clear_extension(path@) ==> r == is_supported_extension_text(spec_lowercase(clear_extension(path@))),
        has_clear_extension(path@) && is_ascii_text(path@) ==> r == is_supported_extension_text(
            ascii_lower(clear_extension(path@)),
        ),
        is_dot_name_without_extension(path@) ==> !r,
        !path@.contains('.') ==> !r,
        r ==> exists|e: Seq<char>|
            has_substring(path@, seq!['.'] + e) && !e.contains('.') && is_supported_extension_text(
                spec_lowercase(e),
            ),
{
    match path_extension(path) {
        Some(e) => {
            proof {
                if has_clear_extension(path@) && is_ascii_text(path@) {
                    let base = base_name(path@);
                    lemma_last_index_of_bounds(path@, '/');
                    lemma_last_index_of_bounds(path@, '\\');
                    lemma_last_index_of_bounds(base, '.');
                    let cut = path@.len() - base.len();
                    let start = last_index_of(base, '.') + 1;
                    assert forall|i: int| 0 <= i < e@.len() implies (#[trigger] e@[i] as u32) < 128 by {
                        assert(e@[i] == base[start + i]);
                        assert(base[start + i] == path@[cut + start + i]);
                    }
                }
            }
            is_supported_extension(e.as_str())
        },
        None => false,
    }
}

/// The extension of the file at `path`, lowercased; none for a path without
/// one; for a path with a clear extension, the part of its base name after
/// the last `.`, lowercased.
pub fn get_extension(path: &str) -> (r: Option<String>)
    ensures
        has_clear_extension(path@) ==> (r matches Some(x) && x@ == spec_lowercase(clear_extension(path@))),
        is_dot_name_without_extension(path@) ==> r is None,
        !path@.contains('.') ==> r is None,
        r matches Some(x) ==> exists|e: Seq<char>|
            has_substring(path@, seq!['.'] + e) && !e.contains('.') && x@ == spec_lowercase(e),
{
    match path_extension(path) {
        Some(e) => Some(lowercase(e.as_str())),
        None => None,
    }
}

} // verus!
