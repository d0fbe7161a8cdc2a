//! Turning what was read from an audio file (its size and time, and the tags
//! that the tag reader found) into a song record.

use vstd::prelude::*;
use vstd::string::*;
use crate::clock::unix_now;
use crate::db::song_repo::{normalize_path_key, spec_path_key, SongDto};
use crate::library::file_path::{clear_extension, has_clear_extension, is_dot_name_without_extension, is_plain_file_path, path_extension, path_file_stem, plain_stem};
use crate::text::{has_substring, lowercase, parse_i32, spec_lowercase, spec_parse_i32, spec_trim, trim};

verus! {

/// The text tags of a file, as the tag reader returned them.
#[derive(Debug, Clone)]
pub struct TagFields {
    pub title: Option<String>,
    pub artist: Option<String>,
    pub album: Option<String>,
    pub genre: Option<String>,
    pub track_number: Option<String>,
    pub disc_number: Option<String>,
    pub album_artist: Option<String>,
}

/// What reading the file's audio properties and tags gave.
#[derive(Debug, Clone)]
pub enum TagRead {
    /// The file was read: its length, and its primary (or else first) tag.
    Read { duration_ms: i64, tag: Option<TagFields> },
    /// The file opened but its tags could not be read; the reader's message.
    TagsUnreadable(String),
    /// The file could not be opened; the reader's message.
    OpenFailed(String),
}

/// A tag text, trimmed; absent when nothing but whitespace is left.
pub open spec fn trimmed_tag(f: Option<String>) -> Option<Seq<char>> {
    match f {
        Some(s) => if spec_trim(s@).len() > 0 { Some(spec_trim(s@)) } else { None },
        None => None,
    }
}

/// A tag number, read as an `i32`; absent when the text is not one.
pub open spec fn number_tag(f: Option<String>) -> Option<i32> {
    match f {
        Some(s) => spec_parse_i32(s@),
        None => None,
    }
}

/// The view of an optional string.
pub open spec fn opt_view(o: Option<String>) -> Option<Seq<char>> {
    match o {
        Some(s) => Some(s@),
        None => None,
    }
}

/// The tag that was read, if any.
pub open spec fn read_tag(read: TagRead) -> Option<TagFields> {
    match read {
        TagRead::Read { tag, .. } => tag,
        _ => None,
    }
}

/// The title of a song: its trimmed title tag, or else its file name.
pub open spec fn song_title(file_name: Seq<char>, read: TagRead) -> Seq<char> {
    match read_tag(read) {
        Some(t) => match trimmed_tag(t.title) {
            Some(x) => x,
            None => file_name,
        },
        None => file_name,
    }
}

/// The title that the tag that was read gives: its title text, trimmed,
/// where that is not empty; none without a tag, a title, or with a blank one.
pub open spec fn tag_title(read: TagRead) -> Option<Seq<char>> {
    match read_tag(read) {
        Some(t) => trimmed_tag(t.title),
        None => None,
    }
}

/// Law: a song's title is the tag's title where the tag gives a non-blank
/// one, and its file name otherwise (no tag, no title, or a title of
/// whitespace only), whatever the file name is.
pub proof fn law_title_falls_back_to_file_name(file_name: Seq<char>, read: TagRead)
    ensures
        tag_title(read) is None ==> song_title(file_name, read) == file_name,
        tag_title(read) matches Some(x) ==> song_title(file_name, read) == x,
        read_tag(read) is None ==> song_title(file_name, read) == file_name,
        (read_tag(read) matches Some(t) && (t.title is None || spec_trim(t.title->0@).len() == 0))
            ==> song_title(file_name, read) == file_name,
        (read_tag(read) matches Some(t) && t.title is Some && spec_trim(t.title->0@).len() > 0)
            ==> song_title(file_name, read) == spec_trim(read_tag(read)->0.title->0@),
{
}

/// One text field of the tag that was read, trimmed and non-empty.
pub open spec fn text_field(read: TagRead, pick: spec_fn(TagFields) -> Option<String>) -> Option<Seq<char>> {
    match read_tag(read) {
        Some(t) => trimmed_tag(pick(t)),
        None => None,
    }
}

/// One number field of the tag that was read.
pub open spec fn number_field(read: TagRead, pick: spec_fn(TagFields) -> Option<String>) -> Option<i32> {
    match read_tag(read) {
        Some(t) => number_tag(pick(t)),
        None => None,
    }
}

/// The error kept with a song whose file or tags could not be read.
pub open spec fn read_error(read: TagRead) -> Option<Seq<char>> {
    match read {
        TagRead::Read { .. } => None,
        TagRead::TagsUnreadable(e) => Some("标签读取失败: "@ + e@),
        TagRead::OpenFailed(e) => Some("文件打开失败: "@ + e@),
    }
}

fn trimmed_field(f: &Option<String>) -> (r: Option<String>)
    ensures
        opt_view(r) == trimmed_tag(*f),
{
    match f {
        Some(s) => {
            let t = trim(s.as_str());
            if t.unicode_len() > 0 {
                Some(t)
            } else {
                None
            }
        },
        None => None,
    }
}

fn number_field_of(f: &Option<String>) -> (r: Option<i32>)
    ensures
        r == number_tag(*f),
{
    match f {
        Some(s) => parse_i32(s.as_str()),
        None => None,
    }
}

/// The song record for the file at `path`, from its file stem and extension,
/// its size and modification time, the time now, and what its tags gave. The
/// title falls back to the file name (or `Unknown`), tag texts are trimmed
/// and dropped when empty, track and disc numbers are read as integers, the
/// extension is lowercased and doubles as the format, and a file that could
/// not be read keeps the reason.
pub fn build_song(
    path: &str,
    file_stem: Option<String>,
    extension: Option<String>,
    size_bytes: i64,
    modified_time: i64,
    now: i64,
    read: TagRead,
) -> (song: SongDto)
    ensures
        song.id == 0,
        song.path@ == path@,
        song.path_key@ == spec_path_key(path@),
        song.file_name@ == match file_stem {
            Some(s) => s@,
            None => "Unknown"@,
        },
        song.title@ == song_title(song.file_name@, read),
        tag_title(read) is None ==> song.title@ == song.file_name@,
        tag_title(read) matches Some(x) ==> song.title@ == x,
        opt_view(song.artist) == text_field(read, |t: TagFields| t.artist),
        opt_view(song.album) == text_field(read, |t: TagFields| t.album),
        opt_view(song.genre) == text_field(read, |t: TagFields| t.genre),
        opt_view(song.album_artist) == text_field(read, |t: TagFields| t.album_artist),
        song.track_number == number_field(read, |t: TagFields| t.track_number),
        song.disc_number == number_field(read, |t: TagFields| t.disc_number),
        song.duration_ms == match read {
            TagRead::Read { duration_ms, .. } => duration_ms,
            _ => 0,
        },
        opt_view(song.extension) == match extension {
            Some(e) => Some(spec_lowercase(e@)),
            None => None,
        },
        opt_view(song.format) == opt_view(song.extension),
        song.codec_hint is None,
        song.size_bytes == size_bytes,
        song.modified_time == modified_time,
        song.added_at == now,
        song.updated_at == now,
        song.last_played_at is None,
        song.play_count == 0,
        song.playable,
        !song.missing,
        opt_view(song.last_error) == read_error(read),
{
    let file_name = match file_stem {
        Some(s) => s,
        None => String::from_str("Unknown"),
    };
    let ext = match &extension {
        Some(e) => Some(lowercase(e.as_str())),
        None => None,
    };
    let format = match &ext {
        Some(e) => Some(e.clone()),
        None => None,
    };
    let mut title = file_name.clone();
    let mut artist: Option<String> = None;
    let mut album: Option<String> = None;
    let mut genre: Option<String> = None;
    let mut album_artist: Option<String> = None;
    let mut track_number: Option<i32> = None;
    let mut disc_number: Option<i32> = None;
    let mut duration_ms: i64 = 0;
    let mut last_error: Option<String> = None;
    match &read {
        TagRead::Read { duration_ms: d, tag } => {
            duration_ms = *d;
            match tag {
                Some(t) => {
                    match trimmed_field(&t.title) {
                        Some(x) => {
                            title = x;
                        },
                        None => {},
                    }
                    artist = trimmed_field(&t.artist);
                    album = trimmed_field(&t.album);
                    genre = trimmed_field(&t.genre);
                    track_number = number_field_of(&t.track_number);
                    disc_number = number_field_of(&t.disc_number);
                    album_artist = trimmed_field(&t.album_artist);
                },
                None => {},
            }
        },
        TagRead::TagsUnreadable(e) => {
            last_error = Some(String::from_str("标签读取失败: ").concat(e.as_str()));
        },
        TagRead::OpenFailed(e) => {
            last_error = Some(String::from_str("文件打开失败: ").concat(e.as_str()));
        },
    }
    SongDto {
        id: 0,
        path: String::from_str(path),
        path_key: normalize_path_key(path),
        file_name,
        title,
        artist,
        album,
        album_artist,
        genre,
        track_number,
        disc_number,
        duration_ms,
        format,
        extension: ext,
        codec_hint: None,
        size_bytes,
        modified_time,
        added_at: now,
        updated_at: now,
        last_played_at: None,
        play_count: 0,
        playable: true,
        missing: false,
        last_error,
    }
}

/// The song record for the file at `path`, its stem and extension taken from
/// the path and its timestamps from the clock; see `build_song` for the rest.
/// A plain path's file name is its stem; a path with a clear extension has
/// that extension, lowercased, as extension and format.
pub fn read_song(path: &str, size_bytes: i64, modified_time: i64, read: TagRead) -> (song: SongDto)
    ensures
        song.id == 0,
        song.path@ == path@,
        song.path_key@ == spec_path_key(path@),
        song.file_name@ == "Unknown"@ || (song.file_name@.len() > 0 && has_substring(path@, song.file_name@)),
        is_plain_file_path(path@) ==> song.file_name@ == plain_stem(path@),
        song.title@ == song_title(song.file_name@, read),
        tag_title(read) is None ==> song.title@ == song.file_name@,
        tag_title(read) matches Some(x) ==> song.title@ == x,
        opt_view(song.artist) == text_field(read, |t: TagFields| t.artist),
        opt_view(song.album) == text_field(read, |t: TagFields| t.album),
        opt_view(song.genre) == text_field(read, |t: TagFields| t.genre),
        opt_view(song.album_artist) == text_field(read, |t: TagFields| t.album_artist),
        song.track_number == number_field(read, |t: TagFields| t.track_number),
        song.disc_number == number_field(read, |t: TagFields| t.disc_number),
        song.duration_ms == match read {
            TagRead::Read { duration_ms, .. } => duration_ms,
            _ => 0,
        },
        !path@.contains('.') ==> song.extension is None,
        has_clear_extension(path@) ==> opt_view(song.extension) == Some(spec_lowercase(clear_extension(path@))),
        is_dot_name_without_extension(path@) ==> song.extension is None,
        opt_view(song.format) == opt_view(song.extension),
        song.size_bytes == size_bytes,
        song.modified_time == modified_time,
        song.added_at == song.updated_at,
        song.play_count == 0,
        song.playable,
        !song.missing,
        opt_view(song.last_error) == read_error(read),
{
    let stem = path_file_stem(path);
    let extension = path_extension(path);
    let now = unix_now();
    build_song(path, stem, extension, size_bytes, modified_time, now, read)
}

} // verus!
