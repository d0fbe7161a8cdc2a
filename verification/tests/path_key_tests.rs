use music_player::db::song_repo::normalize_path_key;
use music_player::library::supported_formats::{get_extension, is_supported_audio_file, is_supported_extension};

#[test]
fn path_key_unifies_separators_and_case() {
    assert_eq!(normalize_path_key("C:/Music//Artist\\Song.MP3"), "c:\\music\\artist\\song.mp3");
    assert_eq!(normalize_path_key("C:\\Music\\Artist\\Song.mp3"), "c:\\music\\artist\\song.mp3");
    assert_eq!(normalize_path_key("/a/b/"), "a\\b");
    assert_eq!(normalize_path_key(""), "");
    assert_eq!(normalize_path_key("\\\\//"), "");
    assert_eq!(normalize_path_key("Ünïcode/ÄB"), "ünïcode\\äb");
}

#[test]
fn path_key_same_for_separator_styles() {
    let a = normalize_path_key("D:/歌曲/周杰伦/晴天.flac");
    let b = normalize_path_key("D:\\歌曲\\周杰伦\\晴天.flac");
    assert_eq!(a, b);
}

#[test]
fn path_keys_are_canonical() {
    for p in ["//x//y//", "\\a\\\\b\\", "plain", "a/./b"] {
        let k = normalize_path_key(p);
        assert!(!k.starts_with('\\'));
        assert!(!k.ends_with('\\'));
        assert!(!k.contains("\\\\"));
    }
}

#[test]
fn supported_audio_files() {
    assert!(is_supported_audio_file("/music/a.MP3"));
    assert!(is_supported_audio_file("/music/b.flac"));
    assert!(is_supported_audio_file("song.Opus"));
    assert!(!is_supported_audio_file("/music/cover.jpg"));
    assert!(!is_supported_audio_file("/music/noext"));
    assert!(!is_supported_audio_file("/music.mp3/readme"));
    assert!(is_supported_extension("WMA"));
    assert!(is_supported_extension("mka"));
    assert!(!is_supported_extension("txt"));
    assert!(!is_supported_extension(""));
}

#[test]
fn extensions_lowercased() {
    assert_eq!(get_extension("/a/B.FLAC"), Some("flac".to_string()));
    assert_eq!(get_extension("/a/b"), None);
    assert_eq!(get_extension("x.tar.GZ"), Some("gz".to_string()));
}

#[test]
fn path_key_ignores_case_and_empty_segments() {
    assert_eq!(normalize_path_key("C:/Music/A.mp3"), normalize_path_key("c:\\MUSIC\\\\a.MP3"));
    assert_eq!(normalize_path_key("/Music/A.mp3/"), normalize_path_key("music\\a.mp3"));
    assert_ne!(normalize_path_key("C:/Music/A.mp3"), normalize_path_key("C:/Music/B.mp3"));
}

#[test]
fn path_key_is_stable() {
    for p in ["C:/Music//Artist\\Song.MP3", "/a/B/", "", "\\\\//", "Plain.WAV"] {
        let k = normalize_path_key(p);
        assert_eq!(normalize_path_key(&k), k);
        assert!(!k.contains('/'));
        assert_eq!(k.to_lowercase(), k);
    }
}

#[test]
fn windows_path_extensions() {
    assert_eq!(get_extension("C:\\Music\\Song.MP3"), Some("mp3".to_string()));
    assert_eq!(get_extension("C:\\Music\\song.mp3.bak"), Some("bak".to_string()));
    assert!(is_supported_audio_file("C:\\Music\\Song.MP3"));
    assert!(!is_supported_audio_file("C:\\Music\\song.mp3.bak"));
    assert_eq!(get_extension("/home/u/.cache"), None);
    assert!(!is_supported_audio_file("/home/u/.mp3"));
    assert_eq!(get_extension("/music/a."), Some(String::new()));
}
