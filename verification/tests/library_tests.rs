use music_player::commands::library_commands::{AddOutcome, AddResultDto};
use music_player::db::playlist_repo::{check_deletable, draft_playlist, link_position, positions};
use music_player::library::metadata::{build_song, read_song, TagFields, TagRead};
use music_player::library::scanner::{ScanProgress, ScanTally, ScanTask};
use std::sync::atomic::Ordering;

fn tags() -> TagFields {
    TagFields {
        title: Some("  晴天  ".to_string()),
        artist: Some("周杰伦".to_string()),
        album: Some("   ".to_string()),
        genre: None,
        track_number: Some("3".to_string()),
        disc_number: Some("1/2".to_string()),
        album_artist: Some(" Jay ".to_string()),
    }
}

#[test]
fn song_from_tags() {
    let s = build_song(
        "D:/Music/Qing Tian.MP3",
        Some("Qing Tian".into()),
        Some("MP3".into()),
        1234,
        99,
        1_700_000_000,
        TagRead::Read { duration_ms: 269_000, tag: Some(tags()) },
    );
    assert_eq!(s.id, 0);
    assert_eq!(s.path, "D:/Music/Qing Tian.MP3");
    assert_eq!(s.path_key, "d:\\music\\qing tian.mp3");
    assert_eq!(s.file_name, "Qing Tian");
    assert_eq!(s.title, "晴天");
    assert_eq!(s.artist.as_deref(), Some("周杰伦"));
    assert_eq!(s.album, None);
    assert_eq!(s.genre, None);
    assert_eq!(s.album_artist.as_deref(), Some("Jay"));
    assert_eq!(s.track_number, Some(3));
    assert_eq!(s.disc_number, None);
    assert_eq!(s.duration_ms, 269_000);
    assert_eq!(s.extension.as_deref(), Some("mp3"));
    assert_eq!(s.format.as_deref(), Some("mp3"));
    assert_eq!((s.size_bytes, s.modified_time), (1234, 99));
    assert_eq!((s.added_at, s.updated_at), (1_700_000_000, 1_700_000_000));
    assert!(s.playable && !s.missing);
    assert_eq!(s.play_count, 0);
    assert!(s.last_error.is_none());
}

#[test]
fn song_without_tags_or_stem() {
    let s = build_song("x", None, None, 0, 0, 5, TagRead::Read { duration_ms: 10, tag: None });
    assert_eq!(s.file_name, "Unknown");
    assert_eq!(s.title, "Unknown");
    assert_eq!(s.extension, None);
    let s = build_song("x.ogg", Some("x".into()), Some("ogg".into()), 0, 0, 5, TagRead::TagsUnreadable("bad header".into()));
    assert_eq!(s.title, "x");
    assert_eq!(s.duration_ms, 0);
    assert_eq!(s.last_error.as_deref(), Some("标签读取失败: bad header"));
    let s = build_song("x.ogg", Some("x".into()), Some("ogg".into()), 0, 0, 5, TagRead::OpenFailed("denied".into()));
    assert_eq!(s.last_error.as_deref(), Some("文件打开失败: denied"));
}

#[test]
fn song_read_from_path() {
    let s = read_song("/music/My Song.FLAC", 10, 20, TagRead::Read { duration_ms: 1, tag: None });
    assert_eq!(s.file_name, "My Song");
    assert_eq!(s.title, "My Song");
    assert_eq!(s.extension.as_deref(), Some("flac"));
    assert_eq!(s.path_key, "music\\my song.flac");
    assert_eq!(s.added_at, s.updated_at);
    assert!(s.added_at > 1_600_000_000);
}

#[test]
fn scan_counts() {
    let mut t = ScanTally::new();
    assert!(!t.see_entry(false, true));
    assert_eq!(t.scanned_files, 0);
    assert!(!t.see_entry(true, false));
    assert_eq!((t.scanned_files, t.matched_audio_files), (1, 0));
    assert!(t.see_entry(true, true));
    t.added_file();
    assert!(t.see_entry(true, true));
    t.known_file();
    assert!(t.see_entry(true, true));
    t.failed_file();
    assert_eq!((t.scanned_files, t.matched_audio_files), (4, 3));
    assert_eq!((t.added, t.skipped_duplicate, t.failed, t.updated), (1, 1, 1, 0));
    assert_eq!(t.added + t.skipped_duplicate + t.failed, t.matched_audio_files);
}

#[test]
fn scan_reports() {
    let mut p = ScanProgress::start("task-1".into(), "/music".into(), 7);
    assert!(p.tally.see_entry(true, true));
    p.tally.added_file();
    let done = p.report(false);
    assert_eq!(done.status, "finished");
    assert_eq!(done.task_id, "task-1");
    assert_eq!(done.root_path, "/music");
    assert_eq!(done.playlist_id, 7);
    assert_eq!((done.scanned_files, done.matched_audio_files, done.added), (1, 1, 1));
    assert!(done.finished_at.unwrap() >= done.started_at);
    assert!(done.current_path.is_none());
    assert_eq!(p.report(true).status, "cancelled");
}

#[test]
fn add_counts() {
    let mut r = AddResultDto::new();
    assert!(AddResultDto::takes(true, true));
    assert!(!AddResultDto::takes(true, false));
    assert!(!AddResultDto::takes(false, true));
    r.added_file();
    r.added_file();
    r.known_file();
    r.failed_file();
    assert_eq!((r.added, r.skipped, r.failed), (2, 1, 1));
}

#[test]
fn add_counts_every_taken_file_once() {
    let outcomes = vec![
        AddOutcome::Added,
        AddOutcome::PassedOver,
        AddOutcome::AlreadyKnown,
        AddOutcome::Failed,
        AddOutcome::Added,
        AddOutcome::PassedOver,
    ];
    let r = AddResultDto::tally(&outcomes);
    assert_eq!((r.added, r.skipped, r.failed), (2, 1, 1));
    assert_eq!(r.added + r.skipped + r.failed + 2, outcomes.len() as u32);
    let r = AddResultDto::tally(&Vec::new());
    assert_eq!((r.added, r.skipped, r.failed), (0, 0, 0));
}

#[test]
fn song_read_from_windows_path() {
    let s = read_song("C:\\Music\\Song.MP3", 1, 2, TagRead::Read { duration_ms: 1, tag: None });
    assert_eq!(s.extension.as_deref(), Some("mp3"));
    assert_eq!(s.format.as_deref(), Some("mp3"));
    assert_eq!(s.path_key, "c:\\music\\song.mp3");
    let s = read_song("/home/u/.hidden", 1, 2, TagRead::Read { duration_ms: 1, tag: None });
    assert_eq!(s.extension, None);
    assert_eq!(s.file_name, ".hidden");
}

#[test]
fn playlists() {
    let p = draft_playlist("Road trip".into(), "custom".into(), None, 4);
    assert_eq!(p.sort_order, 5);
    assert_eq!(p.track_count, 0);
    assert_eq!(p.created_at, p.updated_at);
    assert_eq!(p.name, "Road trip");
    let p = draft_playlist("Folder".into(), "custom".into(), Some("/m".into()), 0);
    assert_eq!(p.sort_order, 1);
    assert_eq!(p.source_folder.as_deref(), Some("/m"));

    let e = check_deletable("default").unwrap_err();
    assert_eq!(e.code(), "InvalidArgument");
    assert_eq!(e.message(), "Invalid argument: 默认播放列表不能删除");
    assert!(check_deletable("custom").is_ok());

    assert_eq!(link_position(true, 9), None);
    assert_eq!(link_position(false, 9), Some(10));
    assert_eq!(link_position(false, 0), Some(1));

    let order = positions(&[30, 10, 20]);
    assert_eq!(order, vec![(30, 0), (10, 1), (20, 2)]);
    assert!(positions(&[]).is_empty());
}

#[test]
fn scan_tasks_get_fresh_ids() {
    let a = ScanTask::new("/music".into(), 1);
    let b = ScanTask::new("/music".into(), 1);
    assert_eq!(a.root_path, "/music");
    assert_eq!(a.playlist_id, 1);
    assert_eq!(a.task_id.len(), 36);
    assert_eq!(&a.task_id[14..15], "4");
    assert_ne!(a.task_id, b.task_id);
    assert!(!a.cancelled.load(Ordering::Relaxed));
}
