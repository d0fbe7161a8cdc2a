use music_player::commands::scan_commands::folder_missing_error;
use music_player::errors::AppError;

#[test]
fn codes_and_messages() {
    let e = AppError::FileNotFound("/x.mp3".to_string());
    assert_eq!(e.code(), "FileNotFound");
    assert_eq!(e.message(), "File not found: /x.mp3");
    let e = AppError::NoActiveStream;
    assert_eq!(e.code(), "NoActiveStream");
    assert_eq!(e.message(), "No active stream");
    assert_eq!(AppError::ScanCancelled.message(), "Scan cancelled");
    assert_eq!(AppError::DatabaseError("locked".into()).message(), "Database error: locked");
}

#[test]
fn dto_marks_recoverable_errors() {
    let all = vec![
        AppError::AudioCoreMissing("a".into()),
        AppError::AudioCoreLoadFailed("a".into()),
        AppError::AudioPluginLoadFailed("a".into()),
        AppError::AudioInitFailed("a".into()),
        AppError::FileNotFound("a".into()),
        AppError::FileAccessDenied("a".into()),
        AppError::UnsupportedFormat("a".into()),
        AppError::CorruptedFile("a".into()),
        AppError::PlaybackError("a".into()),
        AppError::SeekFailed("a".into()),
        AppError::NoActiveStream,
        AppError::DatabaseError("a".into()),
        AppError::ScanCancelled,
        AppError::ScanFailed("a".into()),
        AppError::InvalidArgument("a".into()),
        AppError::InternalError("a".into()),
    ];
    let recoverable = ["FileNotFound", "PlaybackError", "SeekFailed", "ScanCancelled"];
    let mut codes = Vec::new();
    for e in &all {
        let d = e.to_dto();
        assert_eq!(d.code, e.code());
        assert_eq!(d.message, e.message());
        assert!(d.detail.is_none());
        assert_eq!(d.recoverable, recoverable.contains(&e.code()));
        codes.push(d.code);
    }
    let mut unique = codes.clone();
    unique.sort();
    unique.dedup();
    assert_eq!(unique.len(), codes.len());
}

#[test]
fn missing_folder_is_reported() {
    let e = folder_missing_error("/no/such");
    assert_eq!(e.code, "FileNotFound");
    assert_eq!(e.message, "文件夹不存在: /no/such");
    assert!(e.recoverable);
    assert!(e.detail.is_none());
}
