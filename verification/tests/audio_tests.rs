use music_player::audio::audio_state::{
    bass_plugins, first_core_dir, PlayMode, PlaybackStatus, PlayerState, PluginLoad, PluginStatus,
};
use music_player::audio::bass_ffi::{
    bass_error_message, bass_error_name, is_recoverable_error, BASS_ACTIVE_PAUSED, BASS_ACTIVE_PLAYING,
    BASS_ACTIVE_STALLED, BASS_ACTIVE_STOPPED, BASS_ERROR_BUFLOST, BASS_ERROR_DEVICE, BASS_ERROR_HANDLE,
    BASS_ERROR_INIT, BASS_ERROR_UNKNOWN,
};
use music_player::audio::engine::{command_result, query_result, worker_disconnected};
use music_player::audio::playback::{
    recovery_cooldown_over, should_retry_play, PlaybackMachine, ResumeStep, TickAction,
};
use music_player::errors::AppError;

#[test]
fn play_mode_cycle_and_labels() {
    let start = PlayMode::Sequence;
    assert_eq!(start.next(), PlayMode::ListLoop);
    assert_eq!(start.next().next(), PlayMode::SingleLoop);
    assert_eq!(start.next().next().next(), PlayMode::Random);
    assert_eq!(start.next().next().next().next(), start);
    assert_eq!(PlayMode::default(), PlayMode::ListLoop);
    assert_eq!(PlayMode::Sequence.label(), "顺序播放");
    assert_eq!(PlayMode::ListLoop.label(), "列表循环");
    assert_eq!(PlayMode::SingleLoop.label(), "单曲循环");
    assert_eq!(PlayMode::Random.label(), "随机播放");
}

#[test]
fn error_names_and_messages() {
    assert_eq!(bass_error_name(0), "BASS_OK");
    assert_eq!(bass_error_name(2), "BASS_ERROR_FILEOPEN");
    assert_eq!(bass_error_name(41), "BASS_ERROR_FILEFORM");
    assert_eq!(bass_error_name(23), "BASS_ERROR_OTHER");
    assert_eq!(bass_error_name(BASS_ERROR_UNKNOWN), "BASS_ERROR_UNKNOWN");
    assert_eq!(bass_error_message(0), "成功");
    assert_eq!(bass_error_message(44), "编解码器不支持，可能需要安装插件");
    assert_eq!(bass_error_message(23), "音频设备不可用（可能因蓝牙耳机切换）");
    assert_eq!(bass_error_message(18), "无法创建播放通道");
    assert_eq!(bass_error_message(999), "BASS 错误 999");
    assert_eq!(bass_error_message(BASS_ERROR_UNKNOWN), "BASS 错误 4294967295");
}

#[test]
fn recoverable_codes() {
    for c in [3, 4, 5, 8, 10, 23] {
        assert!(is_recoverable_error(c));
    }
    for c in [-1, 0, 1, 2, 6, 41, 44] {
        assert!(!is_recoverable_error(c));
    }
}

#[test]
fn plugin_reports() {
    let p = PluginStatus::missing("bassflac", "bassflac.dll", "C:\\core\\bassflac.dll");
    assert!(!p.loaded);
    assert_eq!(p.error_message.as_deref(), Some("文件不存在: C:\\core\\bassflac.dll"));
    let p = PluginStatus::failed("bassape", "bassape.dll", 41);
    assert_eq!(p.error_code, Some(41));
    assert_eq!(p.error_message.as_deref(), Some("文件格式无法识别或编码不支持"));
    let p = PluginStatus::loaded("basswma", "basswma.dll");
    assert!(p.loaded && p.error_code.is_none() && p.error_message.is_none());
    let names: Vec<(&str, &str)> = bass_plugins();
    assert_eq!(names.len(), 6);
    assert_eq!(names[0], ("bassflac", "bassflac.dll"));
    assert_eq!(names[5], ("bassalac", "bassalac.dll"));
}

#[test]
fn premature_stop() {
    let mut s = PlayerState::default();
    assert_eq!(s.status, PlaybackStatus::Idle);
    assert!(!s.is_premature_stop());
    s.duration_ms = 10_000;
    s.position_ms = 8_499;
    assert!(s.is_premature_stop());
    s.position_ms = 8_500;
    assert!(!s.is_premature_stop());
    s.position_ms = 10_000;
    assert!(!s.is_premature_stop());
}

#[test]
fn commands_need_the_core() {
    let mut m = PlaybackMachine::new();
    let e = m.require_loaded().unwrap_err();
    assert_eq!(e.message(), "Audio core missing: BASS 未初始化");
    assert!(matches!(m.pause(), Err(AppError::AudioCoreMissing(_))));
    assert!(matches!(m.stop(), Err(AppError::AudioCoreMissing(_))));
    assert!(matches!(m.resume(), Err(AppError::AudioCoreMissing(_))));
    assert!(matches!(m.seek_channel(), Err(AppError::AudioCoreMissing(_))));
    assert!(matches!(m.begin_play(1, "/a.mp3".into(), true), Err(AppError::AudioCoreMissing(_))));
    assert_eq!(m.state.status, PlaybackStatus::Idle);
}

#[test]
fn init_reports() {
    let mut m = PlaybackMachine::new();
    m.core_dir_found("/core".into());
    m.core_loaded();
    let e = m.init_failed(-1);
    assert_eq!(e.message(), "Audio init failed: BASS_Init 失败: BASS_ERROR_UNKNOWN (-1)");
    assert_eq!(m.last_bass_error, Some(-1));
    m.record_start_error(&e);
    assert_eq!(m.state.last_error.as_deref(), Some("Audio init failed: BASS_Init 失败: BASS_ERROR_UNKNOWN (-1)"));
    let e = m.init_failed(8);
    assert_eq!(e.code(), "AudioInitFailed");
    assert!(e.message().ends_with("BASS_ERROR_INIT (8)"));
    m.init_succeeded(0x0204_1100);
    assert!(m.bass_init_ok);
    assert_eq!(m.bass_version, Some(0x0204_1100));
    m.record_plugin(PluginStatus::loaded("bassflac", "bassflac.dll"));
    assert_eq!(m.state.loaded_plugins.len(), 1);
    assert_eq!(m.release_output(), None);
    assert!(!m.bass_init_ok);
    assert!(m.state.loaded_plugins.is_empty());
}

#[test]
fn a_track_plays_pauses_resumes_and_ends() {
    let mut m = PlaybackMachine::new();
    m.core_dir_found("/core".into());
    m.core_loaded();
    m.init_succeeded(1);

    let e = m.begin_play(3, "/gone.mp3".into(), false).unwrap_err();
    assert!(matches!(e, AppError::FileNotFound(ref p) if p == "/gone.mp3"));
    assert_eq!(m.state.status, PlaybackStatus::Error);
    assert_eq!(m.state.last_error.as_deref(), Some("文件不存在"));

    assert_eq!(m.begin_play(4, "/a.mp3".into(), true).unwrap(), None);
    assert_eq!(m.state.status, PlaybackStatus::Loading);
    assert_eq!(m.state.current_song_id, Some(4));
    assert_eq!(m.state.current_path.as_deref(), Some("/a.mp3"));
    assert!(m.state.last_error.is_none());
    m.stream_opened(200_000);
    m.playback_started(77);
    assert_eq!(m.state.status, PlaybackStatus::Playing);
    assert_eq!(m.stream, Some(77));

    m.poll(BASS_ACTIVE_PLAYING, 1_000);
    assert_eq!(m.state.position_ms, 1_000);
    assert_eq!(m.after_poll(true), TickAction::CheckStall);
    assert!(!m.is_stalled(BASS_ACTIVE_PLAYING));
    assert!(m.is_stalled(BASS_ACTIVE_STALLED));
    assert!(m.toggle_pauses());

    assert_eq!(m.pause().unwrap(), Some(77));
    assert_eq!(m.state.status, PlaybackStatus::Paused);
    m.poll(BASS_ACTIVE_PLAYING, 1_100);
    assert_eq!(m.state.status, PlaybackStatus::Paused);
    assert!(!m.toggle_pauses());
    assert_eq!(m.resume().unwrap(), ResumeStep::PlayChannel(77));
    m.playing_again(false);
    assert_eq!(m.state.status, PlaybackStatus::Playing);

    // A second play frees the old channel.
    assert_eq!(m.begin_play(5, "/b.mp3".into(), true).unwrap(), Some(77));
    m.stream_opened(5_000);
    m.playback_started(78);
    m.poll(BASS_ACTIVE_STOPPED, 4_900);
    assert_eq!(m.state.status, PlaybackStatus::Ended);
    assert_eq!(m.after_poll(true), TickAction::TrackEnded);
    m.finish_track();
    assert_eq!(m.state.position_ms, 5_000);
    assert!(!m.state.is_premature_stop());
}

#[test]
fn early_stop_asks_for_recovery() {
    let mut m = PlaybackMachine::new();
    m.core_dir_found("/core".into());
    m.core_loaded();
    m.begin_play(1, "/a.mp3".into(), true).unwrap();
    m.stream_opened(60_000);
    m.playback_started(9);
    m.poll(BASS_ACTIVE_STOPPED, 10_000);
    assert_eq!(m.after_poll(true), TickAction::Recover);
    assert_eq!(m.after_poll(false), TickAction::Nothing);

    let refused = m.plan_recovery(false).unwrap_err();
    assert_eq!(refused.message(), "Playback error: 恢复冷却中");
    let plan = m.plan_recovery(true).unwrap();
    assert!(plan.was_playing);
    assert_eq!(plan.position_ms, 10_000);
    assert!(plan.should_seek_back());
    let (id, path) = plan.target().unwrap();
    assert_eq!((id, path.as_str()), (1, "/a.mp3"));
    assert_eq!(m.release_output(), Some(9));
    assert_eq!(m.stream, None);
    assert_eq!(m.resume().unwrap(), ResumeStep::Recover);
    m.playing_again(true);
    assert!(m.state.last_error.is_none());
}

#[test]
fn recovery_without_a_track() {
    let mut m = PlaybackMachine::new();
    m.core_dir_found("/core".into());
    m.core_loaded();
    let plan = m.plan_recovery(true).unwrap();
    assert!(!plan.was_playing);
    assert!(!plan.should_seek_back());
    assert!(matches!(plan.target(), Err(AppError::NoActiveStream)));
    assert_eq!(m.resume().unwrap(), ResumeStep::Nothing);
    assert!(matches!(m.seek_channel(), Err(AppError::NoActiveStream)));
}

#[test]
fn stop_seek_and_failures() {
    let mut m = PlaybackMachine::new();
    m.core_dir_found("/core".into());
    m.core_loaded();
    m.begin_play(1, "/a.mp3".into(), true).unwrap();
    let e = m.stream_failed(41);
    assert_eq!(m.state.status, PlaybackStatus::Error);
    assert_eq!(m.state.last_error.as_deref(), Some("文件格式无法识别或编码不支持"));
    assert_eq!(e.message(), "Playback error: 文件格式无法识别或编码不支持");
    assert!(!should_retry_play(&e, m.last_bass_error));

    let e = m.stream_failed(23);
    assert!(should_retry_play(&e, m.last_bass_error));
    assert!(should_retry_play(&e, None));
    assert!(should_retry_play(&AppError::FileNotFound("x".into()), Some(10)));
    assert!(!should_retry_play(&AppError::FileNotFound("x".into()), None));
    assert!(!should_retry_play(&AppError::PlaybackError(bass_error_message(10)), None));

    m.begin_play(1, "/a.mp3".into(), true).unwrap();
    m.stream_opened(3_000);
    m.playback_started(5);
    m.poll(BASS_ACTIVE_PAUSED, 700);
    assert_eq!(m.state.status, PlaybackStatus::Paused);
    assert_eq!(m.seek_channel().unwrap(), 5);
    let e = m.seek_failed(7);
    assert_eq!(e.code(), "SeekFailed");
    assert_eq!(e.message(), "Seek failed: BASS 错误 7");
    assert_eq!(m.stop().unwrap(), Some(5));
    assert_eq!(m.state.status, PlaybackStatus::Stopped);
    assert_eq!(m.state.position_ms, 0);
    m.set_play_mode(PlayMode::Random);
    assert_eq!(m.state.play_mode, PlayMode::Random);
    m.core_error(5);
    assert_eq!(m.last_bass_error, Some(5));
}

#[test]
fn device_messages_are_retried() {
    for c in [BASS_ERROR_DEVICE, BASS_ERROR_INIT, BASS_ERROR_HANDLE, BASS_ERROR_BUFLOST] {
        assert!(should_retry_play(&AppError::PlaybackError(bass_error_message(c)), None));
    }
}

#[test]
fn recovery_cooldown() {
    assert!(recovery_cooldown_over(None));
    assert!(!recovery_cooldown_over(Some(2_000_000_000)));
    assert!(recovery_cooldown_over(Some(2_000_000_001)));
}

#[test]
fn worker_replies() {
    assert_eq!(command_result::<u32>(Some(Ok(5)), false).unwrap(), 5);
    match command_result::<u32>(Some(Err("boom".into())), true) {
        Err(AppError::SeekFailed(m)) => assert_eq!(m, "boom"),
        other => panic!("unexpected {:?}", other),
    }
    match command_result::<u32>(Some(Err("boom".into())), false) {
        Err(AppError::PlaybackError(m)) => assert_eq!(m, "boom"),
        other => panic!("unexpected {:?}", other),
    }
    let e = command_result::<u32>(None, false).unwrap_err();
    assert_eq!(e.message(), "Internal error: Audio worker reply channel closed");
    assert_eq!(query_result(Some(3)).unwrap(), 3);
    assert!(matches!(query_result::<u8>(None), Err(AppError::InternalError(_))));
    assert_eq!(worker_disconnected().message(), "Internal error: Audio worker disconnected");
}

#[test]
fn steps_keep_what_they_do_not_touch() {
    let mut m = PlaybackMachine::new();
    m.core_dir_found("/core".into());
    m.core_loaded();
    m.init_succeeded(0x2040000);
    m.record_plugin(PluginStatus::loaded("bassflac", "bassflac.dll"));
    m.set_play_mode(PlayMode::SingleLoop);
    m.state.muted = true;
    m.begin_play(9, "/b.flac".into(), true).unwrap();
    m.stream_opened(4_000);
    m.playback_started(3);
    m.poll(BASS_ACTIVE_PLAYING, 1_000);
    m.stop().unwrap();
    assert_eq!(m.state.play_mode, PlayMode::SingleLoop);
    assert!(m.state.muted);
    assert_eq!(m.state.loaded_plugins.len(), 1);
    assert_eq!(m.state.duration_ms, 4_000);
    assert_eq!(m.state.current_song_id, Some(9));
    assert_eq!(m.bass_version, Some(0x2040000));
    assert_eq!(m.audio_core_path.as_deref(), Some("/core"));
    assert!(m.bass_init_ok);
    assert_eq!(m.stream, Some(3));
}

#[test]
fn plugin_report_from_load() {
    let r = PluginStatus::report("bassape", "bassape.dll", "/core/bassape.dll", PluginLoad::NotFound);
    assert!(!r.loaded && r.error_code.is_none());
    assert_eq!(r.error_message.as_deref(), Some("文件不存在: /core/bassape.dll"));
    let r = PluginStatus::report("basswma", "basswma.dll", "/core/basswma.dll", PluginLoad::Refused(2));
    assert!(!r.loaded);
    assert_eq!(r.error_code, Some(2));
    assert_eq!(r.error_message.as_deref(), Some("无法打开文件"));
    let r = PluginStatus::report("bassopus", "bassopus.dll", "/core/bassopus.dll", PluginLoad::Loaded);
    assert!(r.loaded && r.error_code.is_none() && r.error_message.is_none());
    assert_eq!(r.name, "bassopus");
}

#[test]
fn first_core_dir_found() {
    assert_eq!(first_core_dir(&vec![false, true, true, false]), Some(1));
    assert_eq!(first_core_dir(&vec![true]), Some(0));
    assert_eq!(first_core_dir(&vec![false, false]), None);
    assert_eq!(first_core_dir(&vec![]), None);
}
