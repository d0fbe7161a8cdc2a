//! The decisions of the audio worker: what each command and each poll of the
//! output channel does to the player state, and which calls into the audio
//! core follow. The worker thread performs those calls and reports back.

use vstd::prelude::*;
use vstd::string::*;
use crate::audio::audio_state::{PlaybackStatus, PlayMode, PlayerState, PluginStatus};
use crate::audio::bass_ffi::{
    bass_error_message, bass_error_name, is_recoverable_error, spec_error_message, spec_error_name,
    spec_is_recoverable_error, BASS_ACTIVE_PAUSED, BASS_ACTIVE_PLAYING, BASS_ACTIVE_STALLED,
    BASS_ACTIVE_STOPPED,
};
use crate::errors::AppError;
use crate::text::{contains_str, has_substring, push_signed_decimal, signed_decimal};

verus! {

/// What a resume command leads to.
#[derive(Debug, Clone, Copy, PartialEq, Eq, Structural)]
pub enum ResumeStep {
    /// Restart the given channel.
    PlayChannel(u32),
    /// No channel, but a track is known: rebuild the output and reload it.
    Recover,
    /// Nothing to resume.
    Nothing,
}

/// What a timer poll of a playing channel leads to.
#[derive(Debug, Clone, Copy, PartialEq, Eq, Structural)]
pub enum TickAction {
    /// The channel stopped short of the end: rebuild the output.
    Recover,
    /// The track reached its end.
    TrackEnded,
    /// Still playing: look for a stalled output.
    CheckStall,
    /// Nothing to do.
    Nothing,
}

/// What the worker knows about the track when it starts rebuilding the
/// output.
#[derive(Debug, Clone)]
pub struct RecoveryPlan {
    pub song_id: Option<i64>,
    pub path: Option<String>,
    pub position_ms: u64,
    pub was_playing: bool,
}

impl RecoveryPlan {
    /// The track to reload after the output was rebuilt; without one there is
    /// nothing to recover.
    pub fn target(&self) -> (r: Result<(i64, String), AppError>)
        ensures
            self.song_id is Some && self.path is Some ==> (r matches Ok((id, p)) && id
                == self.song_id->0 && p@ == self.path->0@),
            !(self.song_id is Some && self.path is Some) ==> r matches Err(AppError::NoActiveStream),
    {
        match (&self.song_id, &self.path) {
            (Some(id), Some(p)) => Ok((*id, p.clone())),
            _ => Err(AppError::NoActiveStream),
        }
    }

    /// Whether the reloaded track is moved back to where it was: only past
    /// its first half second.
    pub fn should_seek_back(&self) -> (r: bool)
        ensures
            r == (self.position_ms > 500),
    {
        self.position_ms > 500
    }
}

/// Whether enough time has passed since the last recovery attempt (more than
/// two seconds, given in nanoseconds), or none was made.
pub fn recovery_cooldown_over(since_last_nanos: Option<u128>) -> (r: bool)
    ensures
        r == match since_last_nanos {
            Some(t) => t > 2_000_000_000,
            None => true,
        },
{
    match since_last_nanos {
        Some(t) => t > 2_000_000_000,
        None => true,
    }
}

/// The message of a playback failure names a lost device, a dead channel or
/// a lost buffer.
pub open spec fn names_device_trouble(msg: Seq<char>) -> bool {
    has_substring(msg, "设备"@) || has_substring(msg, "通道"@) || has_substring(msg, "缓冲"@)
}

/// A failed play is retried after rebuilding the output when its message
/// names device trouble, or else when the last audio core error is one of the
/// recoverable ones.
pub open spec fn spec_should_retry_play(err: AppError, last_bass_error: Option<i32>) -> bool {
    let by_message = match err {
        AppError::PlaybackError(m) => names_device_trouble(m@),
        _ => false,
    };
    by_message || (last_bass_error matches Some(c) && spec_is_recoverable_error(c))
}

/// Whether a failed play is retried after rebuilding the output.
pub fn should_retry_play(err: &AppError, last_bass_error: Option<i32>) -> (r: bool)
    ensures
        r == spec_should_retry_play(*err, last_bass_error),
        last_bass_error matches Some(c) && spec_is_recoverable_error(c) ==> r,
        (err matches AppError::PlaybackError(m) && names_device_trouble(m@)) ==> r,
        !(err matches AppError::PlaybackError(m) && names_device_trouble(m@)) && !(last_bass_error matches Some(
            c,
        ) && spec_is_recoverable_error(c)) ==> !r,
{
    let by_message = match err {
        AppError::PlaybackError(m) => contains_str(m.as_str(), "设备") || contains_str(m.as_str(), "通道")
            || contains_str(m.as_str(), "缓冲"),
        _ => false,
    };
    if by_message {
        return true;
    }
    match last_bass_error {
        Some(code) => is_recoverable_error(code),
        None => false,
    }
}

/// Law: a failed play is retried after rebuilding the output whenever the
/// last audio core error is a recoverable one (a lost device, output not
/// initialised or not started, a dead channel, a lost buffer, a driver
/// fault: codes 23, 8, 10, 5, 4 and 3), whatever the error and its message.
pub proof fn law_recoverable_codes_are_retried(err: AppError, code: i32)
    requires
        code == 23 || code == 8 || code == 10 || code == 5 || code == 4 || code == 3,
    ensures
        spec_is_recoverable_error(code),
        spec_should_retry_play(err, Some(code)),
{
}

/// Law: a playback error carrying the message of a lost device, an
/// uninitialised device, a dead channel or a lost buffer is retried after
/// rebuilding the output, even when no error code is at hand.
pub proof fn law_device_messages_are_retried(e: AppError, code: u32)
    requires
        code == crate::audio::bass_ffi::BASS_ERROR_DEVICE || code == crate::audio::bass_ffi::BASS_ERROR_INIT
            || code == crate::audio::bass_ffi::BASS_ERROR_HANDLE || code
            == crate::audio::bass_ffi::BASS_ERROR_BUFLOST,
        e matches AppError::PlaybackError(m) && m@ == spec_error_message(code),
    ensures
        spec_should_retry_play(e, None),
{
    reveal_strlit("音频设备不可用（可能因蓝牙耳机切换）");
    reveal_strlit("音频设备未初始化");
    reveal_strlit("播放通道已失效");
    reveal_strlit("音频缓冲丢失");
    reveal_strlit("设备");
    reveal_strlit("通道");
    reveal_strlit("缓冲");
    let m = e->PlaybackError_0@;
    if code == crate::audio::bass_ffi::BASS_ERROR_DEVICE || code == crate::audio::bass_ffi::BASS_ERROR_INIT {
        assert(m.subrange(2, 4) =~= "设备"@);
        assert(crate::text::occurs_at(m, "设备"@, 2));
    } else if code == crate::audio::bass_ffi::BASS_ERROR_HANDLE {
        assert(m.subrange(2, 4) =~= "通道"@);
        assert(crate::text::occurs_at(m, "通道"@, 2));
    } else {
        assert(m.subrange(2, 4) =~= "缓冲"@);
        assert(crate::text::occurs_at(m, "缓冲"@, 2));
    }
}

/// The status after a poll of the channel found it in activity state `active`.
pub open spec fn polled_status(status: PlaybackStatus, active: u32) -> PlaybackStatus {
    if active == BASS_ACTIVE_PLAYING {
        if status != PlaybackStatus::Paused { PlaybackStatus::Playing } else { status }
    } else if active == BASS_ACTIVE_PAUSED {
        PlaybackStatus::Paused
    } else if active == BASS_ACTIVE_STOPPED {
        if status == PlaybackStatus::Playing { PlaybackStatus::Ended } else { status }
    } else {
        status
    }
}

/// Law: a poll that finds the channel stopped ends only a track that was
/// playing; a track the user stopped, paused, or that already ended or
/// failed keeps its status. A poll that finds the channel playing never
/// undoes a pause, and one that finds it paused always shows it paused.
pub proof fn law_stopped_channel_ends_only_playing_tracks(status: PlaybackStatus)
    ensures
        status != PlaybackStatus::Playing ==> polled_status(status, BASS_ACTIVE_STOPPED) == status,
        polled_status(PlaybackStatus::Playing, BASS_ACTIVE_STOPPED) == PlaybackStatus::Ended,
        polled_status(PlaybackStatus::Stopped, BASS_ACTIVE_STOPPED) == PlaybackStatus::Stopped,
        polled_status(PlaybackStatus::Paused, BASS_ACTIVE_PLAYING) == PlaybackStatus::Paused,
        status != PlaybackStatus::Paused ==> polled_status(status, BASS_ACTIVE_PLAYING) == PlaybackStatus::Playing,
        polled_status(status, BASS_ACTIVE_PAUSED) == PlaybackStatus::Paused,
{
}

/// The player and what it holds of the audio core: the open channel, whether
/// the core library is loaded and its output initialised, its version, and
/// the last error it reported.
#[derive(Debug)]
pub struct PlaybackMachine {
    pub state: PlayerState,
    pub stream: Option<u32>,
    pub bass_loaded: bool,
    pub bass_init_ok: bool,
    pub bass_version: Option<u32>,
    pub last_bass_error: Option<i32>,
    pub audio_core_path: Option<String>,
}

/// The error of a command that needs the audio core before it is loaded.
pub open spec fn is_core_missing(e: AppError) -> bool {
    e matches AppError::AudioCoreMissing(m) && m@ == "BASS 未初始化"@
}

fn core_missing() -> (e: AppError)
    ensures
        is_core_missing(e),
{
    AppError::AudioCoreMissing(String::from_str("BASS 未初始化"))
}

impl PlaybackMachine {
    /// Well-formed: an error status always comes with its message, and a
    /// channel is only open while the audio core is loaded.
    pub open spec fn wf(&self) -> bool {
        &&& self.state.status == PlaybackStatus::Error ==> self.state.last_error is Some
        &&& self.stream is Some ==> self.bass_loaded
    }

    /// The player before the audio core is loaded.
    pub fn new() -> (m: Self)
        ensures
            m.wf(),
            m.state.is_initial(),
            m.stream is None,
            !m.bass_loaded,
            !m.bass_init_ok,
            m.bass_version is None,
            m.last_bass_error is None,
            m.audio_core_path is None,
    {
        PlaybackMachine {
            state: PlayerState::default(),
            stream: None,
            bass_loaded: false,
            bass_init_ok: false,
            bass_version: None,
            last_bass_error: None,
            audio_core_path: None,
        }
    }

    /// Fails with `AudioCoreMissing` unless the audio core is loaded.
    pub fn require_loaded(&self) -> (r: Result<(), AppError>)
        ensures
            self.bass_loaded ==> r is Ok,
            !self.bass_loaded ==> (r matches Err(e) && is_core_missing(e)),
    {
        if self.bass_loaded {
            Ok(())
        } else {
            Err(core_missing())
        }
    }

    /// Records the directory where the audio core was found.
    pub fn core_dir_found(&mut self, dir: String)
        requires
            old(self).wf(),
        ensures
            final(self).wf(),
            *final(self) == (PlaybackMachine { audio_core_path: Some(dir), ..*old(self) }),
    {
        self.audio_core_path = Some(dir);
    }

    /// Records that the audio core library and its functions were loaded.
    pub fn core_loaded(&mut self)
        requires
            old(self).wf(),
        ensures
            final(self).wf(),
            *final(self) == (PlaybackMachine { bass_loaded: true, ..*old(self) }),
    {
        self.bass_loaded = true;
    }

    /// Records a failed `BASS_Init` with its error code, and returns the error:
    /// `BASS_Init 失败: <name> (<code>)`.
    pub fn init_failed(&mut self, code: i32) -> (e: AppError)
        requires
            old(self).wf(),
        ensures
            final(self).wf(),
            *final(self) == (PlaybackMachine { last_bass_error: Some(code), ..*old(self) }),
            e matches AppError::AudioInitFailed(m) && m@ == "BASS_Init 失败: "@ + spec_error_name(
                code as u32,
            ) + " ("@ + signed_decimal(code as int) + ")"@,
    {
        self.last_bass_error = Some(code);
        let mut m = String::from_str("BASS_Init 失败: ");
        m.append(bass_error_name(code as u32));
        m.append(" (");
        push_signed_decimal(&mut m, code as i64);
        m.append(")");
        AppError::AudioInitFailed(m)
    }

    /// Records an initialised output of the given version; the plugin list
    /// starts over.
    pub fn init_succeeded(&mut self, version: u32)
        requires
            old(self).wf(),
        ensures
            final(self).wf(),
            final(self).state.loaded_plugins@.len() == 0,
            final(self).state == (PlayerState { loaded_plugins: final(self).state.loaded_plugins, ..old(self).state }),
            *final(self) == (PlaybackMachine {
                bass_init_ok: true,
                bass_version: Some(version),
                state: final(self).state,
                ..*old(self)
            }),
    {
        self.bass_version = Some(version);
        self.bass_init_ok = true;
        self.state.loaded_plugins = Vec::new();
    }

    /// Adds the report of one plugin.
    pub fn record_plugin(&mut self, status: PluginStatus)
        requires
            old(self).wf(),
        ensures
            final(self).wf(),
            final(self).state.loaded_plugins@ == old(self).state.loaded_plugins@.push(status),
            final(self).state == (PlayerState { loaded_plugins: final(self).state.loaded_plugins, ..old(self).state }),
            *final(self) == (PlaybackMachine { state: final(self).state, ..*old(self) }),
    {
        self.state.loaded_plugins.push(status);
    }

    /// Keeps the message of a failed start of the audio core as the last error.
    pub fn record_start_error(&mut self, e: &AppError)
        requires
            old(self).wf(),
        ensures
            final(self).wf(),
            final(self).state.last_error matches Some(m) && m@ == e.spec_message(),
            final(self).state == (PlayerState { last_error: final(self).state.last_error, ..old(self).state }),
            *final(self) == (PlaybackMachine { state: final(self).state, ..*old(self) }),
    {
        self.state.last_error = Some(e.message());
    }

    /// Releases the output (the core library stays loaded): returns the
    /// channel to free; the output counts as not initialised and the plugin
    /// list is emptied.
    pub fn release_output(&mut self) -> (freed: Option<u32>)
        requires
            old(self).wf(),
        ensures
            final(self).wf(),
            freed == old(self).stream,
            final(self).state.loaded_plugins@.len() == 0,
            final(self).state == (PlayerState { loaded_plugins: final(self).state.loaded_plugins, ..old(self).state }),
            *final(self) == (PlaybackMachine { stream: None, bass_init_ok: false, state: final(self).state, ..*old(self) }),
    {
        let freed = self.stream;
        self.stream = None;
        self.bass_init_ok = false;
        self.state.loaded_plugins = Vec::new();
        freed
    }

    /// First step of playing a track. Without the audio core it fails with
    /// `AudioCoreMissing`; for a file that is not there the state turns to
    /// `Error` ("文件不存在") and it fails with `FileNotFound`. Otherwise the
    /// track becomes current and loading, the error is cleared, and the old
    /// channel (to free) is returned.
    pub fn begin_play(&mut self, song_id: i64, path: String, file_exists: bool) -> (r: Result<
        Option<u32>,
        AppError,
    >)
        requires
            old(self).wf(),
        ensures
            final(self).wf(),
            !old(self).bass_loaded ==> (r matches Err(e) && is_core_missing(e) && *final(self) == *old(self)),
            old(self).bass_loaded && !file_exists ==> {
                &&& r matches Err(AppError::FileNotFound(p)) && p@ == path@
                &&& final(self).state.last_error matches Some(m) && m@ == "文件不存在"@
                &&& final(self).state == (PlayerState { status: PlaybackStatus::Error, last_error: final(self).state.last_error, ..old(self).state })
                &&& *final(self) == (PlaybackMachine { state: final(self).state, ..*old(self) })
            },
            old(self).bass_loaded && file_exists ==> {
                &&& r == Ok::<Option<u32>, AppError>(old(self).stream)
                &&& *final(self) == (PlaybackMachine {
                    stream: None,
                    state: (PlayerState { status: PlaybackStatus::Loading, current_song_id: Some(song_id), current_path: Some(path), last_error: None, ..old(self).state }),
                    ..*old(self)
                })
            },
    {
        if !self.bass_loaded {
            return Err(core_missing());
        }
        if !file_exists {
            self.state.status = PlaybackStatus::Error;
            self.state.last_error = Some(String::from_str("文件不存在"));
            return Err(AppError::FileNotFound(path));
        }
        self.state.status = PlaybackStatus::Loading;
        self.state.current_song_id = Some(song_id);
        self.state.current_path = Some(path);
        self.state.last_error = None;
        let old_stream = self.stream;
        self.stream = None;
        Ok(old_stream)
    }

    /// Records the length of the newly opened channel.
    pub fn stream_opened(&mut self, duration_ms: u64)
        requires
            old(self).wf(),
        ensures
            final(self).wf(),
            *final(self) == (PlaybackMachine { state: (PlayerState { duration_ms: duration_ms, ..old(self).state }), ..*old(self) }),
    {
        self.state.duration_ms = duration_ms;
    }

    /// Records a channel that could not be opened or started: the error code
    /// is kept, the state turns to `Error` with the code's message, and the
    /// playback error carrying that message is returned.
    pub fn stream_failed(&mut self, code: i32) -> (e: AppError)
        requires
            old(self).wf(),
        ensures
            final(self).wf(),
            final(self).state.last_error matches Some(m) && m@ == spec_error_message(code as u32),
            e matches AppError::PlaybackError(m) && m@ == spec_error_message(code as u32),
            final(self).state == (PlayerState { status: PlaybackStatus::Error, last_error: final(self).state.last_error, ..old(self).state }),
            *final(self) == (PlaybackMachine { last_bass_error: Some(code), state: final(self).state, ..*old(self) }),
    {
        self.last_bass_error = Some(code);
        self.state.status = PlaybackStatus::Error;
        self.state.last_error = Some(bass_error_message(code as u32));
        AppError::PlaybackError(bass_error_message(code as u32))
    }

    /// Records a channel that started playing from its beginning.
    pub fn playback_started(&mut self, stream: u32)
        requires
            old(self).wf(),
            old(self).bass_loaded,
        ensures
            final(self).wf(),
            *final(self) == (PlaybackMachine {
                stream: Some(stream),
                state: (PlayerState { status: PlaybackStatus::Playing, position_ms: 0, ..old(self).state }),
                ..*old(self)
            }),
    {
        self.stream = Some(stream);
        self.state.status = PlaybackStatus::Playing;
        self.state.position_ms = 0;
    }

    /// Pause: fails without the audio core; with an open channel the state
    /// turns to `Paused` and the channel to pause is returned.
    pub fn pause(&mut self) -> (r: Result<Option<u32>, AppError>)
        requires
            old(self).wf(),
        ensures
            final(self).wf(),
            !old(self).bass_loaded ==> (r matches Err(e) && is_core_missing(e) && *final(self) == *old(self)),
            old(self).bass_loaded ==> r == Ok::<Option<u32>, AppError>(old(self).stream),
            old(self).bass_loaded && old(self).stream is Some ==> *final(self) == (PlaybackMachine {
                state: (PlayerState { status: PlaybackStatus::Paused, ..old(self).state }),
                ..*old(self)
            }),
            old(self).stream is None ==> *final(self) == *old(self),
    {
        if !self.bass_loaded {
            return Err(core_missing());
        }
        if self.stream.is_some() {
            self.state.status = PlaybackStatus::Paused;
        }
        Ok(self.stream)
    }

    /// Resume: fails without the audio core; restarts the open channel, or,
    /// with no channel but a known track, asks for the output to be rebuilt.
    pub fn resume(&self) -> (r: Result<ResumeStep, AppError>)
        ensures
            !self.bass_loaded ==> (r matches Err(e) && is_core_missing(e)),
            self.bass_loaded ==> r is Ok,
            self.bass_loaded && self.stream is Some ==> r == Ok::<ResumeStep, AppError>(
                ResumeStep::PlayChannel(self.stream->0),
            ),
            self.bass_loaded && self.stream is None && self.state.current_song_id is Some
                && self.state.current_path is Some ==> r == Ok::<ResumeStep, AppError>(
                ResumeStep::Recover,
            ),
            self.bass_loaded && self.stream is None && !(self.state.current_song_id is Some
                && self.state.current_path is Some) ==> r == Ok::<ResumeStep, AppError>(
                ResumeStep::Nothing,
            ),
    {
        if !self.bass_loaded {
            return Err(core_missing());
        }
        match self.stream {
            Some(s) => Ok(ResumeStep::PlayChannel(s)),
            None => {
                if self.state.current_song_id.is_some() && self.state.current_path.is_some() {
                    Ok(ResumeStep::Recover)
                } else {
                    Ok(ResumeStep::Nothing)
                }
            },
        }
    }

    /// Records a channel that is playing again (after a resume, or after the
    /// output came back): status `Playing`, and when the output came back the
    /// error is cleared.
    pub fn playing_again(&mut self, output_recovered: bool)
        requires
            old(self).wf(),
        ensures
            final(self).wf(),
            *final(self) == (PlaybackMachine {
                state: (PlayerState { status: PlaybackStatus::Playing, last_error: if output_recovered { None } else { old(self).state.last_error }, ..old(self).state }),
                ..*old(self)
            }),
    {
        self.state.status = PlaybackStatus::Playing;
        if output_recovered {
            self.state.last_error = None;
        }
    }

    /// Keeps the error code of a failed call into the audio core.
    pub fn core_error(&mut self, code: i32)
        requires
            old(self).wf(),
        ensures
            final(self).wf(),
            *final(self) == (PlaybackMachine { last_bass_error: Some(code), ..*old(self) }),
    {
        self.last_bass_error = Some(code);
    }

    /// Stop: fails without the audio core; otherwise the state turns to
    /// `Stopped` at position 0, and the channel to stop is returned.
    pub fn stop(&mut self) -> (r: Result<Option<u32>, AppError>)
        requires
            old(self).wf(),
        ensures
            final(self).wf(),
            !old(self).bass_loaded ==> (r matches Err(e) && is_core_missing(e) && *final(self) == *old(self)),
            old(self).bass_loaded ==> r == Ok::<Option<u32>, AppError>(old(self).stream) && *final(self) == (PlaybackMachine {
                state: (PlayerState { status: PlaybackStatus::Stopped, position_ms: 0, ..old(self).state }),
                ..*old(self)
            }),
    {
        if !self.bass_loaded {
            return Err(core_missing());
        }
        self.state.status = PlaybackStatus::Stopped;
        self.state.position_ms = 0;
        Ok(self.stream)
    }

    /// The channel that a seek moves: fails without the audio core, and with
    /// `NoActiveStream` when no channel is open.
    pub fn seek_channel(&self) -> (r: Result<u32, AppError>)
        ensures
            !self.bass_loaded ==> (r matches Err(e) && is_core_missing(e)),
            self.bass_loaded && self.stream is None ==> r matches Err(AppError::NoActiveStream),
            self.bass_loaded && self.stream is Some ==> r == Ok::<u32, AppError>(self.stream->0),
    {
        if !self.bass_loaded {
            return Err(core_missing());
        }
        match self.stream {
            Some(s) => Ok(s),
            None => Err(AppError::NoActiveStream),
        }
    }

    /// Records a refused seek: the code is kept and the seek error carries
    /// its message.
    pub fn seek_failed(&mut self, code: i32) -> (e: AppError)
        requires
            old(self).wf(),
        ensures
            final(self).wf(),
            *final(self) == (PlaybackMachine { last_bass_error: Some(code), ..*old(self) }),
            e matches AppError::SeekFailed(m) && m@ == spec_error_message(code as u32),
    {
        self.last_bass_error = Some(code);
        AppError::SeekFailed(bass_error_message(code as u32))
    }

    /// Sets the play mode; nothing else changes.
    pub fn set_play_mode(&mut self, mode: PlayMode)
        requires
            old(self).wf(),
        ensures
            final(self).wf(),
            *final(self) == (PlaybackMachine { state: (PlayerState { play_mode: mode, ..old(self).state }), ..*old(self) }),
    {
        self.state.play_mode = mode;
    }

    /// Takes in a poll of the open channel: its activity state and position.
    /// A playing channel means `Playing` unless the user paused; a paused one
    /// means `Paused`; a stopped one ends a playing track.
    pub fn poll(&mut self, active: u32, position_ms: u64)
        requires
            old(self).wf(),
        ensures
            final(self).wf(),
            *final(self) == (PlaybackMachine {
                state: (PlayerState { position_ms: position_ms, status: polled_status(old(self).state.status, active), ..old(self).state }),
                ..*old(self)
            }),
            active == BASS_ACTIVE_STOPPED && old(self).state.status != PlaybackStatus::Playing
                ==> final(self).state.status == old(self).state.status,
            active == BASS_ACTIVE_STOPPED && old(self).state.status == PlaybackStatus::Playing
                ==> final(self).state.status == PlaybackStatus::Ended,
            active == BASS_ACTIVE_PAUSED ==> final(self).state.status == PlaybackStatus::Paused,
            active == BASS_ACTIVE_PLAYING ==> final(self).state.status == if old(self).state.status
                == PlaybackStatus::Paused { PlaybackStatus::Paused } else { PlaybackStatus::Playing },
    {
        self.state.position_ms = position_ms;
        if active == BASS_ACTIVE_PLAYING {
            if self.state.status != PlaybackStatus::Paused {
                self.state.status = PlaybackStatus::Playing;
            }
        } else if active == BASS_ACTIVE_PAUSED {
            self.state.status = PlaybackStatus::Paused;
        } else if active == BASS_ACTIVE_STOPPED {
            if self.state.status == PlaybackStatus::Playing {
                self.state.status = PlaybackStatus::Ended;
            }
        }
    }

    /// What a timer poll leads to, given whether the track was playing
    /// before the poll: a track that ended early asks for recovery, one that
    /// ended at its end is finished, one still playing is checked for stalls.
    pub fn after_poll(&self, was_playing: bool) -> (r: TickAction)
        ensures
            r == if was_playing && self.state.status == PlaybackStatus::Ended {
                if self.state.spec_premature_stop() { TickAction::Recover } else { TickAction::TrackEnded }
            } else if was_playing {
                TickAction::CheckStall
            } else {
                TickAction::Nothing
            },
            was_playing && self.state.status == PlaybackStatus::Ended && self.state.duration_ms > 0
                && self.state.position_ms + 1500 < self.state.duration_ms ==> r == TickAction::Recover,
            was_playing && self.state.status == PlaybackStatus::Ended && !(self.state.duration_ms > 0
                && self.state.position_ms + 1500 < self.state.duration_ms) ==> r == TickAction::TrackEnded,
    {
        if was_playing && self.state.status == PlaybackStatus::Ended {
            if self.state.is_premature_stop() {
                TickAction::Recover
            } else {
                TickAction::TrackEnded
            }
        } else if was_playing {
            TickAction::CheckStall
        } else {
            TickAction::Nothing
        }
    }

    /// Whether a playing track's channel, in activity state `active`, has
    /// stopped or stalled and needs the output rebuilt.
    pub fn is_stalled(&self, active: u32) -> (r: bool)
        ensures
            r == (self.state.status == PlaybackStatus::Playing && (active == BASS_ACTIVE_STOPPED
                || active == BASS_ACTIVE_STALLED)),
    {
        self.state.status == PlaybackStatus::Playing && (active == BASS_ACTIVE_STOPPED || active
            == BASS_ACTIVE_STALLED)
    }

    /// Records the natural end of the track: `Ended`, at its full length.
    pub fn finish_track(&mut self)
        requires
            old(self).wf(),
        ensures
            final(self).wf(),
            *final(self) == (PlaybackMachine {
                state: (PlayerState { status: PlaybackStatus::Ended, position_ms: old(self).state.duration_ms, ..old(self).state }),
                ..*old(self)
            }),
    {
        self.state.status = PlaybackStatus::Ended;
        self.state.position_ms = self.state.duration_ms;
    }

    /// Whether a toggle command pauses (the track plays) or resumes.
    pub fn toggle_pauses(&self) -> (r: bool)
        ensures
            r == (self.state.status == PlaybackStatus::Playing),
    {
        self.state.status == PlaybackStatus::Playing
    }

    /// What a recovery starts from: the current track, its position, and
    /// whether it was playing (or had just ended). Refused while the last
    /// attempt is less than two seconds old.
    pub fn plan_recovery(&self, cooldown_over: bool) -> (r: Result<RecoveryPlan, AppError>)
        ensures
            !cooldown_over ==> (r matches Err(AppError::PlaybackError(m)) && m@ == "恢复冷却中"@),
            cooldown_over ==> (r matches Ok(p) && {
                &&& p.song_id == self.state.current_song_id
                &&& p.path == self.state.current_path
                &&& p.position_ms == self.state.position_ms
                &&& p.was_playing == (self.state.status == PlaybackStatus::Playing || self.state.status
                    == PlaybackStatus::Ended)
            }),
    {
        if !cooldown_over {
            return Err(AppError::PlaybackError(String::from_str("恢复冷却中")));
        }
        Ok(RecoveryPlan {
            song_id: self.state.current_song_id,
            path: self.state.current_path.clone(),
            position_ms: self.state.position_ms,
            was_playing: self.state.status == PlaybackStatus::Playing || self.state.status
                == PlaybackStatus::Ended,
        })
    }
}

} // verus!
