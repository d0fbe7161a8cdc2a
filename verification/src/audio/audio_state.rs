//! Playback status, play modes, plugin load reports, and the state of the
//! current track as the player tracks it.

use vstd::prelude::*;
use vstd::string::*;
use crate::audio::bass_ffi::{bass_error_message, spec_error_message};

verus! {

/// Where playback stands.
#[derive(Debug, Clone, Copy, PartialEq, Eq, Structural)]
pub enum PlaybackStatus {
    Idle,
    Loading,
    Playing,
    Paused,
    Stopped,
    Ended,
    Error,
}

/// What happens when a track ends.
#[derive(Debug, Clone, Copy, PartialEq, Eq, Structural)]
pub enum PlayMode {
    Sequence,
    ListLoop,
    SingleLoop,
    Random,
}

impl Default for PlayMode {
    /// Playing the list in a loop is the default mode.
    fn default() -> (r: Self)
        ensures
            r == PlayMode::ListLoop,
    {
        PlayMode::ListLoop
    }
}

impl PlayMode {
    /// The mode that the mode button switches to.
    pub open spec fn spec_next(self) -> PlayMode {
        match self {
            PlayMode::Sequence => PlayMode::ListLoop,
            PlayMode::ListLoop => PlayMode::SingleLoop,
            PlayMode::SingleLoop => PlayMode::Random,
            PlayMode::Random => PlayMode::Sequence,
        }
    }

    /// The name of the mode shown to the user.
    pub open spec fn spec_label(self) -> Seq<char> {
        match self {
            PlayMode::Sequence => "顺序播放"@,
            PlayMode::ListLoop => "列表循环"@,
            PlayMode::SingleLoop => "单曲循环"@,
            PlayMode::Random => "随机播放"@,
        }
    }

    /// The mode that follows this one: sequence, list loop, single loop,
    /// random, and back to sequence.
    pub fn next(&self) -> (r: Self)
        ensures
            r == self.spec_next(),
    {
        match self {
            PlayMode::Sequence => PlayMode::ListLoop,
            PlayMode::ListLoop => PlayMode::SingleLoop,
            PlayMode::SingleLoop => PlayMode::Random,
            PlayMode::Random => PlayMode::Sequence,
        }
    }

    /// The name of the mode shown to the user.
    pub fn label(&self) -> (r: &'static str)
        ensures
            r@ == self.spec_label(),
    {
        match self {
            PlayMode::Sequence => "顺序播放",
            PlayMode::ListLoop => "列表循环",
            PlayMode::SingleLoop => "单曲循环",
            PlayMode::Random => "随机播放",
        }
    }
}

/// Law: the mode button cycles through all four modes. Pressing it never
/// keeps the mode, and four presses bring back the mode one started from.
pub proof fn law_play_mode_cycle(m: PlayMode)
    ensures
        m.spec_next() != m,
        m.spec_next().spec_next() != m,
        m.spec_next().spec_next().spec_next() != m,
        m.spec_next().spec_next().spec_next().spec_next() == m,
{
}

/// Law: no two modes share a name.
pub proof fn law_play_mode_labels_distinct(a: PlayMode, b: PlayMode)
    requires
        a != b,
    ensures
        a.spec_label() != b.spec_label(),
{
    reveal_strlit("顺序播放");
    reveal_strlit("列表循环");
    reveal_strlit("单曲循环");
    reveal_strlit("随机播放");
    assert(a.spec_label()[0] != b.spec_label()[0]);
}

/// What happened when one decoder plugin was to be loaded.
#[derive(Debug, Clone, Copy)]
pub enum PluginLoad {
    /// Its file is not in the audio core directory; no load was tried.
    NotFound,
    /// The audio core refused it, with this error code.
    Refused(i32),
    /// It loaded.
    Loaded,
}

/// How loading one decoder plugin went.
#[derive(Debug, Clone)]
pub struct PluginStatus {
    pub name: String,
    pub filename: String,
    pub loaded: bool,
    pub error_code: Option<i32>,
    pub error_message: Option<String>,
}

impl PluginStatus {
    /// The report for a plugin whose file is not there.
    pub fn missing(name: &str, filename: &str, shown_path: &str) -> (r: PluginStatus)
        ensures
            r.name@ == name@,
            r.filename@ == filename@,
            !r.loaded,
            r.error_code is None,
            r.error_message matches Some(m) && m@ == "文件不存在: "@ + shown_path@,
    {
        PluginStatus {
            name: String::from_str(name),
            filename: String::from_str(filename),
            loaded: false,
            error_code: None,
            error_message: Some(String::from_str("文件不存在: ").concat(shown_path)),
        }
    }

    /// The report for a plugin that the audio core refused, with its error.
    pub fn failed(name: &str, filename: &str, code: i32) -> (r: PluginStatus)
        ensures
            r.name@ == name@,
            r.filename@ == filename@,
            !r.loaded,
            r.error_code == Some(code),
            r.error_message matches Some(m) && m@ == spec_error_message(code as u32),
    {
        PluginStatus {
            name: String::from_str(name),
            filename: String::from_str(filename),
            loaded: false,
            error_code: Some(code),
            error_message: Some(bass_error_message(code as u32)),
        }
    }

    /// The report for one plugin, from what happened when it was to be
    /// loaded: missing (with the path looked at), refused (with the code), or
    /// loaded.
    pub fn report(name: &str, filename: &str, shown_path: &str, load: PluginLoad) -> (r: PluginStatus)
        ensures
            r.name@ == name@,
            r.filename@ == filename@,
            r.loaded == (load is Loaded),
            r.error_code == match load {
                PluginLoad::Refused(code) => Some(code),
                _ => None,
            },
            match load {
                PluginLoad::NotFound => r.error_message matches Some(m) && m@ == "文件不存在: "@ + shown_path@,
                PluginLoad::Refused(code) => r.error_message matches Some(m) && m@ == spec_error_message(
                    code as u32,
                ),
                PluginLoad::Loaded => r.error_message is None,
            },
    {
        match load {
            PluginLoad::NotFound => PluginStatus::missing(name, filename, shown_path),
            PluginLoad::Refused(code) => PluginStatus::failed(name, filename, code),
            PluginLoad::Loaded => PluginStatus::loaded(name, filename),
        }
    }

    /// The report for a plugin that loaded.
    pub fn loaded(name: &str, filename: &str) -> (r: PluginStatus)
        ensures
            r.name@ == name@,
            r.filename@ == filename@,
            r.loaded,
            r.error_code is None,
            r.error_message is None,
    {
        PluginStatus {
            name: String::from_str(name),
            filename: String::from_str(filename),
            loaded: true,
            error_code: None,
            error_message: None,
        }
    }
}

/// Which of the candidate directories, tried in order, holds the audio core:
/// the first one where it was found, or none.
pub fn first_core_dir(found: &Vec<bool>) -> (r: Option<usize>)
    ensures
        r matches Some(i) ==> i < found.len() && found[i as int] && forall|j: int| 0 <= j < i ==> !found[j],
        r is None ==> forall|j: int| 0 <= j < found.len() ==> !found[j],
{
    let mut i: usize = 0;
    while i < found.len()
        invariant
            i <= found.len(),
            forall|j: int| 0 <= j < i ==> !found[j],
        decreases found.len() - i,
    {
        if found[i] {
            return Some(i);
        }
        i += 1;
    }
    None
}

/// The decoder plugins that the audio core loads, as (name, file name), in
/// load order.
pub fn bass_plugins() -> (r: Vec<(&'static str, &'static str)>)
    ensures
        r.len() == 6,
        r[0].0@ == "bassflac"@ && r[0].1@ == "bassflac.dll"@,
        r[1].0@ == "bass_aac"@ && r[1].1@ == "bass_aac.dll"@,
        r[2].0@ == "bassopus"@ && r[2].1@ == "bassopus.dll"@,
        r[3].0@ == "bassape"@ && r[3].1@ == "bassape.dll"@,
        r[4].0@ == "basswma"@ && r[4].1@ == "basswma.dll"@,
        r[5].0@ == "bassalac"@ && r[5].1@ == "bassalac.dll"@,
{
    let mut v: Vec<(&'static str, &'static str)> = Vec::new();
    v.push(("bassflac", "bassflac.dll"));
    v.push(("bass_aac", "bass_aac.dll"));
    v.push(("bassopus", "bassopus.dll"));
    v.push(("bassape", "bassape.dll"));
    v.push(("basswma", "basswma.dll"));
    v.push(("bassalac", "bassalac.dll"));
    v
}

/// The state of the current track, everything but the output volume (which
/// stays with the output device).
#[derive(Debug, Clone)]
pub struct PlayerState {
    pub current_song_id: Option<i64>,
    pub current_path: Option<String>,
    pub status: PlaybackStatus,
    pub position_ms: u64,
    pub duration_ms: u64,
    pub muted: bool,
    pub play_mode: PlayMode,
    pub last_error: Option<String>,
    pub loaded_plugins: Vec<PluginStatus>,
}

impl PlayerState {
    /// The state before anything was played: idle, no track, not muted,
    /// looping the list, no error, no plugin loaded.
    pub open spec fn is_initial(self) -> bool {
        &&& self.current_song_id is None
        &&& self.current_path is None
        &&& self.status == PlaybackStatus::Idle
        &&& self.position_ms == 0
        &&& self.duration_ms == 0
        &&& !self.muted
        &&& self.play_mode == PlayMode::ListLoop
        &&& self.last_error is None
        &&& self.loaded_plugins@.len() == 0
    }

    /// The track stopped before its end: the position is more than one and a
    /// half seconds short of a known duration.
    pub open spec fn spec_premature_stop(self) -> bool {
        self.duration_ms > 0 && self.position_ms + 1500 < self.duration_ms
    }

    /// Whether the track stopped before its end (more than 1.5 s short of a
    /// known duration).
    pub fn is_premature_stop(&self) -> (r: bool)
        ensures
            r == self.spec_premature_stop(),
            r == (self.duration_ms > 0 && self.position_ms + 1500 < self.duration_ms),
    {
        self.duration_ms > 0 && self.position_ms < self.duration_ms && self.duration_ms
            - self.position_ms > 1500
    }
}

/// Law: with a known duration, a stop counts as premature exactly when the
/// position is more than 1500 ms (one and a half seconds) short of the end;
/// a stop within the last 1500 ms, or with no known duration, is the end of
/// the track. Stopping earlier never makes a premature stop less premature.
pub proof fn law_premature_means_more_than_1500_ms_short(s: PlayerState, t: PlayerState)
    ensures
        s.spec_premature_stop() <==> (s.duration_ms > 0 && s.position_ms < s.duration_ms && s.duration_ms
            - s.position_ms > 1500),
        s.duration_ms == 0 ==> !s.spec_premature_stop(),
        s.position_ms + 1500 >= s.duration_ms ==> !s.spec_premature_stop(),
        s.spec_premature_stop() && t.duration_ms == s.duration_ms && t.position_ms <= s.position_ms
            ==> t.spec_premature_stop(),
{
}

/// Law: a track that ended at its full length (as `finish_track` leaves it)
/// never counts as stopped early, so the next poll does not try to recover it.
pub proof fn law_finished_track_is_not_premature(s: PlayerState)
    requires
        s.position_ms == s.duration_ms,
    ensures
        !s.spec_premature_stop(),
{
}

impl Default for PlayerState {
    fn default() -> (r: Self)
        ensures
            r.is_initial(),
    {
        PlayerState {
            current_song_id: None,
            current_path: None,
            status: PlaybackStatus::Idle,
            position_ms: 0,
            duration_ms: 0,
            muted: false,
            play_mode: PlayMode::ListLoop,
            last_error: None,
            loaded_plugins: Vec::new(),
        }
    }
}

} // verus!
