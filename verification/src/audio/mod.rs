pub mod audio_state;
pub mod bass_ffi;
pub mod engine;
pub mod playback;
