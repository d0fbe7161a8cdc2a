//! Playback, library and playlist rules of a local music player, with their
//! contracts proved by Verus.

pub mod audio;
pub mod clock;
pub mod commands;
pub mod db;
pub mod errors;
pub mod library;
pub mod text;
