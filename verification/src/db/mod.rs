pub mod playlist_repo;
pub mod song_repo;
