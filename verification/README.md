# music_player

The rules of a local music player (playlists, a song library fed by folder
scans, and a BASS-based audio worker), written in Verus with their contracts
proved.

- `src/` — the verified library:
  - `audio/` — play modes and playback status, BASS error codes and messages,
    the playback machine (what each command and each poll of the output
    channel does to the player state, and how a lost output is recovered),
    and how worker replies become results;
  - `db/` — song and playlist records, the path key that identifies a file,
    and the playlist rules (default playlist kept, idempotent adding, orders);
  - `library/` — supported formats, song records from file tags, scan counts;
  - `errors.rs`, `commands/` — the error type and the records the interface
    receives;
  - `text.rs` — string helpers with exact specifications; `clock.rs` — the
    wall clock.
- `tests/` — tests of the library on concrete values.
- `app/` — the desktop program around it: the Tauri commands, the SQLite
  store, the folder walk and tag reading, and the audio worker thread that
  calls into the BASS DLL and follows the library's playback machine.
