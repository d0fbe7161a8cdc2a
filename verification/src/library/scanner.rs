//! The bookkeeping of a folder scan: which files count, what happened to
//! each audio file, and the report at the end.

use vstd::prelude::*;
use vstd::string::*;
use crate::clock::unix_now;
use std::sync::atomic::AtomicBool;
use std::sync::Arc;

verus! {

/// A fresh random task id: uuid's `Uuid::new_v4()` in its hyphenated text
/// form. It is random, so only its shape is stated: 36 characters, with
/// hyphens after the 8th, 12th, 16th and 20th hex digit, and the version
/// digit `4` after the second hyphen (the uuid documentation of `new_v4` and
/// of the hyphenated format).
#[verifier::external_body]
pub(crate) fn new_task_id() -> (id: String)
    ensures
        id@.len() == 36,
        id@[8] == '-' && id@[13] == '-' && id@[18] == '-' && id@[23] == '-',
        id@[14] == '4',
{
    uuid::Uuid::new_v4().to_string()
}

/// A folder scan to run: its id, folder, target playlist, and the flag that
/// cancels it.
#[derive(Debug)]
pub struct ScanTask {
    pub task_id: String,
    pub root_path: String,
    pub playlist_id: i64,
    pub cancelled: Arc<AtomicBool>,
}

impl ScanTask {
    /// A new scan of `root_path` into the playlist, with a fresh random id
    /// and a cancel flag that starts cleared (the flag's value is not seen
    /// by the verifier).
    pub fn new(root_path: String, playlist_id: i64) -> (t: Self)
        ensures
            t.root_path == root_path,
            t.playlist_id == playlist_id,
            t.task_id@.len() == 36,
    {
        ScanTask {
            task_id: new_task_id(),
            root_path,
            playlist_id,
            cancelled: Arc::new(AtomicBool::new(false)),
        }
    }
}

/// The report of a folder scan.
#[derive(Debug, Clone)]
pub struct ScanTaskDto {
    pub task_id: String,
    pub root_path: String,
    pub playlist_id: i64,
    pub status: String,
    pub scanned_files: u32,
    pub matched_audio_files: u32,
    pub added: u32,
    pub updated: u32,
    pub skipped_duplicate: u32,
    pub failed: u32,
    pub current_path: Option<String>,
    pub started_at: i64,
    pub finished_at: Option<i64>,
}

/// The progress of a running scan.
#[derive(Debug, Clone)]
pub struct ScanStatusDto {
    pub task_id: String,
    pub status: String,
    pub scanned_files: u32,
    pub matched_audio_files: u32,
    pub added: u32,
    pub skipped_duplicate: u32,
    pub failed: u32,
    pub current_path: Option<String>,
}

/// The counts of a scan. Every audio file found gets exactly one outcome:
/// added, already known, or failed; `awaiting_outcome` marks the one file
/// whose outcome is still to come.
#[derive(Debug, Clone, Copy)]
pub struct ScanTally {
    pub scanned_files: u32,
    pub matched_audio_files: u32,
    pub added: u32,
    pub updated: u32,
    pub skipped_duplicate: u32,
    pub failed: u32,
    pub awaiting_outcome: bool,
}

impl ScanTally {
    /// Each audio file found has one outcome, or is the one awaiting it; the
    /// audio files are among the files seen; nothing counts as updated.
    pub open spec fn wf(self) -> bool {
        &&& self.added + self.skipped_duplicate + self.failed + (if self.awaiting_outcome { 1int } else { 0int })
            == self.matched_audio_files
        &&& self.matched_audio_files <= self.scanned_files
        &&& self.updated == 0
    }

    /// No file seen yet.
    pub fn new() -> (t: Self)
        ensures
            t.wf(),
            !t.awaiting_outcome,
            t.scanned_files == 0,
            t.matched_audio_files == 0,
            t.added == 0,
            t.skipped_duplicate == 0,
            t.failed == 0,
    {
        ScanTally {
            scanned_files: 0,
            matched_audio_files: 0,
            added: 0,
            updated: 0,
            skipped_duplicate: 0,
            failed: 0,
            awaiting_outcome: false,
        }
    }

    /// Takes in one entry of the walk: files count as scanned, and those with
    /// a supported audio extension count as matched and await their outcome.
    /// Returns whether the entry is an audio file to import.
    pub fn see_entry(&mut self, is_file: bool, supported: bool) -> (import: bool)
        requires
            old(self).wf(),
            !old(self).awaiting_outcome,
            old(self).scanned_files < u32::MAX,
        ensures
            final(self).wf(),
            import == (is_file && supported),
            final(self).awaiting_outcome == import,
            final(self).scanned_files == old(self).scanned_files + if is_file { 1int } else { 0int },
            final(self).matched_audio_files == old(self).matched_audio_files + if import { 1int } else { 0int },
            final(self).added == old(self).added,
            final(self).skipped_duplicate == old(self).skipped_duplicate,
            final(self).failed == old(self).failed,
    {
        if !is_file {
            return false;
        }
        self.scanned_files = self.scanned_files + 1;
        if !supported {
            return false;
        }
        self.matched_audio_files = self.matched_audio_files + 1;
        self.awaiting_outcome = true;
        true
    }

    /// The awaited file is already in the library: it is linked to the
    /// playlist and counts as a skipped duplicate.
    pub fn known_file(&mut self)
        requires
            old(self).wf(),
            old(self).awaiting_outcome,
        ensures
            final(self).wf(),
            !final(self).awaiting_outcome,
            final(self).skipped_duplicate == old(self).skipped_duplicate + 1,
            final(self).added == old(self).added,
            final(self).failed == old(self).failed,
            final(self).scanned_files == old(self).scanned_files,
            final(self).matched_audio_files == old(self).matched_audio_files,
    {
        self.skipped_duplicate = self.skipped_duplicate + 1;
        self.awaiting_outcome = false;
    }

    /// The awaited file was read and stored: it counts as added.
    pub fn added_file(&mut self)
        requires
            old(self).wf(),
            old(self).awaiting_outcome,
        ensures
            final(self).wf(),
            !final(self).awaiting_outcome,
            final(self).added == old(self).added + 1,
            final(self).skipped_duplicate == old(self).skipped_duplicate,
            final(self).failed == old(self).failed,
            final(self).scanned_files == old(self).scanned_files,
            final(self).matched_audio_files == old(self).matched_audio_files,
    {
        self.added = self.added + 1;
        self.awaiting_outcome = false;
    }

    /// The awaited file could not be looked up, read or stored: it counts as
    /// failed.
    pub fn failed_file(&mut self)
        requires
            old(self).wf(),
            old(self).awaiting_outcome,
        ensures
            final(self).wf(),
            !final(self).awaiting_outcome,
            final(self).failed == old(self).failed + 1,
            final(self).added == old(self).added,
            final(self).skipped_duplicate == old(self).skipped_duplicate,
            final(self).scanned_files == old(self).scanned_files,
            final(self).matched_audio_files == old(self).matched_audio_files,
    {
        self.failed = self.failed + 1;
        self.awaiting_outcome = false;
    }
}

/// Law: between two files, every audio file found has been counted exactly
/// once (added, skipped as known, or failed), and only files were counted as
/// audio files.
pub proof fn law_scan_counts_every_audio_file_once(t: ScanTally)
    requires
        t.wf(),
        !t.awaiting_outcome,
    ensures
        t.added + t.skipped_duplicate + t.failed == t.matched_audio_files,
        t.matched_audio_files <= t.scanned_files,
{
}

/// A scan under way: its task, target playlist, start time and counts.
#[derive(Debug, Clone)]
pub struct ScanProgress {
    pub task_id: String,
    pub root_path: String,
    pub playlist_id: i64,
    pub started_at: i64,
    pub tally: ScanTally,
}

impl ScanProgress {
    /// A scan that starts now.
    pub fn start(task_id: String, root_path: String, playlist_id: i64) -> (p: Self)
        ensures
            p.task_id == task_id,
            p.root_path == root_path,
            p.playlist_id == playlist_id,
            p.tally.wf(),
            !p.tally.awaiting_outcome,
            p.tally.scanned_files == 0,
            p.tally.matched_audio_files == 0,
    {
        ScanProgress { task_id, root_path, playlist_id, started_at: unix_now(), tally: ScanTally::new() }
    }

    /// The report of the scan as it ends now: `cancelled` or `finished`, with
    /// its counts.
    pub fn report(&self, cancelled: bool) -> (d: ScanTaskDto)
        ensures
            d.task_id == self.task_id,
            d.root_path == self.root_path,
            d.playlist_id == self.playlist_id,
            d.status@ == if cancelled { "cancelled"@ } else { "finished"@ },
            d.scanned_files == self.tally.scanned_files,
            d.matched_audio_files == self.tally.matched_audio_files,
            d.added == self.tally.added,
            d.updated == self.tally.updated,
            d.skipped_duplicate == self.tally.skipped_duplicate,
            d.failed == self.tally.failed,
            d.current_path is None,
            d.started_at == self.started_at,
            d.finished_at is Some,
    {
        ScanTaskDto {
            task_id: self.task_id.clone(),
            root_path: self.root_path.clone(),
            playlist_id: self.playlist_id,
            status: if cancelled { String::from_str("cancelled") } else { String::from_str("finished") },
            scanned_files: self.tally.scanned_files,
            matched_audio_files: self.tally.matched_audio_files,
            added: self.tally.added,
            updated: self.tally.updated,
            skipped_duplicate: self.tally.skipped_duplicate,
            failed: self.tally.failed,
            current_path: None,
            started_at: self.started_at,
            finished_at: Some(unix_now()),
        }
    }
}

} // verus!
