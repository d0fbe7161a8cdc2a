//! The library's error type, its stable codes, its messages, and the record
//! handed to the interface.

use vstd::prelude::*;
use vstd::string::*;

verus! {

/// An error as the interface receives it.
#[derive(Debug, Clone)]
pub struct AppErrorDto {
    pub code: String,
    pub message: String,
    pub detail: Option<String>,
    pub recoverable: bool,
}

/// Everything that can go wrong in the player.
#[derive(Debug, Clone)]
pub enum AppError {
    AudioCoreMissing(String),
    AudioCoreLoadFailed(String),
    AudioPluginLoadFailed(String),
    AudioInitFailed(String),
    FileNotFound(String),
    FileAccessDenied(String),
    UnsupportedFormat(String),
    CorruptedFile(String),
    PlaybackError(String),
    SeekFailed(String),
    NoActiveStream,
    DatabaseError(String),
    ScanCancelled,
    ScanFailed(String),
    InvalidArgument(String),
    InternalError(String),
}

impl AppError {
    /// The position of the error's kind among the kinds, in declaration order.
    pub open spec fn kind_index(self) -> int {
        match self {
            AppError::AudioCoreMissing(_) => 0,
            AppError::AudioCoreLoadFailed(_) => 1,
            AppError::AudioPluginLoadFailed(_) => 2,
            AppError::AudioInitFailed(_) => 3,
            AppError::FileNotFound(_) => 4,
            AppError::FileAccessDenied(_) => 5,
            AppError::UnsupportedFormat(_) => 6,
            AppError::CorruptedFile(_) => 7,
            AppError::PlaybackError(_) => 8,
            AppError::SeekFailed(_) => 9,
            AppError::NoActiveStream => 10,
            AppError::DatabaseError(_) => 11,
            AppError::ScanCancelled => 12,
            AppError::ScanFailed(_) => 13,
            AppError::InvalidArgument(_) => 14,
            AppError::InternalError(_) => 15,
        }
    }

    /// The stable code of each kind of error.
    pub open spec fn spec_code(self) -> Seq<char> {
        match self {
            AppError::AudioCoreMissing(_) => "AudioCoreMissing"@,
            AppError::AudioCoreLoadFailed(_) => "AudioCoreLoadFailed"@,
            AppError::AudioPluginLoadFailed(_) => "AudioPluginLoadFailed"@,
            AppError::AudioInitFailed(_) => "AudioInitFailed"@,
            AppError::FileNotFound(_) => "FileNotFound"@,
            AppError::FileAccessDenied(_) => "FileAccessDenied"@,
            AppError::UnsupportedFormat(_) => "UnsupportedFormat"@,
            AppError::CorruptedFile(_) => "CorruptedFile"@,
            AppError::PlaybackError(_) => "PlaybackError"@,
            AppError::SeekFailed(_) => "SeekFailed"@,
            AppError::NoActiveStream => "NoActiveStream"@,
            AppError::DatabaseError(_) => "DatabaseError"@,
            AppError::ScanCancelled => "ScanCancelled"@,
            AppError::ScanFailed(_) => "ScanFailed"@,
            AppError::InvalidArgument(_) => "InvalidArgument"@,
            AppError::InternalError(_) => "InternalError"@,
        }
    }

    /// The human-readable text of each error: a fixed prefix, then the detail.
    pub open spec fn spec_message(self) -> Seq<char> {
        match self {
            AppError::AudioCoreMissing(s) => "Audio core missing: "@ + s@,
            AppError::AudioCoreLoadFailed(s) => "Audio core load failed: "@ + s@,
            AppError::AudioPluginLoadFailed(s) => "Audio plugin load failed: "@ + s@,
            AppError::AudioInitFailed(s) => "Audio init failed: "@ + s@,
            AppError::FileNotFound(s) => "File not found: "@ + s@,
            AppError::FileAccessDenied(s) => "File access denied: "@ + s@,
            AppError::UnsupportedFormat(s) => "Unsupported format: "@ + s@,
            AppError::CorruptedFile(s) => "Corrupted file: "@ + s@,
            AppError::PlaybackError(s) => "Playback error: "@ + s@,
            AppError::SeekFailed(s) => "Seek failed: "@ + s@,
            AppError::NoActiveStream => "No active stream"@,
            AppError::DatabaseError(s) => "Database error: "@ + s@,
            AppError::ScanCancelled => "Scan cancelled"@,
            AppError::ScanFailed(s) => "Scan failed: "@ + s@,
            AppError::InvalidArgument(s) => "Invalid argument: "@ + s@,
            AppError::InternalError(s) => "Internal error: "@ + s@,
        }
    }

    /// The errors after which the user can simply carry on.
    pub open spec fn spec_recoverable(self) -> bool {
        match self {
            AppError::PlaybackError(_) | AppError::FileNotFound(_) | AppError::SeekFailed(_)
            | AppError::ScanCancelled => true,
            _ => false,
        }
    }

    /// The stable code of this error.
    pub fn code(&self) -> (r: &'static str)
        ensures
            r@ == self.spec_code(),
    {
        match self {
            AppError::AudioCoreMissing(_) => "AudioCoreMissing",
            AppError::AudioCoreLoadFailed(_) => "AudioCoreLoadFailed",
            AppError::AudioPluginLoadFailed(_) => "AudioPluginLoadFailed",
            AppError::AudioInitFailed(_) => "AudioInitFailed",
            AppError::FileNotFound(_) => "FileNotFound",
            AppError::FileAccessDenied(_) => "FileAccessDenied",
            AppError::UnsupportedFormat(_) => "UnsupportedFormat",
            AppError::CorruptedFile(_) => "CorruptedFile",
            AppError::PlaybackError(_) => "PlaybackError",
            AppError::SeekFailed(_) => "SeekFailed",
            AppError::NoActiveStream => "NoActiveStream",
            AppError::DatabaseError(_) => "DatabaseError",
            AppError::ScanCancelled => "ScanCancelled",
            AppError::ScanFailed(_) => "ScanFailed",
            AppError::InvalidArgument(_) => "InvalidArgument",
            AppError::InternalError(_) => "InternalError",
        }
    }

    /// The human-readable text of this error.
    pub fn message(&self) -> (r: String)
        ensures
            r@ == self.spec_message(),
    {
        match self {
            AppError::AudioCoreMissing(s) => String::from_str("Audio core missing: ").concat(s.as_str()),
            AppError::AudioCoreLoadFailed(s) => String::from_str("Audio core load failed: ").concat(s.as_str()),
            AppError::AudioPluginLoadFailed(s) => String::from_str("Audio plugin load failed: ").concat(s.as_str()),
            AppError::AudioInitFailed(s) => String::from_str("Audio init failed: ").concat(s.as_str()),
            AppError::FileNotFound(s) => String::from_str("File not found: ").concat(s.as_str()),
            AppError::FileAccessDenied(s) => String::from_str("File access denied: ").concat(s.as_str()),
            AppError::UnsupportedFormat(s) => String::from_str("Unsupported format: ").concat(s.as_str()),
            AppError::CorruptedFile(s) => String::from_str("Corrupted file: ").concat(s.as_str()),
            AppError::PlaybackError(s) => String::from_str("Playback error: ").concat(s.as_str()),
            AppError::SeekFailed(s) => String::from_str("Seek failed: ").concat(s.as_str()),
            AppError::NoActiveStream => String::from_str("No active stream"),
            AppError::DatabaseError(s) => String::from_str("Database error: ").concat(s.as_str()),
            AppError::ScanCancelled => String::from_str("Scan cancelled"),
            AppError::ScanFailed(s) => String::from_str("Scan failed: ").concat(s.as_str()),
            AppError::InvalidArgument(s) => String::from_str("Invalid argument: ").concat(s.as_str()),
            AppError::InternalError(s) => String::from_str("Internal error: ").concat(s.as_str()),
        }
    }

    /// Whether the user can simply carry on after this error.
    pub fn is_recoverable(&self) -> (r: bool)
        ensures
            r == self.spec_recoverable(),
    {
        match self {
            AppError::PlaybackError(_) | AppError::FileNotFound(_) | AppError::SeekFailed(_)
            | AppError::ScanCancelled => true,
            _ => false,
        }
    }

    /// The record of this error for the interface: its code, its message, no
    /// detail, and whether it is recoverable.
    pub fn to_dto(&self) -> (d: AppErrorDto)
        ensures
            d.code@ == self.spec_code(),
            d.message@ == self.spec_message(),
            d.detail is None,
            d.recoverable == self.spec_recoverable(),
    {
        AppErrorDto {
            code: String::from_str(self.code()),
            message: self.message(),
            detail: None,
            recoverable: self.is_recoverable(),
        }
    }
}

/// Law: the code identifies the kind of error. Two errors with the same code
/// are of the same kind, so the interface can tell errors apart by code.
pub proof fn law_error_code_identifies_kind(a: AppError, b: AppError)
    requires
        a.spec_code() == b.spec_code(),
    ensures
        a.kind_index() == b.kind_index(),
{
    reveal_strlit("AudioCoreMissing");
    reveal_strlit("AudioCoreLoadFailed");
    reveal_strlit("AudioPluginLoadFailed");
    reveal_strlit("AudioInitFailed");
    reveal_strlit("FileNotFound");
    reveal_strlit("FileAccessDenied");
    reveal_strlit("UnsupportedFormat");
    reveal_strlit("CorruptedFile");
    reveal_strlit("PlaybackError");
    reveal_strlit("SeekFailed");
    reveal_strlit("NoActiveStream");
    reveal_strlit("DatabaseError");
    reveal_strlit("ScanCancelled");
    reveal_strlit("ScanFailed");
    reveal_strlit("InvalidArgument");
    reveal_strlit("InternalError");
    let ca = a.spec_code();
    let cb = b.spec_code();
    assert(ca.len() == cb.len());
    assert(ca[0] == cb[0]);
    assert(ca[1] == cb[1]);
}

} // verus!
