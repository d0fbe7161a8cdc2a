//! How the audio engine turns the worker's replies into results: a command
//! that the worker refused keeps its message as a playback (or seek) error,
//! and a worker that is gone becomes an internal error.

use vstd::prelude::*;
use vstd::string::*;
use crate::errors::AppError;

verus! {

/// The error of a command that could not be handed to the worker.
pub fn worker_disconnected() -> (e: AppError)
    ensures
        e matches AppError::InternalError(m) && m@ == "Audio worker disconnected"@,
{
    AppError::InternalError(String::from_str("Audio worker disconnected"))
}

/// The error of a command whose reply never came.
pub fn reply_channel_closed() -> (e: AppError)
    ensures
        e matches AppError::InternalError(m) && m@ == "Audio worker reply channel closed"@,
{
    AppError::InternalError(String::from_str("Audio worker reply channel closed"))
}

/// The result of a command given the worker's reply (`None` when the reply
/// channel closed): the worker's value, or its refusal as a seek error (for
/// seeks) or a playback error (for everything else), or an internal error.
pub fn command_result<T>(reply: Option<Result<T, String>>, is_seek: bool) -> (r: Result<T, AppError>)
    ensures
        reply matches Some(Ok(v)) ==> r == Ok::<T, AppError>(v),
        reply matches Some(Err(m)) ==> (if is_seek {
            r matches Err(AppError::SeekFailed(x)) && x == m
        } else {
            r matches Err(AppError::PlaybackError(x)) && x == m
        }),
        reply is None ==> (r matches Err(AppError::InternalError(x)) && x@
            == "Audio worker reply channel closed"@),
{
    match reply {
        Some(Ok(v)) => Ok(v),
        Some(Err(m)) => {
            if is_seek {
                Err(AppError::SeekFailed(m))
            } else {
                Err(AppError::PlaybackError(m))
            }
        },
        None => Err(reply_channel_closed()),
    }
}

/// The result of a query given the worker's reply (`None` when the reply
/// channel closed).
pub fn query_result<T>(reply: Option<T>) -> (r: Result<T, AppError>)
    ensures
        reply matches Some(v) ==> r == Ok::<T, AppError>(v),
        reply is None ==> (r matches Err(AppError::InternalError(x)) && x@
            == "Audio worker reply channel closed"@),
{
    match reply {
        Some(v) => Ok(v),
        None => Err(reply_channel_closed()),
    }
}

} // verus!
