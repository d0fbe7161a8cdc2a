//! The refusal of a scan whose folder is not there.

use vstd::prelude::*;
use vstd::string::*;
use crate::errors::AppErrorDto;

verus! {

/// The error reported for a scan of a folder that does not exist: code
/// `FileNotFound`, message `文件夹不存在: <path>`, recoverable.
pub fn folder_missing_error(path: &str) -> (e: AppErrorDto)
    ensures
        e.code@ == "FileNotFound"@,
        e.message@ == "文件夹不存在: "@ + path@,
        e.detail is None,
        e.recoverable,
{
    AppErrorDto {
        code: String::from_str("FileNotFound"),
        message: String::from_str("文件夹不存在: ").concat(path),
        detail: None,
        recoverable: true,
    }
}

} // verus!
