//! BASS error codes, channel activity states and other numeric constants of
//! the audio core, with the names and the user-facing messages of the errors.

use vstd::prelude::*;
use vstd::string::*;
use crate::text::{decimal, push_decimal};

verus! {

pub const BASS_OK: u32 = 0;
pub const BASS_ERROR_MEM: u32 = 1;
pub const BASS_ERROR_FILEOPEN: u32 = 2;
pub const BASS_ERROR_DRIVER: u32 = 3;
pub const BASS_ERROR_BUFLOST: u32 = 4;
pub const BASS_ERROR_HANDLE: u32 = 5;
pub const BASS_ERROR_FORMAT: u32 = 6;
pub const BASS_ERROR_POSITION: u32 = 7;
pub const BASS_ERROR_INIT: u32 = 8;
pub const BASS_ERROR_BASSINIT: u32 = 9;
pub const BASS_ERROR_START: u32 = 10;
pub const BASS_ERROR_SSL: u32 = 11;
pub const BASS_ERROR_ALREADY: u32 = 14;
pub const BASS_ERROR_NOTAUDIO: u32 = 17;
pub const BASS_ERROR_NOCHAN: u32 = 18;
pub const BASS_ERROR_ILLTYPE: u32 = 19;
pub const BASS_ERROR_ILLPARAM: u32 = 20;
pub const BASS_ERROR_NO3D: u32 = 21;
pub const BASS_ERROR_NOEAX: u32 = 22;
pub const BASS_ERROR_DEVICE: u32 = 23;
pub const BASS_ERROR_NOPLAY: u32 = 24;
pub const BASS_ERROR_FREQ: u32 = 25;
pub const BASS_ERROR_NOTFILE: u32 = 26;
pub const BASS_ERROR_NOHW: u32 = 29;
pub const BASS_ERROR_EMPTY: u32 = 31;
pub const BASS_ERROR_NONET: u32 = 32;
pub const BASS_ERROR_CREATE: u32 = 33;
pub const BASS_ERROR_NOFX: u32 = 34;
pub const BASS_ERROR_NOTAVAIL: u32 = 37;
pub const BASS_ERROR_DECODE: u32 = 38;
pub const BASS_ERROR_DX: u32 = 39;
pub const BASS_ERROR_TIMEOUT: u32 = 40;
pub const BASS_ERROR_FILEFORM: u32 = 41;
pub const BASS_ERROR_SPEAKER: u32 = 42;
pub const BASS_ERROR_VERSION: u32 = 43;
pub const BASS_ERROR_CODEC: u32 = 44;
pub const BASS_ERROR_ENDED: u32 = 45;
pub const BASS_ERROR_BUSY: u32 = 46;
pub const BASS_ERROR_UNSTREAMED: u32 = 47;
pub const BASS_ERROR_PROTOCOL: u32 = 48;
pub const BASS_ERROR_DENIED: u32 = 49;
pub const BASS_ERROR_UNKNOWN: u32 = 0xFFFF_FFFF;

pub const BASS_CONFIG_DEV_NONSTOP: u32 = 24;
pub const BASS_CONFIG_DEV_DEFAULT: u32 = 50;

pub const BASS_ACTIVE_STOPPED: u32 = 0;
pub const BASS_ACTIVE_PLAYING: u32 = 1;
pub const BASS_ACTIVE_STALLED: u32 = 2;
pub const BASS_ACTIVE_PAUSED: u32 = 3;

pub const BASS_ATTRIB_FREQ: u32 = 1;
pub const BASS_ATTRIB_VOL: u32 = 2;
pub const BASS_ATTRIB_PAN: u32 = 3;

pub const BASS_SYNC_END: u32 = 2;
pub const BASS_SYNC_POS: u32 = 0;

pub const BASS_STREAM_AUTOFREE: u32 = 0x40000;
pub const BASS_UNICODE: u32 = 0x8000_0000;

/// The symbolic name of a BASS error code; codes without a name of their own
/// are `BASS_ERROR_OTHER`.
pub open spec fn spec_error_name(code: u32) -> Seq<char> {
    if code == BASS_OK { "BASS_OK"@ }
    else if code == BASS_ERROR_MEM { "BASS_ERROR_MEM"@ }
    else if code == BASS_ERROR_FILEOPEN { "BASS_ERROR_FILEOPEN"@ }
    else if code == BASS_ERROR_DRIVER { "BASS_ERROR_DRIVER"@ }
    else if code == BASS_ERROR_FORMAT { "BASS_ERROR_FORMAT"@ }
    else if code == BASS_ERROR_INIT { "BASS_ERROR_INIT"@ }
    else if code == BASS_ERROR_HANDLE { "BASS_ERROR_HANDLE"@ }
    else if code == BASS_ERROR_NOCHAN { "BASS_ERROR_NOCHAN"@ }
    else if code == BASS_ERROR_ILLPARAM { "BASS_ERROR_ILLPARAM"@ }
    else if code == BASS_ERROR_NOTFILE { "BASS_ERROR_NOTFILE"@ }
    else if code == BASS_ERROR_FILEFORM { "BASS_ERROR_FILEFORM"@ }
    else if code == BASS_ERROR_CODEC { "BASS_ERROR_CODEC"@ }
    else if code == BASS_ERROR_ENDED { "BASS_ERROR_ENDED"@ }
    else if code == BASS_ERROR_DECODE { "BASS_ERROR_DECODE"@ }
    else if code == BASS_ERROR_NOTAVAIL { "BASS_ERROR_NOTAVAIL"@ }
    else if code == BASS_ERROR_UNKNOWN { "BASS_ERROR_UNKNOWN"@ }
    else { "BASS_ERROR_OTHER"@ }
}

/// The message shown to the user for a BASS error code; codes without a
/// message of their own read `BASS 错误 <code>`.
pub open spec fn spec_error_message(code: u32) -> Seq<char> {
    if code == BASS_OK { "成功"@ }
    else if code == BASS_ERROR_FILEOPEN { "无法打开文件"@ }
    else if code == BASS_ERROR_FORMAT { "文件格式不支持"@ }
    else if code == BASS_ERROR_CODEC { "编解码器不支持，可能需要安装插件"@ }
    else if code == BASS_ERROR_FILEFORM { "文件格式无法识别或编码不支持"@ }
    else if code == BASS_ERROR_DECODE { "解码失败，文件可能已损坏"@ }
    else if code == BASS_ERROR_DEVICE { "音频设备不可用（可能因蓝牙耳机切换）"@ }
    else if code == BASS_ERROR_INIT { "音频设备未初始化"@ }
    else if code == BASS_ERROR_START { "音频输出未启动"@ }
    else if code == BASS_ERROR_HANDLE { "播放通道已失效"@ }
    else if code == BASS_ERROR_NOCHAN { "无法创建播放通道"@ }
    else if code == BASS_ERROR_BUFLOST { "音频缓冲丢失"@ }
    else { "BASS 错误 "@ + decimal(code as nat) }
}

/// The symbolic name of a BASS error code.
pub fn bass_error_name(code: u32) -> (r: &'static str)
    ensures
        r@ == spec_error_name(code),
{
    if code == BASS_OK { "BASS_OK" }
    else if code == BASS_ERROR_MEM { "BASS_ERROR_MEM" }
    else if code == BASS_ERROR_FILEOPEN { "BASS_ERROR_FILEOPEN" }
    else if code == BASS_ERROR_DRIVER { "BASS_ERROR_DRIVER" }
    else if code == BASS_ERROR_FORMAT { "BASS_ERROR_FORMAT" }
    else if code == BASS_ERROR_INIT { "BASS_ERROR_INIT" }
    else if code == BASS_ERROR_HANDLE { "BASS_ERROR_HANDLE" }
    else if code == BASS_ERROR_NOCHAN { "BASS_ERROR_NOCHAN" }
    else if code == BASS_ERROR_ILLPARAM { "BASS_ERROR_ILLPARAM" }
    else if code == BASS_ERROR_NOTFILE { "BASS_ERROR_NOTFILE" }
    else if code == BASS_ERROR_FILEFORM { "BASS_ERROR_FILEFORM" }
    else if code == BASS_ERROR_CODEC { "BASS_ERROR_CODEC" }
    else if code == BASS_ERROR_ENDED { "BASS_ERROR_ENDED" }
    else if code == BASS_ERROR_DECODE { "BASS_ERROR_DECODE" }
    else if code == BASS_ERROR_NOTAVAIL { "BASS_ERROR_NOTAVAIL" }
    else if code == BASS_ERROR_UNKNOWN { "BASS_ERROR_UNKNOWN" }
    else { "BASS_ERROR_OTHER" }
}

/// The message shown to the user for a BASS error code.
pub fn bass_error_message(code: u32) -> (r: String)
    ensures
        r@ == spec_error_message(code),
{
    if code == BASS_OK { String::from_str("成功") }
    else if code == BASS_ERROR_FILEOPEN { String::from_str("无法打开文件") }
    else if code == BASS_ERROR_FORMAT { String::from_str("文件格式不支持") }
    else if code == BASS_ERROR_CODEC { String::from_str("编解码器不支持，可能需要安装插件") }
    else if code == BASS_ERROR_FILEFORM { String::from_str("文件格式无法识别或编码不支持") }
    else if code == BASS_ERROR_DECODE { String::from_str("解码失败，文件可能已损坏") }
    else if code == BASS_ERROR_DEVICE { String::from_str("音频设备不可用（可能因蓝牙耳机切换）") }
    else if code == BASS_ERROR_INIT { String::from_str("音频设备未初始化") }
    else if code == BASS_ERROR_START { String::from_str("音频输出未启动") }
    else if code == BASS_ERROR_HANDLE { String::from_str("播放通道已失效") }
    else if code == BASS_ERROR_NOCHAN { String::from_str("无法创建播放通道") }
    else if code == BASS_ERROR_BUFLOST { String::from_str("音频缓冲丢失") }
    else {
        let mut s = String::from_str("BASS 错误 ");
        push_decimal(&mut s, code as u64);
        s
    }
}

/// The error codes after which rebuilding the output device may bring
/// playback back: a lost device, output not initialised or started, a dead
/// channel, a lost buffer, a driver fault.
pub open spec fn spec_is_recoverable_error(code: i32) -> bool {
    let c = code as u32;
    c == BASS_ERROR_DEVICE || c == BASS_ERROR_INIT || c == BASS_ERROR_START || c == BASS_ERROR_HANDLE
        || c == BASS_ERROR_BUFLOST || c == BASS_ERROR_DRIVER
}

/// Whether the error code (as `BASS_ErrorGetCode` reports it) is one after
/// which rebuilding the output device may bring playback back.
pub fn is_recoverable_error(code: i32) -> (r: bool)
    ensures
        r == spec_is_recoverable_error(code),
{
    let c = code as u32;
    c == BASS_ERROR_DEVICE || c == BASS_ERROR_INIT || c == BASS_ERROR_START || c == BASS_ERROR_HANDLE
        || c == BASS_ERROR_BUFLOST || c == BASS_ERROR_DRIVER
}

} // verus!
