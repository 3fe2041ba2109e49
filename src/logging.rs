//! Log events as handed to a host callback: the host's message kinds, and
//! how a log level and a source line map onto them.

use vstd::prelude::*;

verus! {

/// The severity of a log event.
#[derive(Clone, Copy, PartialEq, Eq, Structural, Debug)]
pub enum LogLevel {
    Error,
    Warn,
    Info,
    Debug,
    Trace,
}

/// The host's message kinds.
#[derive(Clone, Copy, PartialEq, Eq, Structural, Debug)]
pub enum QtMsgType {
    Debug,
    Warning,
    Critical,
    Fatal,
    Info,
}

/// The host's numeric code of a message kind.
pub open spec fn msg_code(t: QtMsgType) -> i8 {
    match t {
        QtMsgType::Debug => 0,
        QtMsgType::Warning => 1,
        QtMsgType::Critical => 2,
        QtMsgType::Fatal => 3,
        QtMsgType::Info => 4,
    }
}

impl QtMsgType {
    /// The host's numeric code of this kind.
    pub fn code(&self) -> (r: i8)
        ensures
            r == msg_code(*self),
    {
        match self {
            QtMsgType::Debug => 0,
            QtMsgType::Warning => 1,
            QtMsgType::Critical => 2,
            QtMsgType::Fatal => 3,
            QtMsgType::Info => 4,
        }
    }
}

/// The message kind a level is reported as. Nothing is reported as fatal.
pub open spec fn msg_type_of(level: LogLevel) -> QtMsgType {
    match level {
        LogLevel::Error => QtMsgType::Critical,
        LogLevel::Warn => QtMsgType::Warning,
        LogLevel::Info => QtMsgType::Info,
        LogLevel::Debug => QtMsgType::Debug,
        LogLevel::Trace => QtMsgType::Debug,
    }
}

/// The message kind a level is reported as.
pub fn msg_type_for_level(level: LogLevel) -> (r: QtMsgType)
    ensures
        r == msg_type_of(level),
{
    match level {
        LogLevel::Error => QtMsgType::Critical,
        LogLevel::Warn => QtMsgType::Warning,
        LogLevel::Info => QtMsgType::Info,
        LogLevel::Debug => QtMsgType::Debug,
        LogLevel::Trace => QtMsgType::Debug,
    }
}

/// The line number handed to the host: the line, wrapped to 32 signed
/// bits, or `-1` when the event has none.
pub fn line_for_host(line: Option<u32>) -> (r: i32)
    ensures
        line is None ==> r == -1,
        line is Some && line->0 <= i32::MAX ==> r as int == line->0 as int,
        line is Some && line->0 > i32::MAX ==> r as int == line->0 as int - 0x1_0000_0000,
{
    match line {
        Some(l) => {
            if l <= i32::MAX as u32 {
                l as i32
            } else {
                (l as i64 - 0x1_0000_0000i64) as i32
            }
        },
        None => -1,
    }
}

} // verus!
