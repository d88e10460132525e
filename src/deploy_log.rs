//! Structured deployment log entries exchanged between server and client.

use vstd::prelude::*;

verus! {

/// Severity of one transcript line.
#[derive(Clone, Copy, Debug, PartialEq, Eq, Structural)]
pub enum LogLevel {
    Info,
    Warn,
    Error,
}

impl LogLevel {
    /// Numeric code of the level on the wire (info, warn, error in that order).
    pub open spec fn spec_wire_code(self) -> i32 {
        match self {
            LogLevel::Info => 0,
            LogLevel::Warn => 1,
            LogLevel::Error => 2,
        }
    }

    pub fn wire_code(self) -> (r: i32)
        ensures
            r == self.spec_wire_code(),
    {
        match self {
            LogLevel::Info => 0,
            LogLevel::Warn => 1,
            LogLevel::Error => 2,
        }
    }

    /// The level that a wire code stands for; unknown codes read as info.
    pub fn from_wire_code(code: i32) -> (r: LogLevel)
        ensures
            0 <= code <= 2 ==> r.spec_wire_code() == code,
            !(0 <= code <= 2) ==> r == LogLevel::Info,
    {
        if code == 1 {
            LogLevel::Warn
        } else if code == 2 {
            LogLevel::Error
        } else {
            LogLevel::Info
        }
    }
}

/// One line of a deployment transcript.
#[derive(Clone, Debug)]
pub struct DeployLogEntry {
    pub level: LogLevel,
    pub message: String,
}

impl DeployLogEntry {
    pub fn new(level: LogLevel, message: String) -> (r: Self)
        ensures
            r.level == level,
            r.message@ == message@,
    {
        DeployLogEntry { level, message }
    }

    pub fn info(message: String) -> (r: Self)
        ensures
            r.level == LogLevel::Info,
            r.message@ == message@,
    {
        Self::new(LogLevel::Info, message)
    }

    pub fn warn(message: String) -> (r: Self)
        ensures
            r.level == LogLevel::Warn,
            r.message@ == message@,
    {
        Self::new(LogLevel::Warn, message)
    }

    pub fn error(message: String) -> (r: Self)
        ensures
            r.level == LogLevel::Error,
            r.message@ == message@,
    {
        Self::new(LogLevel::Error, message)
    }
}

} // verus!
