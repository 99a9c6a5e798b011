//! Log levels and the decision whether a line is written. Writing it is the
//! caller's business.

use vstd::prelude::*;
use vstd::string::*;

verus! {

/// How severe a log line is; a lower rank is more severe.
#[derive(Clone, Copy, Debug, PartialEq, Eq, Structural)]
pub enum LogLevel {
    Error,
    Warn,
    Info,
    Debug,
}

impl LogLevel {
    /// The number of a level: 0 for errors up to 3 for debugging output.
    pub open spec fn rank(self) -> u8 {
        match self {
            LogLevel::Error => 0,
            LogLevel::Warn => 1,
            LogLevel::Info => 2,
            LogLevel::Debug => 3,
        }
    }

    /// The level of a number; numbers that name no level mean `Info`.
    pub open spec fn of(level: u8) -> LogLevel {
        if level == 0 {
            LogLevel::Error
        } else if level == 1 {
            LogLevel::Warn
        } else if level == 3 {
            LogLevel::Debug
        } else {
            LogLevel::Info
        }
    }

    pub fn from_u8(level: u8) -> (named: LogLevel)
        ensures
            named == LogLevel::of(level),
    {
        match level {
            0 => LogLevel::Error,
            1 => LogLevel::Warn,
            2 => LogLevel::Info,
            3 => LogLevel::Debug,
            _ => LogLevel::Info,
        }
    }

    pub fn to_u8(self) -> (level: u8)
        ensures
            level == self.rank(),
            LogLevel::of(level) == self,
    {
        match self {
            LogLevel::Error => 0,
            LogLevel::Warn => 1,
            LogLevel::Info => 2,
            LogLevel::Debug => 3,
        }
    }

    /// The tag in front of a line of this level.
    pub open spec fn tag(self) -> Seq<char> {
        match self {
            LogLevel::Error => "[ERROR] "@,
            LogLevel::Warn => "[WARN] "@,
            LogLevel::Info => "[INFO] "@,
            LogLevel::Debug => "[DEBUG] "@,
        }
    }
}

/// Whether a line of `level` is written while `current_level` is the
/// configured threshold. A forced line is always written.
pub fn should_log(level: LogLevel, force_output: bool, current_level: u8) -> (write: bool)
    ensures
        write == (force_output || level.rank() <= current_level),
{
    if force_output {
        return true;
    }
    level.to_u8() <= current_level
}

/// A log line: the level's tag, the message and a line feed.
pub fn log_line(level: LogLevel, message: &str) -> (line: String)
    ensures
        line@ == level.tag() + message@ + "\n"@,
{
    let tag = match level {
        LogLevel::Error => "[ERROR] ",
        LogLevel::Warn => "[WARN] ",
        LogLevel::Info => "[INFO] ",
        LogLevel::Debug => "[DEBUG] ",
    };
    let mut line = tag.to_owned();
    line.append(message);
    line.append("\n");
    line
}

/// The line that a caller's own message of numeric `level` produces: errors,
/// warnings and information are always written, other levels never.
pub fn write_log(level: u8, message: &str) -> (line: Option<String>)
    ensures
        match line {
            Some(l) => level <= 2 && l@ == LogLevel::of(level).tag() + message@ + "\n"@,
            None => level > 2,
        },
{
    if level <= 2 {
        Some(log_line(LogLevel::from_u8(level), message))
    } else {
        None
    }
}

} // verus!
