//! What is shown of the launcher's messages, and how.

use vstd::prelude::*;
use vstd::string::*;
use crate::text::same_text;

verus! {

/// The levels of messages, from none to all.
#[derive(Debug, Clone, Copy, PartialEq, Eq, Structural)]
pub enum LogLevel {
    Off,
    Error,
    Warn,
    Info,
    Debug,
    Trace,
}

/// What every message of the launcher begins with.
pub const MESSAGE_TAG: &'static str = "[Dbgee]";

impl LogLevel {
    /// The level as the user writes it.
    pub open spec fn name_text(self) -> Seq<char> {
        match self {
            LogLevel::Off => "off"@,
            LogLevel::Error => "error"@,
            LogLevel::Warn => "warn"@,
            LogLevel::Info => "info"@,
            LogLevel::Debug => "debug"@,
            LogLevel::Trace => "trace"@,
        }
    }

    /// The level as the user writes it.
    pub fn name(&self) -> (name: &'static str)
        ensures
            name@ == self.name_text(),
    {
        match self {
            LogLevel::Off => "off",
            LogLevel::Error => "error",
            LogLevel::Warn => "warn",
            LogLevel::Info => "info",
            LogLevel::Debug => "debug",
            LogLevel::Trace => "trace",
        }
    }

    /// The level that the user wrote, if it is one.
    pub fn from_name(name: &str) -> (level: Option<LogLevel>)
        ensures
            match level {
                Some(l) => l.name_text() == name@,
                None => forall|l: LogLevel| l.name_text() != name@,
            },
    {
        if same_text(name, "off") {
            Some(LogLevel::Off)
        } else if same_text(name, "error") {
            Some(LogLevel::Error)
        } else if same_text(name, "warn") {
            Some(LogLevel::Warn)
        } else if same_text(name, "info") {
            Some(LogLevel::Info)
        } else if same_text(name, "debug") {
            Some(LogLevel::Debug)
        } else if same_text(name, "trace") {
            Some(LogLevel::Trace)
        } else {
            None
        }
    }
}

/// Which messages are shown, and whether the first one above an error is
/// preceded by the notice that such messages go away with a redirection.
#[derive(Debug, Clone, Copy, PartialEq, Eq, Structural)]
pub struct LogFilter {
    pub level: LogLevel,
    pub suppression_notice: bool,
}

/// The filter: the level that the user named; else everything up to
/// informational messages on a terminal, with the notice, and errors only
/// where the messages are redirected.
pub open spec fn filter_of(log_level: Option<LogLevel>, stderr_is_tty: bool) -> LogFilter {
    match log_level {
        Some(level) => LogFilter { level, suppression_notice: false },
        None => if stderr_is_tty {
            LogFilter { level: LogLevel::Info, suppression_notice: true }
        } else {
            LogFilter { level: LogLevel::Error, suppression_notice: false }
        },
    }
}

/// Chooses which messages are shown.
pub fn init_logger(log_level: &Option<LogLevel>, stderr_is_tty: bool) -> (filter: LogFilter)
    ensures
        filter == filter_of(*log_level, stderr_is_tty),
{
    match log_level {
        Some(level) => LogFilter { level: *level, suppression_notice: false },
        None => {
            if stderr_is_tty {
                LogFilter { level: LogLevel::Info, suppression_notice: true }
            } else {
                LogFilter { level: LogLevel::Error, suppression_notice: false }
            }
        },
    }
}

/// A message behind the tag of the launcher.
pub fn message_string(mes: &str) -> (out: String)
    ensures
        out@ == MESSAGE_TAG@ + " "@ + mes@,
{
    String::from_str(MESSAGE_TAG).concat(" ").concat(mes)
}

} // verus!
