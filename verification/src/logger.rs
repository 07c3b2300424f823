//! What the log says: which records pass, and how a record is written down.
//!
//! The program around the library owns the log file and the clock. It asks
//! here whether a record passes and what to write for it.

use vstd::prelude::*;
use vstd::string::*;

verus! {

/// The severity of a record, most severe first.
#[derive(Debug, Clone, Copy, PartialEq, Eq, Structural)]
pub enum LogLevel {
    Error,
    Warn,
    Info,
    Debug,
    Trace,
}

impl LogLevel {
    /// The place of the level in the order of severity: the lower, the more
    /// severe.
    pub open spec fn rank(self) -> nat {
        match self {
            LogLevel::Error => 1,
            LogLevel::Warn => 2,
            LogLevel::Info => 3,
            LogLevel::Debug => 4,
            LogLevel::Trace => 5,
        }
    }

    /// The name of the level as it stands in a log line.
    pub open spec fn label(self) -> Seq<char> {
        match self {
            LogLevel::Error => "ERROR"@,
            LogLevel::Warn => "WARN"@,
            LogLevel::Info => "INFO"@,
            LogLevel::Debug => "DEBUG"@,
            LogLevel::Trace => "TRACE"@,
        }
    }

    /// Whether records of this level are written at all: `Info` and anything
    /// more severe.
    pub open spec fn passes(self) -> bool {
        self.rank() <= LogLevel::Info.rank()
    }
}

/// One record: a severity and a message.
#[derive(Debug)]
pub struct LogEntry {
    pub level: LogLevel,
    pub message: String,
}

impl LogEntry {
    /// The record holds this level and this message.
    pub open spec fn holds(self, level: LogLevel, message: Seq<char>) -> bool {
        self.level == level && self.message@ == message
    }
}

/// What is to be written for one record that passed.
#[derive(Debug)]
pub struct LogOutput {
    /// The line for the log file, with its line feed.
    pub file_line: String,
    /// The text for standard output, without a line feed.
    pub console_line: String,
}

/// The line of the log file for one record: `[timestamp] [LEVEL] message` and
/// a line feed.
pub open spec fn line_text(timestamp: Seq<char>, level: LogLevel, message: Seq<char>) -> Seq<
    char,
> {
    "["@ + timestamp + "] ["@ + level.label() + "] "@ + message + "\n"@
}

/// `log::Level::as_str`, which names a level in upper case, as `Display`
/// does for it: `ERROR`, `WARN`, `INFO`, `DEBUG`, `TRACE`.
#[verifier::external_body]
fn level_label(level: LogLevel) -> (s: &'static str)
    ensures
        s@ == level.label(),
{
    let outside = match level {
        LogLevel::Error => log::Level::Error,
        LogLevel::Warn => log::Level::Warn,
        LogLevel::Info => log::Level::Info,
        LogLevel::Debug => log::Level::Debug,
        LogLevel::Trace => log::Level::Trace,
    };
    outside.as_str()
}

/// Whether a record of this level is written.
pub fn enabled(level: LogLevel) -> (b: bool)
    ensures
        b == level.passes(),
{
    match level {
        LogLevel::Error | LogLevel::Warn | LogLevel::Info => true,
        LogLevel::Debug | LogLevel::Trace => false,
    }
}

/// Writes the line of the log file for one record.
pub fn format_line(timestamp: &str, level: LogLevel, message: &str) -> (line: String)
    ensures
        line@ == line_text(timestamp@, level, message@),
{
    let mut line: String = String::from_str("[");
    line.append(timestamp);
    line.append("] [");
    line.append(level_label(level));
    line.append("] ");
    line.append(message);
    line.append("\n");
    line
}

/// Decides what is written for a record at the given time: nothing where the
/// level does not pass, else the line for the file and the bare message for
/// standard output.
pub fn render_record(entry: &LogEntry, timestamp: &str) -> (out: Option<LogOutput>)
    ensures
        !entry.level.passes() ==> out is None,
        entry.level.passes() ==> (out matches Some(o) && o.file_line@ == line_text(
            timestamp@,
            entry.level,
            entry.message@,
        ) && o.console_line@ == entry.message@),
{
    if enabled(entry.level) {
        Some(
            LogOutput {
                file_line: format_line(timestamp, entry.level, entry.message.as_str()),
                console_line: entry.message.clone(),
            },
        )
    } else {
        None
    }
}

fn entry(level: LogLevel, message: &str) -> (e: LogEntry)
    ensures
        e.holds(level, message@),
{
    LogEntry { level, message: String::from_str(message) }
}

/// A record of level `Info`.
pub fn info(message: &str) -> (e: LogEntry)
    ensures
        e.holds(LogLevel::Info, message@),
{
    entry(LogLevel::Info, message)
}

/// A record of level `Error`.
pub fn error(message: &str) -> (e: LogEntry)
    ensures
        e.holds(LogLevel::Error, message@),
{
    entry(LogLevel::Error, message)
}

/// A record of level `Debug`.
pub fn debug(message: &str) -> (e: LogEntry)
    ensures
        e.holds(LogLevel::Debug, message@),
{
    entry(LogLevel::Debug, message)
}

/// A record of level `Warn`.
pub fn warn(message: &str) -> (e: LogEntry)
    ensures
        e.holds(LogLevel::Warn, message@),
{
    entry(LogLevel::Warn, message)
}

/// A record is written exactly when it is at least as severe as `Info`, so
/// whatever passes also passes at every more severe level.
pub proof fn lemma_passing_is_upward_closed(a: LogLevel, b: LogLevel)
    requires
        a.passes(),
        b.rank() <= a.rank(),
    ensures
        b.passes(),
{
}

} // verus!
