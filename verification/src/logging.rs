//! Log levels, the level filter, the log line format and the rotation rule.
//! Writing the lines to the log file is the caller's I/O.

use vstd::prelude::*;

use crate::text::{
    decimal, push_char, push_decimal, push_left_filled, push_str, right_aligned, str_eq,
    string_of, zero_padded,
};

verus! {

/// Maximum log file size before rotation (10 MB).
pub const MAX_LOG_BYTES: u64 = 10485760;
/// Name of the log file in the log directory.
pub const LOG_FILE_NAME: &'static str = "hagibis.log";
/// Name the log file is rotated to.
pub const OLD_LOG_FILE_NAME: &'static str = "hagibis.log.old";

/// Log levels, from the most severe to the most verbose.
#[derive(Debug, Clone, Copy, PartialEq, Eq, Structural)]
pub enum LogLevel {
    Error,
    Warn,
    Info,
    Debug,
}

/// Severity rank: Error 0, Warn 1, Info 2, Debug 3.
pub open spec fn rank_of(l: LogLevel) -> nat {
    match l {
        LogLevel::Error => 0,
        LogLevel::Warn => 1,
        LogLevel::Info => 2,
        LogLevel::Debug => 3,
    }
}

/// A message at `level` is written when the configured `threshold` is at
/// least as verbose.
pub open spec fn writes(level: LogLevel, threshold: LogLevel) -> bool {
    rank_of(level) <= rank_of(threshold)
}

/// The level tag of a log line, padded to five characters.
pub open spec fn tag_of(l: LogLevel) -> Seq<char> {
    match l {
        LogLevel::Error => "ERROR"@,
        LogLevel::Warn => "WARN "@,
        LogLevel::Info => "INFO "@,
        LogLevel::Debug => "DEBUG"@,
    }
}

/// The name of a level (its `Debug` form).
pub open spec fn name_of(l: LogLevel) -> Seq<char> {
    match l {
        LogLevel::Error => "Error"@,
        LogLevel::Warn => "Warn"@,
        LogLevel::Info => "Info"@,
        LogLevel::Debug => "Debug"@,
    }
}

/// A log line: elapsed seconds right-aligned in 8 columns, a dot, the
/// milliseconds in 3 digits, the level tag in brackets, the category, the
/// message and a newline (`{:>8}.{:03} [{}] {}: {}\n`).
pub open spec fn log_line(ms: u128, level: LogLevel, cat: Seq<char>, msg: Seq<char>) -> Seq<char> {
    right_aligned(decimal((ms / 1000) as nat), 8) + seq!['.'] + zero_padded(
        decimal((ms % 1000) as nat),
        3,
    ) + " ["@ + tag_of(level) + "] "@ + cat + ": "@ + msg + seq!['\n']
}

impl LogLevel {
    /// Severity rank: Error 0, Warn 1, Info 2, Debug 3.
    pub fn rank(self) -> (r: u8)
        ensures
            r == rank_of(self),
    {
        match self {
            LogLevel::Error => 0,
            LogLevel::Warn => 1,
            LogLevel::Info => 2,
            LogLevel::Debug => 3,
        }
    }

    /// The level tag of a log line.
    pub fn tag(self) -> (r: &'static str)
        ensures
            r@ == tag_of(self),
    {
        match self {
            LogLevel::Error => "ERROR",
            LogLevel::Warn => "WARN ",
            LogLevel::Info => "INFO ",
            LogLevel::Debug => "DEBUG",
        }
    }

    /// The name of the level.
    pub fn name(self) -> (r: &'static str)
        ensures
            r@ == name_of(self),
    {
        match self {
            LogLevel::Error => "Error",
            LogLevel::Warn => "Warn",
            LogLevel::Info => "Info",
            LogLevel::Debug => "Debug",
        }
    }
}

/// Whether a message at `level` is written under the configured
/// `threshold` (messages less severe than the threshold are dropped).
pub fn should_write(level: LogLevel, threshold: LogLevel) -> (r: bool)
    ensures
        r == writes(level, threshold),
{
    level.rank() <= threshold.rank()
}

/// The log line for a message written `ms` milliseconds after start.
pub fn format_line(ms: u128, level: LogLevel, cat: &str, msg: &str) -> (r: String)
    ensures
        r@ == log_line(ms, level, cat@, msg@),
{
    let secs = crate::text::decimal_string(ms / 1000);
    let millis = crate::text::decimal_string(ms % 1000);
    let mut line = String::new();
    push_left_filled(&mut line, secs.as_str(), ' ', 8);
    push_char(&mut line, '.');
    push_left_filled(&mut line, millis.as_str(), '0', 3);
    push_str(&mut line, " [");
    push_str(&mut line, level.tag());
    push_str(&mut line, "] ");
    push_str(&mut line, cat);
    push_str(&mut line, ": ");
    push_str(&mut line, msg);
    push_char(&mut line, '\n');
    line
}

/// The line a message at `level` leaves in the log, if the configured
/// `threshold` writes it.
pub open spec fn entry_of(
    level: LogLevel,
    threshold: LogLevel,
    ms: u128,
    cat: Seq<char>,
    msg: Seq<char>,
) -> Option<Seq<char>> {
    if writes(level, threshold) {
        Some(log_line(ms, level, cat, msg))
    } else {
        None
    }
}

/// The line that a message at `level`, `ms` milliseconds after start, adds
/// to the log kept at `threshold`; `None` where the filter drops it.
pub fn log_entry(level: LogLevel, threshold: LogLevel, ms: u128, cat: &str, msg: &str) -> (r:
    Option<String>)
    ensures
        r matches Some(line) ==> entry_of(level, threshold, ms, cat@, msg@) == Some(line@),
        r is None <==> entry_of(level, threshold, ms, cat@, msg@) is None,
{
    if should_write(level, threshold) {
        Some(format_line(ms, level, cat, msg))
    } else {
        None
    }
}

/// A debug message: its log line, if the threshold is `Debug`.
pub fn debug(threshold: LogLevel, ms: u128, cat: &str, msg: &str) -> (r: Option<String>)
    ensures
        r matches Some(line) ==> entry_of(LogLevel::Debug, threshold, ms, cat@, msg@) == Some(
            line@,
        ),
        r is None <==> entry_of(LogLevel::Debug, threshold, ms, cat@, msg@) is None,
{
    log_entry(LogLevel::Debug, threshold, ms, cat, msg)
}

/// An informational message: its log line, unless the threshold is below
/// `Info`.
pub fn info_log(threshold: LogLevel, ms: u128, cat: &str, msg: &str) -> (r: Option<String>)
    ensures
        r matches Some(line) ==> entry_of(LogLevel::Info, threshold, ms, cat@, msg@) == Some(
            line@,
        ),
        r is None <==> entry_of(LogLevel::Info, threshold, ms, cat@, msg@) is None,
{
    log_entry(LogLevel::Info, threshold, ms, cat, msg)
}

/// A warning: its log line, unless the threshold is `Error`.
pub fn warn_log(threshold: LogLevel, ms: u128, cat: &str, msg: &str) -> (r: Option<String>)
    ensures
        r matches Some(line) ==> entry_of(LogLevel::Warn, threshold, ms, cat@, msg@) == Some(
            line@,
        ),
        r is None <==> entry_of(LogLevel::Warn, threshold, ms, cat@, msg@) is None,
{
    log_entry(LogLevel::Warn, threshold, ms, cat, msg)
}

/// An error: its log line, at every threshold.
pub fn error_log(threshold: LogLevel, ms: u128, cat: &str, msg: &str) -> (r: Option<String>)
    ensures
        r matches Some(line) ==> entry_of(LogLevel::Error, threshold, ms, cat@, msg@) == Some(
            line@,
        ),
        r is None <==> entry_of(LogLevel::Error, threshold, ms, cat@, msg@) is None,
{
    log_entry(LogLevel::Error, threshold, ms, cat, msg)
}

/// The level of a message logged through the C API: 0 is `Error`, 1
/// `Warn`, 2 `Info`, any other code `Debug`.
pub fn level_of_code(code: i32) -> (r: LogLevel)
    ensures
        r == (if code == 0 {
            LogLevel::Error
        } else if code == 1 {
            LogLevel::Warn
        } else if code == 2 {
            LogLevel::Info
        } else {
            LogLevel::Debug
        }),
{
    if code == 0 {
        LogLevel::Error
    } else if code == 1 {
        LogLevel::Warn
    } else if code == 2 {
        LogLevel::Info
    } else {
        LogLevel::Debug
    }
}

/// The first line written after start: `log started — level=<Name>`.
pub fn start_message(level: LogLevel) -> (r: String)
    ensures
        r@ == "log started — level="@ + name_of(level),
{
    let mut m = string_of("log started — level=");
    push_str(&mut m, level.name());
    m
}

/// Whether an existing log file of `len` bytes is rotated at start.
pub fn needs_rotation(len: u64) -> (r: bool)
    ensures
        r == (len >= MAX_LOG_BYTES),
{
    len >= MAX_LOG_BYTES
}

/// The level the CLI runs at for a configured name: `debug`, `info` and
/// `warn` name theirs, anything else is `Info`.
pub fn cli_log_level(name: &str) -> (r: LogLevel)
    ensures
        r == (if name@ == "debug"@ {
            LogLevel::Debug
        } else if name@ == "info"@ {
            LogLevel::Info
        } else if name@ == "warn"@ {
            LogLevel::Warn
        } else {
            LogLevel::Info
        }),
{
    if str_eq(name, "debug") {
        LogLevel::Debug
    } else if str_eq(name, "info") {
        LogLevel::Info
    } else if str_eq(name, "warn") {
        LogLevel::Warn
    } else {
        LogLevel::Info
    }
}

/// The level the engine behind the C API runs at: `debug` for the name
/// `debug`, `Info` for anything else.
pub fn engine_log_level(name: &str) -> (r: LogLevel)
    ensures
        r == (if name@ == "debug"@ {
            LogLevel::Debug
        } else {
            LogLevel::Info
        }),
{
    if str_eq(name, "debug") {
        LogLevel::Debug
    } else {
        LogLevel::Info
    }
}

/// The level filter is monotone: whatever is written at some level is also
/// written at every more severe level, and a more verbose threshold writes
/// at least as much.
pub proof fn lemma_filter_monotone(a: LogLevel, b: LogLevel, t: LogLevel, u: LogLevel)
    ensures
        rank_of(a) <= rank_of(b) && writes(b, t) ==> writes(a, t),
        rank_of(t) <= rank_of(u) && writes(a, t) ==> writes(a, u),
        writes(LogLevel::Error, t),
        writes(a, LogLevel::Debug),
{
}

} // verus!
