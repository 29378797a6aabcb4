//! Configuration types shared by the logger, the formatter and the output
//! streams: severity and verbosity scales, the drop policy of the file
//! stream, and the log event record.

use vstd::prelude::*;
use crate::Error;
use crate::datetime::{Timestamp, now_timestamp};

verus! {

/// The verbosity threshold of a logger; events whose severity ranks below the
/// threshold are suppressed.
#[derive(Copy, Clone, PartialEq, Eq, PartialOrd, Ord, Hash, Debug)]
pub enum Verbosity {
    /// Display all logs.
    All,
    /// Filter only debug logs.
    Standard,
    /// Display only warnings and errors.
    Quiet,
    /// Display only errors.
    ErrorsOnly,
}

impl Default for Verbosity {
    fn default() -> (r: Verbosity)
        ensures
            r == Verbosity::Standard,
    {
        Verbosity::Standard
    }
}

/// The policy of the drop-time flush of a file stream when the log file lock
/// is enabled.
#[derive(Copy, Clone, PartialEq, Eq, PartialOrd, Ord, Hash, Debug)]
pub enum OnDropPolicy {
    /// Ignore the log file lock and write to the file anyway; this may race
    /// with a concurrent reader.
    IgnoreLogFileLock,
    /// Respect the log file lock and do not write; the buffered lines are
    /// lost.
    DiscardLogBuffer,
}

impl Default for OnDropPolicy {
    fn default() -> (r: OnDropPolicy)
        ensures
            r == OnDropPolicy::DiscardLogBuffer,
    {
        OnDropPolicy::DiscardLogBuffer
    }
}

/// The severity of a single log event, ordered from `Debug` up to
/// `FatalError`.
#[derive(Copy, Clone, PartialEq, Eq, PartialOrd, Ord, Hash, Debug)]
pub enum LogType {
    /// A debug log.
    Debug,
    /// A standard, informative message.
    Info,
    /// A warning.
    Warning,
    /// An error.
    Error,
    /// A critical error.
    FatalError,
}

impl Default for LogType {
    fn default() -> (r: LogType)
        ensures
            r == LogType::Info,
    {
        LogType::Info
    }
}

/// The rank of a severity on the shared ordering scale.
pub open spec fn log_type_rank(t: LogType) -> int {
    match t {
        LogType::Debug => 0,
        LogType::Info => 1,
        LogType::Warning => 2,
        LogType::Error => 3,
        LogType::FatalError => 4,
    }
}

/// The rank of a verbosity threshold on the shared ordering scale.
pub open spec fn verbosity_rank(v: Verbosity) -> int {
    match v {
        Verbosity::All => 0,
        Verbosity::Standard => 1,
        Verbosity::Quiet => 2,
        Verbosity::ErrorsOnly => 3,
    }
}

/// Whether an event of severity `t` is suppressed under threshold `v`:
/// suppression happens only with filtering enabled and a rank strictly below
/// the threshold; a severity exactly at the threshold passes through.
pub open spec fn should_suppress(t: LogType, v: Verbosity, filtering_enabled: bool) -> bool {
    filtering_enabled && log_type_rank(t) < verbosity_rank(v)
}

impl LogType {
    /// The rank of this severity, as an executable value.
    pub fn rank(&self) -> (r: u8)
        ensures
            r as int == log_type_rank(*self),
    {
        match self {
            LogType::Debug => 0,
            LogType::Info => 1,
            LogType::Warning => 2,
            LogType::Error => 3,
            LogType::FatalError => 4,
        }
    }

    /// The severity of the given rank, for ranks 0 through 4.
    pub fn try_from(value: i32) -> (r: Result<LogType, Error>)
        ensures
            r is Ok <==> 0 <= value <= 4,
            r matches Ok(t) ==> log_type_rank(t) == value,
    {
        match value {
            0 => Ok(LogType::Debug),
            1 => Ok(LogType::Info),
            2 => Ok(LogType::Warning),
            3 => Ok(LogType::Error),
            4 => Ok(LogType::FatalError),
            _ => Err(Error::new("Invalid value. Please provide a value in range from 0 to 4.")),
        }
    }
}

impl Verbosity {
    /// The rank of this threshold, as an executable value.
    pub fn rank(&self) -> (r: u8)
        ensures
            r as int == verbosity_rank(*self),
    {
        match self {
            Verbosity::All => 0,
            Verbosity::Standard => 1,
            Verbosity::Quiet => 2,
            Verbosity::ErrorsOnly => 3,
        }
    }

    /// The threshold of the given rank, for ranks 0 through 3.
    pub fn try_from(value: i32) -> (r: Result<Verbosity, Error>)
        ensures
            r is Ok <==> 0 <= value <= 3,
            r matches Ok(v) ==> verbosity_rank(v) == value,
    {
        match value {
            0 => Ok(Verbosity::All),
            1 => Ok(Verbosity::Standard),
            2 => Ok(Verbosity::Quiet),
            3 => Ok(Verbosity::ErrorsOnly),
            _ => Err(Error::new("Invalid value. Please provide a value in range from 0 to 3.")),
        }
    }
}

/// Law: suppression is monotonic in severity rank. Under any fixed threshold
/// and filtering flag, if a severity is suppressed then so is every severity
/// of lower or equal rank.
pub proof fn lemma_filter_monotone(s1: LogType, s2: LogType, v: Verbosity, filtering_enabled: bool)
    requires
        log_type_rank(s1) <= log_type_rank(s2),
    ensures
        should_suppress(s2, v, filtering_enabled) ==> should_suppress(s1, v, filtering_enabled),
{
}

/// Law: `Error` and `FatalError` are never suppressed, whatever the threshold
/// and the filtering flag: their ranks are at least as high as every
/// threshold's.
pub proof fn lemma_errors_never_suppressed(v: Verbosity, filtering_enabled: bool)
    ensures
        !should_suppress(LogType::Error, v, filtering_enabled),
        !should_suppress(LogType::FatalError, v, filtering_enabled),
{
}

/// A single log event: its message, its severity, and the timestamp at which
/// it was created.
#[derive(PartialEq, Eq, Hash, Debug)]
pub struct LogStruct {
    /// The log message.
    pub message: String,
    /// The severity of the log.
    pub log_type: LogType,
    /// The date and time at which the log event was created.
    pub datetime: Timestamp,
}

impl Clone for LogStruct {
    fn clone(&self) -> (r: LogStruct)
        ensures
            r == *self,
    {
        LogStruct {
            message: self.message.clone(),
            log_type: self.log_type,
            datetime: self.datetime,
        }
    }
}

impl LogStruct {
    /// Builds a log event of the given severity, timestamped with the current
    /// wall-clock time.
    pub fn with_type(message: &str, log_type: LogType) -> (r: LogStruct)
        ensures
            r.message@ == message@,
            r.log_type == log_type,
    {
        LogStruct {
            message: message.to_owned(),
            log_type,
            datetime: now_timestamp(),
        }
    }

    /// A **debug** log event timestamped with the current time.
    pub fn debug(message: &str) -> (r: LogStruct)
        ensures
            r.message@ == message@,
            r.log_type == LogType::Debug,
    {
        LogStruct::with_type(message, LogType::Debug)
    }

    /// An **info** log event timestamped with the current time.
    pub fn info(message: &str) -> (r: LogStruct)
        ensures
            r.message@ == message@,
            r.log_type == LogType::Info,
    {
        LogStruct::with_type(message, LogType::Info)
    }

    /// A **warning** log event timestamped with the current time.
    pub fn warning(message: &str) -> (r: LogStruct)
        ensures
            r.message@ == message@,
            r.log_type == LogType::Warning,
    {
        LogStruct::with_type(message, LogType::Warning)
    }

    /// An **error** log event timestamped with the current time.
    pub fn error(message: &str) -> (r: LogStruct)
        ensures
            r.message@ == message@,
            r.log_type == LogType::Error,
    {
        LogStruct::with_type(message, LogType::Error)
    }

    /// A **fatal error** log event timestamped with the current time.
    pub fn fatal_error(message: &str) -> (r: LogStruct)
        ensures
            r.message@ == message@,
            r.log_type == LogType::FatalError,
    {
        LogStruct::with_type(message, LogType::FatalError)
    }
}

} // verus!
