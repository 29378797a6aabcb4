//! A configurable, buffered log-formatting and distribution library.
//!
//! Log events (message, severity, timestamp) are rendered through a
//! placeholder template with per-severity headers and colors, filtered by a
//! verbosity threshold, and fanned out to a set of sinks: the standard error
//! stream, an in-memory buffer, and a size-bounded, lock-aware file-output
//! buffer with explicit flush and drop-policy rules.

use vstd::prelude::*;

pub mod colors;
pub mod config;
pub mod datetime;
pub mod format;
pub mod output;
pub mod strings;
pub mod template;

use crate::config::{LogStruct, LogType, Verbosity, should_suppress};
use crate::format::{LogFormatter, default_formatter_spec, spec_format_log};
use crate::output::{LogOutput, default_output_spec, output_out_spec, payload_view};

verus! {

/// Error value returned by the fallible operations of this crate.
#[derive(PartialEq, Eq, PartialOrd, Ord, Hash, Debug)]
pub struct Error {
    pub message: String,
}

impl Clone for Error {
    fn clone(&self) -> (r: Error)
        ensures
            r == *self,
    {
        Error { message: self.message.clone() }
    }
}

impl Error {
    /// Builds an error carrying the given message.
    pub fn new(msg: &str) -> (r: Error)
        ensures
            r.message@ == msg@,
    {
        Error { message: msg.to_owned() }
    }
}

/// A logger capable of filtering log events, formatting them and distributing
/// them to the configured sinks.
///
/// The logger itself only filters: it relies on [`LogFormatter`] for
/// rendering and on [`LogOutput`] for delivery. File writes happen outside of
/// it: each severity entry point hands back the payload, if any, that is due
/// on the configured log file (see [`output::FileStream`]).
#[derive(PartialEq, Eq, Hash, Debug)]
pub struct Logger {
    /// Renders events into text.
    pub formatter: LogFormatter,
    /// Fans rendered events out to the sinks.
    pub output: LogOutput,
    /// The threshold events are filtered against.
    pub verbosity: Verbosity,
    /// Whether filtering happens at all.
    pub filtering_enabled: bool,
}

/// The effect of dispatching one accepted event through a logger: the
/// configuration stays, and the output fan-out receives the event together
/// with its rendered form. `payload` is what is due on the log file.
pub open spec fn dispatch_spec(pre: Logger, post: Logger, payload: Option<Seq<char>>, log: LogStruct) -> bool {
    &&& post.verbosity == pre.verbosity
    &&& post.filtering_enabled == pre.filtering_enabled
    &&& post.formatter == pre.formatter
    &&& output_out_spec(pre.output, post.output, payload, log, spec_format_log(pre.formatter, log))
}

/// The effect of one severity entry point called with message `message`: when
/// the severity is suppressed nothing at all happens; otherwise an event of
/// that severity carrying the message (and some creation timestamp) is
/// dispatched.
pub open spec fn emit_spec(pre: Logger, post: Logger, payload: Option<Seq<char>>, message: Seq<char>, t: LogType) -> bool {
    if should_suppress(t, pre.verbosity, pre.filtering_enabled) {
        post == pre && payload is None
    } else {
        exists|log: LogStruct| log.message@ == message && log.log_type == t
            && #[trigger] dispatch_spec(pre, post, payload, log)
    }
}

impl Logger {
    /// Whether an event of the given severity is filtered out under the
    /// current verbosity threshold.
    pub fn filter_log(&self, log_type: LogType) -> (r: bool)
        ensures
            r == should_suppress(log_type, self.verbosity, self.filtering_enabled),
    {
        if self.filtering_enabled {
            log_type.rank() < self.verbosity.rank()
        } else {
            false
        }
    }

    /// Renders the given event and hands it to every enabled sink; the
    /// payload handed back, if any, is to be appended to the log file of the
    /// file sink.
    pub fn dispatch(&mut self, log: &LogStruct) -> (r: Option<String>)
        ensures
            dispatch_spec(*old(self), *final(self), payload_view(r), *log),
    {
        self.output.out(log, &self.formatter)
    }

    /// Logs a **debug message**, unless it is filtered out.
    pub fn debug(&mut self, message: &str) -> (r: Option<String>)
        ensures
            emit_spec(*old(self), *final(self), payload_view(r), message@, LogType::Debug),
    {
        if self.filter_log(LogType::Debug) {
            return None;
        }
        let log = LogStruct::debug(message);
        self.dispatch(&log)
    }

    /// Logs a **debug message**, bypassing the filter.
    pub fn debug_no_filtering(&mut self, message: &str) -> (r: Option<String>)
        ensures
            exists|log: LogStruct| log.message@ == message@ && log.log_type == LogType::Debug
                && #[trigger] dispatch_spec(*old(self), *final(self), payload_view(r), log),
    {
        let log = LogStruct::debug(message);
        self.dispatch(&log)
    }

    /// Logs an **informational message**, unless it is filtered out.
    pub fn info(&mut self, message: &str) -> (r: Option<String>)
        ensures
            emit_spec(*old(self), *final(self), payload_view(r), message@, LogType::Info),
    {
        if self.filter_log(LogType::Info) {
            return None;
        }
        let log = LogStruct::info(message);
        self.dispatch(&log)
    }

    /// Logs an **informational message**, bypassing the filter.
    pub fn info_no_filtering(&mut self, message: &str) -> (r: Option<String>)
        ensures
            exists|log: LogStruct| log.message@ == message@ && log.log_type == LogType::Info
                && #[trigger] dispatch_spec(*old(self), *final(self), payload_view(r), log),
    {
        let log = LogStruct::info(message);
        self.dispatch(&log)
    }

    /// Logs a **warning**, unless it is filtered out.
    pub fn warning(&mut self, message: &str) -> (r: Option<String>)
        ensures
            emit_spec(*old(self), *final(self), payload_view(r), message@, LogType::Warning),
    {
        if self.filter_log(LogType::Warning) {
            return None;
        }
        let log = LogStruct::warning(message);
        self.dispatch(&log)
    }

    /// Logs a **warning**, bypassing the filter.
    pub fn warning_no_filtering(&mut self, message: &str) -> (r: Option<String>)
        ensures
            exists|log: LogStruct| log.message@ == message@ && log.log_type == LogType::Warning
                && #[trigger] dispatch_spec(*old(self), *final(self), payload_view(r), log),
    {
        let log = LogStruct::warning(message);
        self.dispatch(&log)
    }

    /// Logs an **error**. Errors are never filtered: this entry point does
    /// not consult the filter at all.
    pub fn error(&mut self, message: &str) -> (r: Option<String>)
        ensures
            emit_spec(*old(self), *final(self), payload_view(r), message@, LogType::Error),
    {
        let log = LogStruct::error(message);
        self.dispatch(&log)
    }

    /// Logs a **fatal error**. Fatal errors are never filtered: this entry
    /// point does not consult the filter at all.
    pub fn fatal(&mut self, message: &str) -> (r: Option<String>)
        ensures
            emit_spec(*old(self), *final(self), payload_view(r), message@, LogType::FatalError),
    {
        let log = LogStruct::fatal_error(message);
        self.dispatch(&log)
    }

    /// Sets the verbosity threshold.
    pub fn set_verbosity(&mut self, verbosity: Verbosity)
        ensures
            *final(self) == (Logger { verbosity, ..*old(self) }),
    {
        self.verbosity = verbosity;
    }

    /// Enables log filtering.
    pub fn enable_log_filtering(&mut self)
        ensures
            *final(self) == (Logger { filtering_enabled: true, ..*old(self) }),
    {
        self.filtering_enabled = true;
    }

    /// Disables log filtering.
    pub fn disable_log_filtering(&mut self)
        ensures
            *final(self) == (Logger { filtering_enabled: false, ..*old(self) }),
    {
        self.filtering_enabled = false;
    }

    /// The shutdown flush: run this once when tearing the logger down, and
    /// append the payload, if any, to the log file of the file sink.
    pub fn drop_flush(&mut self) -> (r: Option<String>)
        ensures
            final(self).verbosity == old(self).verbosity,
            final(self).filtering_enabled == old(self).filtering_enabled,
            final(self).formatter == old(self).formatter,
            final(self).output.enabled == old(self).output.enabled,
            final(self).output.stderr_output == old(self).output.stderr_output,
            final(self).output.buffer_output == old(self).output.buffer_output,
            crate::output::flush_permitted(old(self).output.file_output, true) ==> (r matches Some(payload)
                && payload@ == crate::strings::joined(old(self).output.file_output.buffered())
                && old(self).output.file_output.same_config(final(self).output.file_output)
                && final(self).output.file_output.buffered() == Seq::<Seq<char>>::empty()),
            !crate::output::flush_permitted(old(self).output.file_output, true)
                ==> r is None && final(self).output.file_output == old(self).output.file_output,
    {
        self.output.file_output.drop_flush()
    }
}

impl Default for Logger {
    /// The default logger: standard verbosity, filtering on, the default
    /// formatter and the default output fan-out.
    fn default() -> (r: Logger)
        ensures
            r.verbosity == Verbosity::Standard,
            r.filtering_enabled == true,
            default_formatter_spec(r.formatter),
            default_output_spec(r.output),
    {
        Logger {
            formatter: LogFormatter::default(),
            output: LogOutput::default(),
            verbosity: Verbosity::Standard,
            filtering_enabled: true,
        }
    }
}

} // verus!
