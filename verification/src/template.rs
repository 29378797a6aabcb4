//! The persisted configuration of a logger: every setting that survives a
//! save/load round trip, gathered into one plain record.
//!
//! Runtime-only state — queued lines, buffered events and the advisory lock
//! — is deliberately not part of a template; loading a template always resets
//! it to the defaults. The file-output settings, the log file path among
//! them, are persisted.

use vstd::prelude::*;

use crate::Logger;
use crate::colors::Color;
use crate::config::{LogStruct, OnDropPolicy, Verbosity};
use crate::format::LogFormatter;
use crate::output::{BufferStream, FileStream, LogOutput, StderrStream};

verus! {

/// The persisted fields of a logger's configuration, as one plain record.
#[derive(PartialEq, Eq, Hash, Debug)]
pub struct LoggerTemplate {
    /// The verbosity threshold.
    pub verbosity: Verbosity,
    /// Whether filtering is enabled.
    pub filtering_enabled: bool,

    /// Whether log headers are colored.
    pub log_header_color_enabled: bool,
    /// The header color of debug logs.
    pub debug_color: Color,
    /// The header color of info logs.
    pub info_color: Color,
    /// The header color of warnings.
    pub warning_color: Color,
    /// The header color of errors.
    pub error_color: Color,
    /// The header color of fatal errors.
    pub fatal_color: Color,
    /// The header text of debug logs.
    pub debug_header: String,
    /// The header text of info logs.
    pub info_header: String,
    /// The header text of warnings.
    pub warning_header: String,
    /// The header text of errors.
    pub error_header: String,
    /// The header text of fatal errors.
    pub fatal_header: String,
    /// The log template string.
    pub log_format: String,
    /// The datetime sub-format.
    pub datetime_format: String,

    /// Whether dispatching is enabled.
    pub output_enabled: bool,
    /// Whether the `stderr` sink is enabled.
    pub stderr_enabled: bool,
    /// Whether the in-memory buffer sink is enabled.
    pub buffer_enabled: bool,
    /// Whether the file sink is enabled.
    pub file_enabled: bool,
    /// The log file path of the file sink.
    pub log_file_path: String,
    /// The automatic flush threshold of the file sink.
    pub max_buffer_size: Option<usize>,
    /// The drop policy of the file sink.
    pub on_drop_policy: OnDropPolicy,
}

/// The template that captures the persisted fields of the logger `l`.
pub open spec fn template_of(l: Logger) -> LoggerTemplate {
    LoggerTemplate {
        verbosity: l.verbosity,
        filtering_enabled: l.filtering_enabled,
        log_header_color_enabled: l.formatter.log_header_color_enabled,
        debug_color: l.formatter.debug_color,
        info_color: l.formatter.info_color,
        warning_color: l.formatter.warning_color,
        error_color: l.formatter.error_color,
        fatal_color: l.formatter.fatal_color,
        debug_header: l.formatter.debug_header,
        info_header: l.formatter.info_header,
        warning_header: l.formatter.warning_header,
        error_header: l.formatter.error_header,
        fatal_header: l.formatter.fatal_header,
        log_format: l.formatter.log_format,
        datetime_format: l.formatter.datetime_format,
        output_enabled: l.output.enabled,
        stderr_enabled: l.output.stderr_output.enabled,
        buffer_enabled: l.output.buffer_output.enabled,
        file_enabled: l.output.file_output.enabled,
        log_file_path: l.output.file_output.log_file_path,
        max_buffer_size: l.output.file_output.max_buffer_size,
        on_drop_policy: l.output.file_output.on_drop_policy,
    }
}

/// Whether the logger `l` is exactly what loading the template `t` yields:
/// every persisted field is taken from the template, and every runtime-only
/// field (queues, lock) is at its default.
pub open spec fn restored(t: LoggerTemplate, l: Logger) -> bool {
    &&& l.verbosity == t.verbosity
    &&& l.filtering_enabled == t.filtering_enabled
    &&& l.formatter.log_header_color_enabled == t.log_header_color_enabled
    &&& l.formatter.debug_color == t.debug_color
    &&& l.formatter.info_color == t.info_color
    &&& l.formatter.warning_color == t.warning_color
    &&& l.formatter.error_color == t.error_color
    &&& l.formatter.fatal_color == t.fatal_color
    &&& l.formatter.debug_header@ == t.debug_header@
    &&& l.formatter.info_header@ == t.info_header@
    &&& l.formatter.warning_header@ == t.warning_header@
    &&& l.formatter.error_header@ == t.error_header@
    &&& l.formatter.fatal_header@ == t.fatal_header@
    &&& l.formatter.log_format@ == t.log_format@
    &&& l.formatter.datetime_format@ == t.datetime_format@
    &&& l.output.enabled == t.output_enabled
    &&& l.output.stderr_output.enabled == t.stderr_enabled
    &&& l.output.buffer_output.enabled == t.buffer_enabled
    &&& l.output.buffer_output.log_buffer@ == Seq::<LogStruct>::empty()
    &&& l.output.file_output.enabled == t.file_enabled
    &&& l.output.file_output.max_buffer_size == t.max_buffer_size
    &&& l.output.file_output.on_drop_policy == t.on_drop_policy
    &&& l.output.file_output.log_file_path@ == t.log_file_path@
    &&& l.output.file_output.lock_enabled == false
    &&& l.output.file_output.buffered() == Seq::<Seq<char>>::empty()
}

impl Logger {
    /// Captures this logger's persisted configuration as a template.
    pub fn to_template(&self) -> (r: LoggerTemplate)
        ensures
            r == template_of(*self),
    {
        LoggerTemplate {
            verbosity: self.verbosity,
            filtering_enabled: self.filtering_enabled,
            log_header_color_enabled: self.formatter.log_header_color_enabled,
            debug_color: self.formatter.debug_color.clone(),
            info_color: self.formatter.info_color.clone(),
            warning_color: self.formatter.warning_color.clone(),
            error_color: self.formatter.error_color.clone(),
            fatal_color: self.formatter.fatal_color.clone(),
            debug_header: self.formatter.debug_header.clone(),
            info_header: self.formatter.info_header.clone(),
            warning_header: self.formatter.warning_header.clone(),
            error_header: self.formatter.error_header.clone(),
            fatal_header: self.formatter.fatal_header.clone(),
            log_format: self.formatter.log_format.clone(),
            datetime_format: self.formatter.datetime_format.clone(),
            output_enabled: self.output.enabled,
            stderr_enabled: self.output.stderr_output.enabled,
            buffer_enabled: self.output.buffer_output.enabled,
            file_enabled: self.output.file_output.enabled,
            log_file_path: self.output.file_output.log_file_path.clone(),
            max_buffer_size: self.output.file_output.max_buffer_size,
            on_drop_policy: self.output.file_output.on_drop_policy,
        }
    }

    /// Builds a logger from a persisted template: every persisted field is
    /// taken from the template, and the runtime-only state (queues, lock)
    /// starts at its default.
    pub fn from_template(t: &LoggerTemplate) -> (r: Logger)
        ensures
            restored(*t, r),
    {
        let r = Logger {
            verbosity: t.verbosity,
            filtering_enabled: t.filtering_enabled,
            formatter: LogFormatter {
                log_header_color_enabled: t.log_header_color_enabled,
                debug_color: t.debug_color.clone(),
                info_color: t.info_color.clone(),
                warning_color: t.warning_color.clone(),
                error_color: t.error_color.clone(),
                fatal_color: t.fatal_color.clone(),
                debug_header: t.debug_header.clone(),
                info_header: t.info_header.clone(),
                warning_header: t.warning_header.clone(),
                error_header: t.error_header.clone(),
                fatal_header: t.fatal_header.clone(),
                log_format: t.log_format.clone(),
                datetime_format: t.datetime_format.clone(),
            },
            output: LogOutput {
                enabled: t.output_enabled,
                stderr_output: StderrStream { enabled: t.stderr_enabled },
                buffer_output: BufferStream { enabled: t.buffer_enabled, log_buffer: Vec::new() },
                file_output: FileStream {
                    enabled: t.file_enabled,
                    max_buffer_size: t.max_buffer_size,
                    on_drop_policy: t.on_drop_policy,
                    lock_enabled: false,
                    log_file_path: t.log_file_path.clone(),
                    log_buffer: Vec::new(),
                },
            },
        };
        assert(r.output.file_output.buffered() =~= Seq::<Seq<char>>::empty());
        r
    }
}

/// Law (configuration round trip): loading the template saved from any logger
/// `l` yields a logger that agrees with `l` on every persisted field —
/// verbosity, filtering, the whole formatter configuration and the sink
/// settings, the log file path among them — while the runtime-only state
/// (queued lines, buffered events and the lock) is reset to its defaults,
/// whatever it was in `l`.
pub proof fn lemma_template_round_trip(l: Logger, back: Logger)
    requires
        restored(template_of(l), back),
    ensures
        back.verbosity == l.verbosity,
        back.filtering_enabled == l.filtering_enabled,
        back.formatter.log_header_color_enabled == l.formatter.log_header_color_enabled,
        back.formatter.debug_color == l.formatter.debug_color,
        back.formatter.info_color == l.formatter.info_color,
        back.formatter.warning_color == l.formatter.warning_color,
        back.formatter.error_color == l.formatter.error_color,
        back.formatter.fatal_color == l.formatter.fatal_color,
        back.formatter.debug_header@ == l.formatter.debug_header@,
        back.formatter.info_header@ == l.formatter.info_header@,
        back.formatter.warning_header@ == l.formatter.warning_header@,
        back.formatter.error_header@ == l.formatter.error_header@,
        back.formatter.fatal_header@ == l.formatter.fatal_header@,
        back.formatter.log_format@ == l.formatter.log_format@,
        back.formatter.datetime_format@ == l.formatter.datetime_format@,
        back.output.enabled == l.output.enabled,
        back.output.stderr_output.enabled == l.output.stderr_output.enabled,
        back.output.buffer_output.enabled == l.output.buffer_output.enabled,
        back.output.file_output.enabled == l.output.file_output.enabled,
        back.output.file_output.log_file_path@ == l.output.file_output.log_file_path@,
        back.output.file_output.max_buffer_size == l.output.file_output.max_buffer_size,
        back.output.file_output.on_drop_policy == l.output.file_output.on_drop_policy,
        back.output.buffer_output.log_buffer@ == Seq::<LogStruct>::empty(),
        back.output.file_output.buffered() == Seq::<Seq<char>>::empty(),
        back.output.file_output.lock_enabled == false,
{
}

} // verus!
