//! The log formatter: renders a log event into final text by substituting
//! the `%h` (header), `%d` (datetime) and `%m` (message) placeholders of a
//! template string, styling the per-severity header with a color, and
//! appending a trailing newline.

use vstd::prelude::*;
use vstd::string::*;

use crate::Error;
use crate::colors::{Color, color_text, wrap_spec};
use crate::config::{LogStruct, LogType};
use crate::datetime::{Timestamp, datetime_text, format_timestamp};
use crate::strings::{has_placeholder, template_has_placeholder};

verus! {

/// Formats raw log events into log messages by applying the per-severity
/// header texts and colors, the placeholder template and the datetime
/// sub-format it is configured with.
#[derive(PartialEq, Eq, Hash, Debug)]
pub struct LogFormatter {
    /// Whether log headers are wrapped in their severity's color.
    pub log_header_color_enabled: bool,

    /// The header color of debug logs.
    pub debug_color: Color,
    /// The header color of info logs.
    pub info_color: Color,
    /// The header color of warnings.
    pub warning_color: Color,
    /// The header color of errors.
    pub error_color: Color,
    /// The header color of fatal errors.
    pub fatal_color: Color,

    /// The header text of debug logs.
    pub debug_header: String,
    /// The header text of info logs.
    pub info_header: String,
    /// The header text of warnings.
    pub warning_header: String,
    /// The header text of errors.
    pub error_header: String,
    /// The header text of fatal errors.
    pub fatal_header: String,

    /// The template every rendered log follows; must contain `%m`.
    pub log_format: String,
    /// The strftime-style sub-format of the `%d` placeholder.
    pub datetime_format: String,
}

/// The raw (uncolored) header text the formatter holds for a severity.
pub open spec fn header_text(f: LogFormatter, t: LogType) -> Seq<char> {
    match t {
        LogType::Debug => f.debug_header@,
        LogType::Info => f.info_header@,
        LogType::Warning => f.warning_header@,
        LogType::Error => f.error_header@,
        LogType::FatalError => f.fatal_header@,
    }
}

/// The header color the formatter holds for a severity.
pub open spec fn header_color(f: LogFormatter, t: LogType) -> Color {
    match t {
        LogType::Debug => f.debug_color,
        LogType::Info => f.info_color,
        LogType::Warning => f.warning_color,
        LogType::Error => f.error_color,
        LogType::FatalError => f.fatal_color,
    }
}

/// The header as rendered: wrapped in the severity's color when header
/// coloring is enabled, the raw text otherwise.
pub open spec fn styled_header(f: LogFormatter, t: LogType) -> Seq<char> {
    if f.log_header_color_enabled {
        wrap_spec(header_text(f, t), header_color(f, t))
    } else {
        header_text(f, t)
    }
}

/// The text the `%d` placeholder stands for: the timestamp rendered under the
/// datetime sub-format when the template mentions `%d`, and empty otherwise
/// (the rendering work is skipped when unused).
pub open spec fn datetime_field(f: LogFormatter, ts: Timestamp) -> Seq<char> {
    if has_placeholder(f.log_format@, 'd') {
        datetime_text(ts.secs, ts.nanos, ts.offset_secs, f.datetime_format@)
    } else {
        Seq::empty()
    }
}

/// The text the template `fmt` renders to from position `i` on, with `h`, `d`
/// and `m` substituted for the `%h`, `%d` and `%m` placeholders. On `%`
/// followed by any other character, that character is emitted literally (the
/// `%` is consumed); a trailing lone `%` is dropped; every other character is
/// copied through.
pub open spec fn render_from(fmt: Seq<char>, i: int, h: Seq<char>, d: Seq<char>, m: Seq<char>) -> Seq<char>
    decreases fmt.len() - i,
{
    if i < 0 || i >= fmt.len() {
        Seq::empty()
    } else if fmt[i] == '%' {
        if i + 1 < fmt.len() {
            let piece = if fmt[i + 1] == 'h' {
                h
            } else if fmt[i + 1] == 'd' {
                d
            } else if fmt[i + 1] == 'm' {
                m
            } else {
                seq![fmt[i + 1]]
            };
            piece + render_from(fmt, i + 2, h, d, m)
        } else {
            Seq::empty()
        }
    } else {
        seq![fmt[i]] + render_from(fmt, i + 1, h, d, m)
    }
}

/// The full text the template renders to, with a trailing newline.
pub open spec fn rendered(fmt: Seq<char>, h: Seq<char>, d: Seq<char>, m: Seq<char>) -> Seq<char> {
    render_from(fmt, 0, h, d, m).push('\n')
}

/// What formatting an event of message `msg`, severity `t` and timestamp `ts`
/// under the formatter `f` yields.
pub open spec fn spec_render(f: LogFormatter, msg: Seq<char>, t: LogType, ts: Timestamp) -> Seq<char> {
    rendered(f.log_format@, styled_header(f, t), datetime_field(f, ts), msg)
}

/// What formatting the log event `log` under the formatter `f` yields.
pub open spec fn spec_format_log(f: LogFormatter, log: LogStruct) -> Seq<char> {
    spec_render(f, log.message@, log.log_type, log.datetime)
}

impl Clone for LogFormatter {
    fn clone(&self) -> (r: LogFormatter)
        ensures
            r == *self,
    {
        LogFormatter {
            log_header_color_enabled: self.log_header_color_enabled,
            debug_color: self.debug_color.clone(),
            info_color: self.info_color.clone(),
            warning_color: self.warning_color.clone(),
            error_color: self.error_color.clone(),
            fatal_color: self.fatal_color.clone(),
            debug_header: self.debug_header.clone(),
            info_header: self.info_header.clone(),
            warning_header: self.warning_header.clone(),
            error_header: self.error_header.clone(),
            fatal_header: self.fatal_header.clone(),
            log_format: self.log_format.clone(),
            datetime_format: self.datetime_format.clone(),
        }
    }
}

impl LogFormatter {
    /// The header color configured for the given severity.
    pub fn log_header_color(&self, log_type: LogType) -> (r: Color)
        ensures
            r == header_color(*self, log_type),
    {
        match log_type {
            LogType::Debug => self.debug_color.clone(),
            LogType::Info => self.info_color.clone(),
            LogType::Warning => self.warning_color.clone(),
            LogType::Error => self.error_color.clone(),
            LogType::FatalError => self.fatal_color.clone(),
        }
    }

    /// Wraps the text in the given color when header coloring is enabled, and
    /// returns it unchanged otherwise.
    pub fn colorify(&self, text: &str, color: Color) -> (r: String)
        ensures
            self.log_header_color_enabled ==> r@ == wrap_spec(text@, color),
            !self.log_header_color_enabled ==> r@ == text@,
    {
        if self.log_header_color_enabled {
            color_text(text, color)
        } else {
            text.to_owned()
        }
    }

    /// The rendered (possibly colored) header for the given severity.
    pub fn get_log_type_header(&self, log_type: LogType) -> (r: String)
        ensures
            r@ == styled_header(*self, log_type),
    {
        match log_type {
            LogType::Debug => self.colorify(self.debug_header.as_str(), self.log_header_color(log_type)),
            LogType::Info => self.colorify(self.info_header.as_str(), self.log_header_color(log_type)),
            LogType::Warning => self.colorify(self.warning_header.as_str(), self.log_header_color(log_type)),
            LogType::Error => self.colorify(self.error_header.as_str(), self.log_header_color(log_type)),
            LogType::FatalError => self.colorify(self.fatal_header.as_str(), self.log_header_color(log_type)),
        }
    }

    /// The text the `%d` placeholder stands for: the timestamp rendered under
    /// the datetime sub-format where the template mentions `%d`, and the empty
    /// string otherwise.
    pub(crate) fn get_datetime_formatted(&self, datetime: &Timestamp) -> (r: String)
        ensures
            r@ == datetime_field(*self, *datetime),
    {
        if template_has_placeholder(self.log_format.as_str(), 'd') {
            format_timestamp(datetime, self.datetime_format.as_str())
        } else {
            String::new()
        }
    }

    /// The rendered header and datetime texts for the given event.
    pub(crate) fn get_log_headers(&self, log: &LogStruct) -> (r: (String, String))
        ensures
            r.0@ == styled_header(*self, log.log_type),
            r.1@ == datetime_field(*self, log.datetime),
    {
        let header = self.get_log_type_header(log.log_type);
        let datetime = self.get_datetime_formatted(&log.datetime);
        (header, datetime)
    }

    /// Renders a log event into its final text under this formatter's
    /// configuration: the template with `%h`, `%d` and `%m` substituted, plus
    /// a trailing newline.
    pub fn format_log(&self, log: &LogStruct) -> (r: String)
        ensures
            r@ == spec_format_log(*self, *log),
    {
        let headers = self.get_log_headers(log);
        let fmt = self.log_format.as_str();
        let ghost h = headers.0@;
        let ghost d = headers.1@;
        let ghost m = log.message@;
        let n = fmt.unicode_len();
        let mut result = String::new();
        let mut i: usize = 0;
        while i < n
            invariant
                n == fmt@.len(),
                i <= n + 1,
                h == headers.0@,
                d == headers.1@,
                m == log.message@,
                result@ + render_from(fmt@, i as int, h, d, m) == render_from(fmt@, 0, h, d, m),
            decreases n - i,
        {
            let ghost pre = result@;
            let ghost ii = i as int;
            let c = fmt.get_char(i);
            if c == '%' {
                if i + 1 < n {
                    let nc = fmt.get_char(i + 1);
                    if nc == 'h' {
                        result.append(headers.0.as_str());
                    } else if nc == 'd' {
                        result.append(headers.1.as_str());
                    } else if nc == 'm' {
                        result.append(log.message.as_str());
                    } else {
                        result.push(nc);
                        assert(result@ =~= pre + seq![fmt@[ii + 1]]);
                    }
                    i = i + 2;
                } else {
                    i = i + 1;
                }
            } else {
                result.push(c);
                assert(result@ =~= pre + seq![fmt@[ii]]);
                i = i + 1;
            }
            assert(result@ + render_from(fmt@, i as int, h, d, m) =~= pre + render_from(fmt@, ii, h, d, m));
        }
        assert(result@ + render_from(fmt@, i as int, h, d, m) =~= result@);
        result.push('\n');
        result
    }

    /// Toggles colored log headers.
    pub fn toggle_log_header_color(&mut self, enabled: bool)
        ensures
            *final(self) == (LogFormatter { log_header_color_enabled: enabled, ..*old(self) }),
    {
        self.log_header_color_enabled = enabled;
    }

    /// Sets the **debug log header** color.
    pub fn set_debug_color(&mut self, color: Color)
        ensures
            *final(self) == (LogFormatter { debug_color: color, ..*old(self) }),
    {
        self.debug_color = color;
    }

    /// Sets the **info log header** color.
    pub fn set_info_color(&mut self, color: Color)
        ensures
            *final(self) == (LogFormatter { info_color: color, ..*old(self) }),
    {
        self.info_color = color;
    }

    /// Sets the **warning header** color.
    pub fn set_warning_color(&mut self, color: Color)
        ensures
            *final(self) == (LogFormatter { warning_color: color, ..*old(self) }),
    {
        self.warning_color = color;
    }

    /// Sets the **error header** color.
    pub fn set_error_color(&mut self, color: Color)
        ensures
            *final(self) == (LogFormatter { error_color: color, ..*old(self) }),
    {
        self.error_color = color;
    }

    /// Sets the **fatal error header** color.
    pub fn set_fatal_color(&mut self, color: Color)
        ensures
            *final(self) == (LogFormatter { fatal_color: color, ..*old(self) }),
    {
        self.fatal_color = color;
    }

    /// Sets the **debug log header** text.
    pub fn set_debug_header(&mut self, header: &str)
        ensures
            *final(self) == (LogFormatter { debug_header: final(self).debug_header, ..*old(self) }),
            final(self).debug_header@ == header@,
    {
        self.debug_header = header.to_owned();
    }

    /// Sets the **info log header** text.
    pub fn set_info_header(&mut self, header: &str)
        ensures
            *final(self) == (LogFormatter { info_header: final(self).info_header, ..*old(self) }),
            final(self).info_header@ == header@,
    {
        self.info_header = header.to_owned();
    }

    /// Sets the **warning header** text.
    pub fn set_warning_header(&mut self, header: &str)
        ensures
            *final(self) == (LogFormatter { warning_header: final(self).warning_header, ..*old(self) }),
            final(self).warning_header@ == header@,
    {
        self.warning_header = header.to_owned();
    }

    /// Sets the **error header** text.
    pub fn set_error_header(&mut self, header: &str)
        ensures
            *final(self) == (LogFormatter { error_header: final(self).error_header, ..*old(self) }),
            final(self).error_header@ == header@,
    {
        self.error_header = header.to_owned();
    }

    /// Sets the **fatal error header** text.
    pub fn set_fatal_header(&mut self, header: &str)
        ensures
            *final(self) == (LogFormatter { fatal_header: final(self).fatal_header, ..*old(self) }),
            final(self).fatal_header@ == header@,
    {
        self.fatal_header = header.to_owned();
    }

    /// Sets the datetime sub-format used by the `%d` placeholder.
    pub fn set_datetime_format(&mut self, format: &str)
        ensures
            *final(self) == (LogFormatter { datetime_format: final(self).datetime_format, ..*old(self) }),
            final(self).datetime_format@ == format@,
    {
        self.datetime_format = format.to_owned();
    }

    /// Sets the log template.
    ///
    /// Succeeds exactly when the template contains the mandatory `%m`
    /// placeholder; on failure the previously active template (and every other
    /// setting) is left unchanged.
    pub fn set_log_format(&mut self, format: &str) -> (r: Result<(), Error>)
        ensures
            r is Ok <==> has_placeholder(format@, 'm'),
            r is Ok ==> *final(self) == (LogFormatter { log_format: final(self).log_format, ..*old(self) })
                && final(self).log_format@ == format@,
            r is Err ==> *final(self) == *old(self),
            r matches Err(e) ==> e.message@ == "Expected a message placeholder!"@,
    {
        if template_has_placeholder(format, 'm') {
            self.log_format = format.to_owned();
            Ok(())
        } else {
            Err(Error::new("Expected a message placeholder!"))
        }
    }
}

/// What the default formatter configuration looks like: colored three-letter
/// headers, the `"[%h] %m"` template and a date-and-time sub-format.
pub open spec fn default_formatter_spec(r: LogFormatter) -> bool {
    &&& r.log_header_color_enabled == true
    &&& r.debug_color == Color::Blue
    &&& r.info_color == Color::Green
    &&& r.warning_color == Color::Yellow
    &&& r.error_color == Color::Red
    &&& r.fatal_color == Color::Magenta
    &&& r.debug_header@ == "DBG"@
    &&& r.info_header@ == "INF"@
    &&& r.warning_header@ == "WAR"@
    &&& r.error_header@ == "ERR"@
    &&& r.fatal_header@ == "FATAL"@
    &&& r.log_format@ == "[%h] %m"@
    &&& r.datetime_format@ == "%Y-%m-%d %H:%M:%S"@
}

impl Default for LogFormatter {
    /// The default formatter: colored three-letter headers, the `"[%h] %m"`
    /// template and a date-and-time sub-format.
    fn default() -> (r: LogFormatter)
        ensures
            default_formatter_spec(r),
    {
        LogFormatter {
            log_header_color_enabled: true,

            debug_color: Color::Blue,
            info_color: Color::Green,
            warning_color: Color::Yellow,
            error_color: Color::Red,
            fatal_color: Color::Magenta,

            debug_header: String::from_str("DBG"),
            info_header: String::from_str("INF"),
            warning_header: String::from_str("WAR"),
            error_header: String::from_str("ERR"),
            fatal_header: String::from_str("FATAL"),

            log_format: String::from_str("[%h] %m"),
            datetime_format: String::from_str("%Y-%m-%d %H:%M:%S"),
        }
    }
}

} // verus!
