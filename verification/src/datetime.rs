//! Timestamps and their rendering.
//!
//! A timestamp is held as plain values (seconds and nanoseconds since the
//! Unix epoch, plus the local offset from UTC); turning one into text under a
//! strftime-style format string is delegated to the `chrono` crate behind a
//! trusted wrapper.

use vstd::prelude::*;
use std::fmt::Write;

verus! {

/// A point in time: seconds and nanoseconds since the Unix epoch, together
/// with the local offset from UTC (in seconds) in effect when it was taken.
#[derive(Copy, Clone, PartialEq, Eq, PartialOrd, Ord, Hash, Debug)]
pub struct Timestamp {
    /// Whole seconds since the Unix epoch (UTC).
    pub secs: i64,
    /// Nanoseconds past the second.
    pub nanos: u32,
    /// The local offset from UTC, in seconds.
    pub offset_secs: i32,
}

/// The text that rendering the timestamp `(secs, nanos, offset_secs)` under
/// the format string `fmt` produces; empty where the inputs are rejected
/// (an out-of-range timestamp or offset, or an invalid format string). It is
/// a fixed function of its arguments alone.
pub uninterp spec fn datetime_text(secs: i64, nanos: u32, offset_secs: i32, fmt: Seq<char>) -> Seq<char>;

/// The current wall-clock time, as seconds and nanoseconds since the Unix
/// epoch plus the local offset from UTC.
///
/// Relies on `chrono::Local::now` and the field accessors `timestamp`,
/// `timestamp_subsec_nanos` and `FixedOffset::local_minus_utc`: the result
/// depends on the clock, so nothing is promised of its value. Note that
/// chrono panics here if the system clock reads before the Unix epoch.
#[verifier::external_body]
pub fn now_timestamp() -> Timestamp {
    let now = chrono::Local::now();
    Timestamp {
        secs: now.timestamp(),
        nanos: now.timestamp_subsec_nanos(),
        offset_secs: now.offset().local_minus_utc(),
    }
}

/// Renders a timestamp under a strftime-style format string.
///
/// Relies on `chrono::DateTime::from_timestamp`, `FixedOffset::east_opt`,
/// `DateTime::with_timezone` and `DateTime::format`: the rendered text is a
/// function of the timestamp fields and the format string alone, and the
/// empty string comes back where chrono rejects the timestamp, the offset or
/// the format string.
#[verifier::external_body]
pub fn format_timestamp(ts: &Timestamp, fmt: &str) -> (r: String)
    ensures
        r@ == datetime_text(ts.secs, ts.nanos, ts.offset_secs, fmt@),
{
    let in_zone = chrono::DateTime::from_timestamp(ts.secs, ts.nanos)
        .zip(chrono::FixedOffset::east_opt(ts.offset_secs))
        .map(|(utc, zone)| utc.with_timezone(&zone));
    if let Some(dt) = in_zone {
        let mut out = String::new();
        if write!(out, "{}", dt.format(fmt)).is_ok() {
            return out;
        }
    }
    String::new()
}

} // verus!
