//! Human-readable UTC timestamps for console output.
use vstd::prelude::*;
use crate::decimal::{decimal, push_decimal};
use crate::text::{prefix_output_with_timestamp, spec_prefix_output_with_timestamp};

verus! {

/// The text that chrono makes of the UTC time `unix_secs` seconds after the
/// Unix epoch with the strftime-style `pattern`, or `None` where
/// `chrono::DateTime::from_timestamp` finds the time out of its range.
pub uninterp spec fn chrono_utc_text(unix_secs: i64, pattern: Seq<char>) -> Option<Seq<char>>;

/// Calls `chrono::DateTime::<Utc>::from_timestamp(unix_secs, 0)` and formats
/// the result with chrono's `format(pattern)`, then `to_string`. The contract
/// claims only that the outcome is a function of the seconds and the pattern
/// (named above); which seconds are in range, and the calendar arithmetic,
/// are left to chrono and not stated here, beyond this: every time in the
/// years 0 to 9999 is within chrono's range (its dates span the years
/// -262142 to 262142). A pattern with an item that chrono cannot format
/// would make `to_string` panic, so only the console pattern, which holds
/// none, is admitted.
#[verifier::external_body]
fn chrono_utc_format(unix_secs: i64, pattern: &str) -> (r: Option<String>)
    requires
        pattern@ == human_timestamp_pattern(),
    ensures
        r.deep_view() == chrono_utc_text(unix_secs, pattern@),
        MIN_YEAR_0_SECS <= unix_secs <= MAX_YEAR_9999_SECS ==> r is Some,
{
    match chrono::DateTime::from_timestamp(unix_secs, 0) {
        Some(t) => Some(t.format(pattern).to_string()),
        None => None,
    }
}

/// The first second of the year 0, in seconds since the Unix epoch.
pub const MIN_YEAR_0_SECS: i64 = -62_167_219_200;

/// The last second of the year 9999, in seconds since the Unix epoch.
pub const MAX_YEAR_9999_SECS: i64 = 253_402_300_799;

/// How console timestamps are laid out: date, time of day, and the zone.
pub open spec fn human_timestamp_pattern() -> Seq<char> {
    "%Y-%m-%d %H:%M:%S UTC"@
}

/// The UTC time `unix_secs` seconds after the epoch as
/// `YYYY-MM-DD HH:MM:SS UTC`, or `None` when it is out of chrono's range.
/// Fractions of a second are not shown, so the whole seconds (rounded
/// down) are all that matters.
pub fn format_human_timestamp(unix_secs: i64) -> (r: Option<String>)
    ensures
        r.deep_view() == chrono_utc_text(unix_secs, human_timestamp_pattern()),
        MIN_YEAR_0_SECS <= unix_secs <= MAX_YEAR_9999_SECS ==> r is Some,
{
    chrono_utc_format(unix_secs, "%Y-%m-%d %H:%M:%S UTC")
}

/// The output stamped with the UTC time, as the console shows it.
pub open spec fn spec_timestamped_output(unix_secs: i64, output: Seq<char>) -> Option<Seq<char>> {
    match chrono_utc_text(unix_secs, human_timestamp_pattern()) {
        Some(ts) => Some(spec_prefix_output_with_timestamp(ts, output)),
        None => None,
    }
}

/// Every line of `output` preceded by the UTC time `unix_secs`, or `None`
/// when the time is out of chrono's range.
pub fn timestamped_output(unix_secs: i64, output: &str) -> (r: Option<String>)
    ensures
        r.deep_view() == spec_timestamped_output(unix_secs, output@),
        MIN_YEAR_0_SECS <= unix_secs <= MAX_YEAR_9999_SECS ==> r is Some,
{
    match format_human_timestamp(unix_secs) {
        Some(ts) => Some(prefix_output_with_timestamp(ts.as_str(), output)),
        None => None,
    }
}

/// A count of nanoseconds since the epoch in decimal, as the line
/// protocol's timestamp.
pub fn unix_nanos_text(nanos: u128) -> (s: String)
    ensures
        s@ == decimal(nanos as nat),
{
    let mut s = String::new();
    push_decimal(&mut s, nanos);
    assert(s@ =~= decimal(nanos as nat));
    s
}

} // verus!
