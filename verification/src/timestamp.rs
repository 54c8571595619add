//! Splitting a millisecond timestamp into calendar-friendly parts.

use vstd::prelude::*;
use crate::text::text_view;

verus! {

/// Whole seconds held in a millisecond timestamp.
pub open spec fn whole_seconds(ms_timestamp: u64) -> int {
    ms_timestamp as int / 1000
}

/// The sub-second remainder of a millisecond timestamp, in nanoseconds.
pub open spec fn subsecond_nanos(ms_timestamp: u64) -> int {
    (ms_timestamp as int % 1000) * 1_000_000
}

/// Splits a timestamp in milliseconds into whole seconds and the remaining
/// fraction of a second expressed in nanoseconds.
pub fn get_ms_and_ns_pair(ms_timestamp: u64) -> (pair: (u64, u32))
    ensures
        pair.0 == whole_seconds(ms_timestamp),
        pair.1 == subsecond_nanos(ms_timestamp),
        pair.1 < 1_000_000_000,
        pair.0 * 1_000_000_000 + pair.1 == ms_timestamp * 1_000_000,
{
    let secs: u64 = ms_timestamp / 1000;
    let millis: u64 = ms_timestamp % 1000;
    let nanos: u32 = (millis * 1_000_000) as u32;
    (secs, nanos)
}

/// The calendar date and time in UTC of an instant given in seconds and
/// nanoseconds since the epoch, as text; `None` where the calendar does not
/// reach the instant.
pub uninterp spec fn utc_calendar_text(seconds: i64, nanos: u32) -> Option<Seq<char>>;

/// Calls `chrono::DateTime::from_timestamp` and, where it gives an instant,
/// `to_string` on it. What comes back depends on the two numbers alone.
#[verifier::external_body]
fn utc_text(seconds: i64, nanos: u32) -> (text: Option<String>)
    ensures
        text_view(text) == utc_calendar_text(seconds, nanos),
{
    match chrono::DateTime::from_timestamp(seconds, nanos) {
        Some(instant) => Some(instant.to_string()),
        None => None,
    }
}

/// The calendar text of a timestamp in milliseconds.
pub open spec fn event_time_text(ms_timestamp: u64) -> Option<Seq<char>> {
    utc_calendar_text(whole_seconds(ms_timestamp) as i64, subsecond_nanos(ms_timestamp) as u32)
}

/// Writes a timestamp in milliseconds as a calendar date and time in UTC.
pub fn format_event_time(ms_timestamp: u64) -> (text: Option<String>)
    ensures
        text_view(text) == event_time_text(ms_timestamp),
{
    let (seconds, nanos) = get_ms_and_ns_pair(ms_timestamp);
    utc_text(seconds as i64, nanos)
}

} // verus!
