//! Calendar-day bounds of an instant, in UTC.

use vstd::prelude::*;

verus! {

/// One day length in milliseconds.
pub const DAY_MILLISECONDS: i64 = 86_400_000;

/// The first millisecond the calendar can name: midnight before
/// 1 January of the year -262143.
pub const MIN_TIMESTAMP_MILLIS: i64 = -8_334_601_228_800_000;

/// The last millisecond the calendar can name: the end of
/// 31 December of the year 262142.
pub const MAX_TIMESTAMP_MILLIS: i64 = 8_210_266_876_799_999;

/// True of the instants that fall on a date the calendar can name.
pub open spec fn spec_is_calendar_instant(timestamp_millis: i64) -> bool {
    MIN_TIMESTAMP_MILLIS <= timestamp_millis <= MAX_TIMESTAMP_MILLIS
}

/// The first millisecond of the UTC day that holds `timestamp_millis`.
pub open spec fn day_start_of(timestamp_millis: int) -> int {
    (timestamp_millis / 86_400_000) * 86_400_000
}

/// The last millisecond of the UTC day that holds `timestamp_millis`.
pub open spec fn day_end_of(timestamp_millis: int) -> int {
    day_start_of(timestamp_millis) + 86_399_999
}

/// Milliseconds from midnight to the given wall-clock time.
pub open spec fn time_of_day_millis(hour: u32, min: u32, sec: u32, milli: u32) -> int {
    ((hour * 60 + min) * 60 + sec) * 1000 + milli
}

/// Moves an instant to another time on its own UTC day.
///
/// Trusted: the body is `chrono::DateTime::<Utc>::with_time`, fed through
/// `DateTime::from_timestamp_millis` and `NaiveTime::from_hms_milli_opt` and
/// read back with `DateTime::timestamp_millis`. The contract claims what
/// chrono's source shows for UTC: an instant outside the representable dates
/// gives `None`; any other keeps its date, counted in whole days of
/// 86 400 000 ms from the Unix epoch with negative instants rounded down, and
/// takes the given time of day. Leap-second notation (`milli` of 1000 and
/// above) is left out by the precondition.
#[verifier::external_body]
fn utc_at_time_of_day(timestamp_millis: i64, hour: u32, min: u32, sec: u32, milli: u32) -> (r:
    Option<i64>)
    requires
        hour < 24,
        min < 60,
        sec < 60,
        milli < 1000,
    ensures
        r == if spec_is_calendar_instant(timestamp_millis) {
            Some((day_start_of(timestamp_millis as int) + time_of_day_millis(hour, min, sec, milli)) as i64)
        } else {
            None
        },
{
    let moment = chrono::DateTime::from_timestamp_millis(timestamp_millis)?;
    let time = chrono::NaiveTime::from_hms_milli_opt(hour, min, sec, milli)?;
    let moved = moment.with_time(time).single()?;
    Some(moved.timestamp_millis())
}

/// Whether `timestamp_millis` falls on a date the calendar can name.
#[verifier::when_used_as_spec(spec_is_calendar_instant)]
pub fn is_calendar_instant(timestamp_millis: i64) -> (r: bool)
    ensures
        r == spec_is_calendar_instant(timestamp_millis),
{
    MIN_TIMESTAMP_MILLIS <= timestamp_millis && timestamp_millis <= MAX_TIMESTAMP_MILLIS
}

/// The day that holds a calendar instant lies inside the calendar too, and
/// the instant lies inside its day.
pub proof fn lemma_day_bounds(timestamp_millis: i64)
    requires
        spec_is_calendar_instant(timestamp_millis),
    ensures
        MIN_TIMESTAMP_MILLIS <= day_start_of(timestamp_millis as int) <= timestamp_millis,
        timestamp_millis <= day_end_of(timestamp_millis as int) <= MAX_TIMESTAMP_MILLIS,
        day_start_of(timestamp_millis as int) % 86_400_000 == 0,
{
}

/// Midnight at the start of the UTC day of `timestamp_millis`.
pub fn get_day_start(timestamp_millis: i64) -> (r: i64)
    requires
        spec_is_calendar_instant(timestamp_millis),
    ensures
        r == day_start_of(timestamp_millis as int),
{
    proof {
        lemma_day_bounds(timestamp_millis);
    }
    match utc_at_time_of_day(timestamp_millis, 0, 0, 0, 0) {
        Some(start) => start,
        None => vstd::pervasive::unreached(),
    }
}

/// The last millisecond (23:59:59.999) of the UTC day of `timestamp_millis`.
pub fn get_day_end(timestamp_millis: i64) -> (r: i64)
    requires
        spec_is_calendar_instant(timestamp_millis),
    ensures
        r == day_end_of(timestamp_millis as int),
{
    proof {
        lemma_day_bounds(timestamp_millis);
    }
    match utc_at_time_of_day(timestamp_millis, 23, 59, 59, 999) {
        Some(end) => end,
        None => vstd::pervasive::unreached(),
    }
}

} // verus!
