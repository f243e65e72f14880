//! What the clock face shows besides the Roman time: where on the 24-hour
//! dial the instant and the two changes stand, and the local wall-clock
//! time.

use vstd::prelude::*;

use crate::clock_text::hours_minutes_text;
use crate::time_calculators::day_start_of;
use crate::time_calculators::get_day_start;
use crate::time_calculators::spec_is_calendar_instant;
use crate::types::DayType;
use crate::types::RomanTimeDetails;

verus! {

/// Positions on the dial, each in milliseconds after the midnight that
/// starts the UTC day of the instant (one turn of the dial is one day). A
/// position may be negative or exceed a day.
#[derive(Clone, Copy, Debug, PartialEq, Eq, Structural)]
pub struct ClockMarks {
    pub now: i64,
    pub last_change: i64,
    pub next_change: i64,
}

/// Milliseconds by which the dial is turned for the time zone: the offset
/// in minutes west of UTC, except that full days and full nights are drawn
/// unturned.
pub open spec fn dial_shift_of(day_type: DayType, timezone_offset: i32) -> int {
    if day_type.is_full() {
        0
    } else {
        timezone_offset * 60_000
    }
}

/// The epoch at which a change is drawn: its own, or the Unix epoch where
/// the change is missing.
pub open spec fn drawn_epoch_of(change: Option<i64>) -> int {
    match change {
        Some(epoch) => epoch as int,
        None => 0,
    }
}

/// True when `value` is a 64-bit integer.
pub open spec fn fits_i64(value: int) -> bool {
    i64::MIN <= value <= i64::MAX
}

/// True when `value` is a 32-bit integer.
pub open spec fn fits_i32(value: int) -> bool {
    i32::MIN <= value <= i32::MAX
}

/// True when a mark can be computed: the shifted epoch and its distance
/// from the start of the day both fit in 64 bits.
pub open spec fn mark_fits(epoch: int, shift: int, day_start: int) -> bool {
    fits_i64(epoch - shift) && fits_i64(epoch - shift - day_start)
}

/// The marks of an instant and of the changes of its Roman time.
pub open spec fn clock_marks_of(
    requested_epoch: i64,
    timezone_offset: i32,
    details: RomanTimeDetails,
) -> Option<ClockMarks> {
    let shift = dial_shift_of(details.day_type, timezone_offset);
    let day_start = day_start_of(requested_epoch as int);
    let last = drawn_epoch_of(details.last_sun_change);
    let next = drawn_epoch_of(details.next_sun_change);
    if fits_i32(shift) && mark_fits(requested_epoch as int, shift, day_start) && mark_fits(
        last,
        shift,
        day_start,
    ) && mark_fits(next, shift, day_start) {
        Some(
            ClockMarks {
                now: (requested_epoch - shift - day_start) as i64,
                last_change: (last - shift - day_start) as i64,
                next_change: (next - shift - day_start) as i64,
            },
        )
    } else {
        None
    }
}

/// One mark: `epoch`, turned by `shift`, counted from `day_start`.
fn mark(epoch: i64, shift: i32, day_start: i64) -> (r: Option<i64>)
    ensures
        r == if mark_fits(epoch as int, shift as int, day_start as int) {
            Some((epoch - shift - day_start) as i64)
        } else {
            None::<i64>
        },
{
    match epoch.checked_sub(shift as i64) {
        Some(turned) => turned.checked_sub(day_start),
        None => None,
    }
}

/// Where the instant and the two changes stand on the dial. `None` where a
/// position does not fit in 64 bits or the time zone shift does not fit in
/// 32.
pub fn clock_marks(requested_epoch: i64, timezone_offset: i32, details: &RomanTimeDetails) -> (r:
    Option<ClockMarks>)
    requires
        spec_is_calendar_instant(requested_epoch),
    ensures
        r == clock_marks_of(requested_epoch, timezone_offset, *details),
{
    let shift: i32 = match details.day_type {
        DayType::FullDay => 0,
        DayType::FullNight => 0,
        _ => match timezone_offset.checked_mul(60_000) {
            Some(millis) => millis,
            None => {
                return None;
            },
        },
    };
    let day_start = get_day_start(requested_epoch);
    let last_change_epoch = match details.last_sun_change {
        Some(lsc) => lsc,
        None => 0,
    };
    let next_change_epoch = match details.next_sun_change {
        Some(nsc) => nsc,
        None => 0,
    };
    match (
        mark(requested_epoch, shift, day_start),
        mark(last_change_epoch, shift, day_start),
        mark(next_change_epoch, shift, day_start),
    ) {
        (Some(now), Some(last_change), Some(next_change)) => Some(
            ClockMarks { now, last_change, next_change },
        ),
        _ => None,
    }
}

/// Milliseconds since local midnight at `timestamp_millis`, for a clock
/// `timezone_offset` minutes west of UTC.
pub open spec fn local_millis_of_day(timestamp_millis: i64, timezone_offset: i32) -> int {
    (timestamp_millis - timezone_offset * 60_000) % 86_400_000
}

/// The hour of the local wall clock, 0 to 23.
pub open spec fn local_hour_of(timestamp_millis: i64, timezone_offset: i32) -> int {
    local_millis_of_day(timestamp_millis, timezone_offset) / 3_600_000
}

/// The minute of the local wall clock, 0 to 59.
pub open spec fn local_minute_of(timestamp_millis: i64, timezone_offset: i32) -> int {
    (local_millis_of_day(timestamp_millis, timezone_offset) % 3_600_000) / 60_000
}

/// True when an instant has a wall-clock time `west_secs` seconds behind
/// UTC: the instant has a date and the offset is less than a day.
pub open spec fn wall_clock_defined(timestamp_millis: i64, west_secs: i32) -> bool {
    spec_is_calendar_instant(timestamp_millis) && -86_400 < west_secs < 86_400
}

/// The time of day `west_secs` seconds behind UTC as `HH:MM`.
pub open spec fn wall_clock_reading(timestamp_millis: i64, west_secs: i32) -> Seq<char> {
    let millis_of_day = (timestamp_millis - west_secs * 1000) % 86_400_000;
    hours_minutes_text(millis_of_day / 3_600_000, (millis_of_day % 3_600_000) / 60_000)
}

/// The wall-clock time of an instant at a fixed offset, as `HH:MM`.
///
/// Trusted: the body makes a `chrono::DateTime` from the instant
/// (`DateTime::from_timestamp_millis`) and the offset
/// (`FixedOffset::west_opt`, `DateTime::from_naive_utc_and_offset`) and
/// formats it with `DateTime::format` and the pattern `%H:%M`. The contract
/// claims what chrono's source shows: `None` exactly where the instant has
/// no date or the offset is a day or more; otherwise the hour and the
/// minute of the time of day `west_secs` seconds behind UTC, each written
/// with two digits, with a colon between them.
#[verifier::external_body]
fn wall_clock_text(timestamp_millis: i64, west_secs: i32) -> (r: Option<String>)
    ensures
        r is Some <==> wall_clock_defined(timestamp_millis, west_secs),
        r is Some ==> r->0@ == wall_clock_reading(timestamp_millis, west_secs),
{
    let utc = chrono::DateTime::from_timestamp_millis(timestamp_millis)?;
    let offset = chrono::FixedOffset::west_opt(west_secs)?;
    let naive = utc.naive_utc();
    let local = chrono::DateTime::<chrono::Local>::from_naive_utc_and_offset(naive, offset);
    Some(format!("{}", local.format("%H:%M")))
}

/// The local wall-clock time of `requested_epoch` as `HH:MM`, on a clock
/// `timezone_offset` minutes west of UTC (negative to the east).
pub fn local_time_text(requested_epoch: i64, timezone_offset: i32) -> (text: String)
    requires
        spec_is_calendar_instant(requested_epoch),
        -1440 < timezone_offset < 1440,
    ensures
        text@ == hours_minutes_text(
            local_hour_of(requested_epoch, timezone_offset),
            local_minute_of(requested_epoch, timezone_offset),
        ),
        text@.len() == 5,
{
    proof {
        lemma_local_time_is_five_wide(requested_epoch, timezone_offset);
    }
    match wall_clock_text(requested_epoch, timezone_offset * 60) {
        Some(text) => text,
        None => vstd::pervasive::unreached(),
    }
}

/// A wall-clock reading has an hour below 24 and a minute below 60, so its
/// text is five characters long.
pub proof fn lemma_local_time_is_five_wide(requested_epoch: i64, timezone_offset: i32)
    ensures
        0 <= local_hour_of(requested_epoch, timezone_offset) < 24,
        0 <= local_minute_of(requested_epoch, timezone_offset) < 60,
        hours_minutes_text(
            local_hour_of(requested_epoch, timezone_offset),
            local_minute_of(requested_epoch, timezone_offset),
        ).len() == 5,
{
    let h = local_hour_of(requested_epoch, timezone_offset);
    let m = local_minute_of(requested_epoch, timezone_offset);
    crate::clock_text::lemma_two_digit_width(h);
    crate::clock_text::lemma_two_digit_width(m);
}

} // verus!
