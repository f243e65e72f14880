//! Roman time: the hour and minute of an instant on a clock whose day runs
//! from sunrise (6:00) to sunset (18:00) in 12 equal hours, and whose night
//! runs from sunset to sunrise in 12 more.

use vstd::prelude::*;

use crate::point_of_time::PointOfTime;
use crate::time_calculators::spec_is_calendar_instant;
use crate::timeline::build_timeline;
use crate::timeline::lemma_timeline_is_sound;
use crate::timeline::spec_days_valid;
use crate::timeline::timeline_of;
use crate::types::DayType;
use crate::types::RomanTimeDetails;
use crate::types::SunMovementResult;
use crate::types::Timeline;
use crate::types::TimeType;

verus! {

/// Roman minutes in half a Roman day: 12 hours of 60 minutes.
pub const ROMAN_MINUTES_PER_HALF_DAY: i64 = 720;

/// Length in milliseconds of a Roman minute on a day without transitions.
pub const FULL_DAY_MINUTE_LENGTH_MS: i64 = 120_000;

/// True when both changes of the timeline are known.
pub open spec fn has_both_changes(timeline: Timeline) -> bool {
    timeline.last_sun_change is Some && timeline.next_sun_change is Some
}

/// Milliseconds from the last change to the next, where both are known.
pub open spec fn span_of(timeline: Timeline) -> int {
    timeline.next_sun_change->0.epoch - timeline.last_sun_change->0.epoch
}

/// Length of a Roman minute in whole milliseconds: a 720th of the interval
/// between the two changes, or the fixed length where a change is missing.
pub open spec fn minute_length_of(timeline: Timeline) -> int {
    if has_both_changes(timeline) {
        span_of(timeline) / 720
    } else {
        120_000
    }
}

/// Milliseconds since the Roman half day began: since the last change, or
/// since the start of the day where a change is missing.
pub open spec fn elapsed_of(timeline: Timeline, requested_epoch: i64) -> int {
    if has_both_changes(timeline) {
        requested_epoch - timeline.last_sun_change->0.epoch
    } else {
        requested_epoch - timeline.day_start_epoch
    }
}

/// The Roman hour at which the half day began: 6 after a sunrise or on a
/// full day, 18 after a sunset or on a full night.
pub open spec fn clock_start_of(timeline: Timeline) -> int {
    if has_both_changes(timeline) {
        if timeline.last_sun_change->0.time_type == TimeType::Sunrise {
            6
        } else {
            18
        }
    } else {
        if timeline.day_type == DayType::FullDay {
            6
        } else {
            18
        }
    }
}

/// Day after a sunrise, night after a sunset; the timeline's own type
/// where a change is missing.
pub open spec fn roman_day_type_of(timeline: Timeline) -> DayType {
    if has_both_changes(timeline) {
        if timeline.last_sun_change->0.time_type == TimeType::Sunrise {
            DayType::NormalDay
        } else {
            DayType::NormalNight
        }
    } else {
        timeline.day_type
    }
}

/// Whole Roman minutes since the half day began.
pub open spec fn minutes_since_of(timeline: Timeline, requested_epoch: i64) -> int {
    elapsed_of(timeline, requested_epoch) / minute_length_of(timeline)
}

/// The epoch of a change, if it is known.
pub open spec fn epoch_of(change: Option<PointOfTime>) -> Option<i64> {
    match change {
        Some(p) => Some(p.epoch),
        None => None,
    }
}

/// The Roman time that a timeline gives to an instant.
pub open spec fn roman_time_of(timeline: Timeline, requested_epoch: i64) -> RomanTimeDetails {
    let minutes_since = minutes_since_of(timeline, requested_epoch);
    RomanTimeDetails {
        hours: ((minutes_since / 60 + clock_start_of(timeline)) % 24) as i32,
        minutes: (minutes_since % 60) as i32,
        last_sun_change: epoch_of(timeline.last_sun_change),
        next_sun_change: epoch_of(timeline.next_sun_change),
        minute_length_ms: minute_length_of(timeline) as i64,
        day_type: roman_day_type_of(timeline),
    }
}

/// True when the timeline can be read as a clock at the instant. With both
/// changes known the instant lies between them, and they are at least
/// 720 ms apart, so that a Roman minute has a length, and no further apart
/// than 64 bits hold. With a change missing the instant lies at or after
/// the start of the day and no further from it than 64 bits hold.
pub open spec fn spec_roman_time_defined(timeline: Timeline, requested_epoch: i64) -> bool {
    if has_both_changes(timeline) {
        &&& timeline.last_sun_change->0.epoch <= requested_epoch
            <= timeline.next_sun_change->0.epoch
        &&& 720 <= span_of(timeline) <= i64::MAX
    } else {
        0 <= requested_epoch - timeline.day_start_epoch <= i64::MAX
    }
}

/// Whether `roman_time` accepts the timeline and the instant.
#[verifier::when_used_as_spec(spec_roman_time_defined)]
pub fn roman_time_defined(timeline: Timeline, requested_epoch: i64) -> (r: bool)
    ensures
        r == spec_roman_time_defined(timeline, requested_epoch),
{
    match (timeline.last_sun_change, timeline.next_sun_change) {
        (Some(last), Some(next)) => {
            last.epoch <= requested_epoch && requested_epoch <= next.epoch && match next.epoch.checked_sub(
                last.epoch,
            ) {
                Some(span) => 720 <= span,
                None => false,
            }
        },
        _ => {
            timeline.day_start_epoch <= requested_epoch && requested_epoch.checked_sub(
                timeline.day_start_epoch,
            ).is_some()
        },
    }
}

/// Quotient and remainder of a count that is not negative by a length
/// that is positive: the quotient is no larger than the count, and the
/// remainder is smaller than the length.
pub proof fn lemma_whole_minutes(count: int, length: int)
    requires
        0 <= count,
        0 < length,
    ensures
        0 <= count / length <= count,
        0 <= count % length < length,
        count == length * (count / length) + count % length,
{
    vstd::arithmetic::div_mod::lemma_fundamental_div_mod(count, length);
    vstd::arithmetic::div_mod::lemma_mod_bound(count, length);
    vstd::arithmetic::div_mod::lemma_div_pos_is_pos(count, length);
    let q = count / length;
    let r = count % length;
    assert(q <= count) by (nonlinear_arith)
        requires
            0 <= q,
            0 < length,
            0 <= r,
            count == length * q + r,
    ;
}

/// The Roman time of `requested_epoch` on `timeline`.
///
/// With both changes known a Roman minute is a 720th of the interval
/// between them, in whole milliseconds, and the clock counts from the last
/// change, starting at 6 after a sunrise and at 18 after a sunset. With a
/// change missing a Roman minute is 120 000 ms and the clock counts from
/// the start of the day, starting at 6 on a full day and at 18 otherwise.
/// The hour lies in 0 to 23 and the minute in 0 to 59.
pub fn roman_time(timeline: &Timeline, requested_epoch: i64) -> (r: RomanTimeDetails)
    requires
        spec_roman_time_defined(*timeline, requested_epoch),
    ensures
        r == roman_time_of(*timeline, requested_epoch),
        0 <= r.hours < 24,
        0 <= r.minutes < 60,
        0 < r.minute_length_ms,
{
    let roman_minute_length: i64;
    let duration_since_lc: i64;
    let clock_start: i64;
    let day_type: DayType;
    match (timeline.last_sun_change, timeline.next_sun_change) {
        (Some(lc), Some(nc)) => {
            roman_minute_length = (nc.epoch - lc.epoch) / ROMAN_MINUTES_PER_HALF_DAY;
            duration_since_lc = requested_epoch - lc.epoch;
            match lc.time_type {
                TimeType::Sunrise => {
                    clock_start = 6;
                    day_type = DayType::NormalDay;
                },
                TimeType::Sunset => {
                    clock_start = 18;
                    day_type = DayType::NormalNight;
                },
            }
        },
        _ => {
            roman_minute_length = FULL_DAY_MINUTE_LENGTH_MS;
            duration_since_lc = requested_epoch - timeline.day_start_epoch;
            clock_start = match timeline.day_type {
                DayType::FullDay => 6,
                _ => 18,
            };
            day_type = timeline.day_type;
        },
    }
    proof {
        lemma_whole_minutes(duration_since_lc as int, roman_minute_length as int);
    }
    let minutes_since_lc: i64 = duration_since_lc / roman_minute_length;
    let roman_hours: i64 = (minutes_since_lc / 60 + clock_start) % 24;
    let roman_minutes: i64 = minutes_since_lc % 60;
    RomanTimeDetails {
        hours: roman_hours as i32,
        minutes: roman_minutes as i32,
        last_sun_change: match timeline.last_sun_change {
            Some(lsc) => Some(lsc.epoch),
            None => None,
        },
        next_sun_change: match timeline.next_sun_change {
            Some(nsc) => Some(nsc.epoch),
            None => None,
        },
        minute_length_ms: roman_minute_length,
        day_type,
    }
}

/// The Roman time of `requested_epoch`, given the Sun's movement on the day
/// of the instant, the day before and the day after: the timeline is
/// stitched from the three days and read as a clock.
pub fn calculate_roman_sun_time(
    requested_epoch: i64,
    today: SunMovementResult,
    yesterday: SunMovementResult,
    tomorrow: SunMovementResult,
) -> (r: RomanTimeDetails)
    requires
        spec_is_calendar_instant(requested_epoch),
        spec_days_valid(requested_epoch, today, yesterday, tomorrow),
        spec_roman_time_defined(
            timeline_of(requested_epoch, today, yesterday, tomorrow),
            requested_epoch,
        ),
    ensures
        r == roman_time_of(
            timeline_of(requested_epoch, today, yesterday, tomorrow),
            requested_epoch,
        ),
        0 <= r.hours < 24,
        0 <= r.minutes < 60,
        0 < r.minute_length_ms,
{
    let timeline = build_timeline(requested_epoch, today, yesterday, tomorrow);
    roman_time(&timeline, requested_epoch)
}

/// The timeline of sound days can be read as a clock unless its two
/// changes are less than 720 ms apart or further apart than 64 bits hold:
/// nothing else stands in the way.
pub proof fn lemma_sound_days_give_a_clock(
    requested_epoch: i64,
    today: SunMovementResult,
    yesterday: SunMovementResult,
    tomorrow: SunMovementResult,
)
    requires
        spec_is_calendar_instant(requested_epoch),
        spec_days_valid(requested_epoch, today, yesterday, tomorrow),
    ensures
        ({
            let t = timeline_of(requested_epoch, today, yesterday, tomorrow);
            spec_roman_time_defined(t, requested_epoch) <==> (has_both_changes(t) ==> 720
                <= span_of(t) <= i64::MAX)
        }),
{
    lemma_timeline_is_sound(requested_epoch, today, yesterday, tomorrow);
    crate::time_calculators::lemma_day_bounds(requested_epoch);
}

/// A day without a change is one turn of the clock's half: at any instant
/// of the day that the timeline starts the reading is defined, fewer than
/// 720 minutes of 120 000 ms have passed (720 of them make the day), and
/// the hour runs from 6 to 17 on a full day and from 18 round to 5
/// otherwise.
pub proof fn lemma_open_timeline_clock(timeline: Timeline, requested_epoch: i64)
    requires
        !has_both_changes(timeline),
        timeline.day_start_epoch <= requested_epoch < timeline.day_start_epoch + 86_400_000,
    ensures
        spec_roman_time_defined(timeline, requested_epoch),
        0 <= minutes_since_of(timeline, requested_epoch) < 720,
        ({
            let r = roman_time_of(timeline, requested_epoch);
            &&& r.minute_length_ms == 120_000
            &&& 0 <= r.minutes < 60
            &&& timeline.day_type == DayType::FullDay ==> 6 <= r.hours < 18
            &&& timeline.day_type != DayType::FullDay ==> 18 <= r.hours < 24 || 0 <= r.hours < 6
        }),
{
}

/// Between its two changes the clock reports both of them and reads as a
/// normal day after a sunrise and as a normal night after a sunset; a
/// Roman minute lasts at least a millisecond, and the whole minutes
/// counted do not outlast the interval.
pub proof fn lemma_enclosed_clock(timeline: Timeline, requested_epoch: i64)
    requires
        has_both_changes(timeline),
        spec_roman_time_defined(timeline, requested_epoch),
    ensures
        minute_length_of(timeline) >= 1,
        0 <= minutes_since_of(timeline, requested_epoch),
        minutes_since_of(timeline, requested_epoch) * minute_length_of(timeline) <= span_of(
            timeline,
        ),
        ({
            let r = roman_time_of(timeline, requested_epoch);
            &&& r.last_sun_change == Some(timeline.last_sun_change->0.epoch)
            &&& r.next_sun_change == Some(timeline.next_sun_change->0.epoch)
            &&& r.day_type == if timeline.last_sun_change->0.time_type == TimeType::Sunrise {
                DayType::NormalDay
            } else {
                DayType::NormalNight
            }
        }),
{
    let elapsed = elapsed_of(timeline, requested_epoch);
    let len = minute_length_of(timeline);
    lemma_whole_minutes(elapsed, len);
    assert((elapsed / len) * len == len * (elapsed / len)) by (nonlinear_arith);
}

} // verus!
