//! The solar transitions around an instant.
//!
//! A timeline is stitched from the Sun's movement on at most three days:
//! the day of the instant and, only where that day leaves a side open, the
//! day before and the day after. Of all the transitions of the days read,
//! the last change is the latest at or before the instant and the next
//! change the earliest after it. `timeline_of` says what the result is;
//! `TimelineBuilder` is the state machine that asks for one day at a time;
//! `build_timeline` is the same decision for a caller who has all three
//! days at hand.
//!
//! The days must be sound: on each the Sun rises before it sets, a day
//! does not run into the next, the day before has begun by the instant
//! and the day after has not ended. `TimelineBuilder::accepts` and
//! `days_valid` test this.

use vstd::prelude::*;

use crate::point_of_time::PointOfTime;
use crate::time_calculators::day_start_of;
use crate::time_calculators::get_day_start;
use crate::time_calculators::spec_is_calendar_instant;
use crate::time_calculators::DAY_MILLISECONDS;
use crate::types::DayType;
use crate::types::NormalDayAndNight;
use crate::types::SunMovementResult;
use crate::types::Timeline;
use crate::types::TimeType;

verus! {

/// The day type that one day's movement stands for.
pub open spec fn day_type_of(day: SunMovementResult) -> DayType {
    match day {
        SunMovementResult::NormalDayAndNight(_) => DayType::NormalDay,
        SunMovementResult::FullDay => DayType::FullDay,
        SunMovementResult::FullNight => DayType::FullNight,
    }
}

/// The latest transition of a day at or before the instant; none on a full
/// day or a full night.
pub open spec fn day_last(day: SunMovementResult, requested_epoch: i64) -> Option<PointOfTime> {
    match day {
        SunMovementResult::NormalDayAndNight(n) => n.last_at_or_before(requested_epoch),
        _ => None,
    }
}

/// The earliest transition of a day after the instant; none on a full day
/// or a full night.
pub open spec fn day_next(day: SunMovementResult, requested_epoch: i64) -> Option<PointOfTime> {
    match day {
        SunMovementResult::NormalDayAndNight(n) => n.first_after(requested_epoch),
        _ => None,
    }
}

/// The later of two points that may be missing; the first when they
/// coincide.
pub open spec fn later_of(a: Option<PointOfTime>, b: Option<PointOfTime>) -> Option<PointOfTime> {
    match (a, b) {
        (Some(x), Some(y)) => if x.epoch < y.epoch {
            b
        } else {
            a
        },
        (None, _) => b,
        (_, None) => a,
    }
}

/// The sooner of two points that may be missing; the first when they
/// coincide.
pub open spec fn sooner_of(a: Option<PointOfTime>, b: Option<PointOfTime>) -> Option<PointOfTime> {
    match (a, b) {
        (Some(x), Some(y)) => if y.epoch < x.epoch {
            b
        } else {
            a
        },
        (None, _) => b,
        (_, None) => a,
    }
}

/// The day type after a neighbouring day has been read: the neighbour's
/// if it is a full day or a full night, else unchanged.
pub open spec fn day_type_after(so_far: DayType, neighbour: SunMovementResult) -> DayType {
    if day_type_of(neighbour).is_full() {
        day_type_of(neighbour)
    } else {
        so_far
    }
}

/// True when the day before is read: today has no transition at or before
/// the instant.
pub open spec fn reads_yesterday(requested_epoch: i64, today: SunMovementResult) -> bool {
    day_last(today, requested_epoch) is None
}

/// The next change as far as today and, where it is read, yesterday show
/// it.
pub open spec fn next_before_tomorrow(
    requested_epoch: i64,
    today: SunMovementResult,
    yesterday: SunMovementResult,
) -> Option<PointOfTime> {
    if reads_yesterday(requested_epoch, today) {
        sooner_of(day_next(today, requested_epoch), day_next(yesterday, requested_epoch))
    } else {
        day_next(today, requested_epoch)
    }
}

/// The last change as far as today and, where it is read, yesterday show
/// it.
pub open spec fn last_before_tomorrow(
    requested_epoch: i64,
    today: SunMovementResult,
    yesterday: SunMovementResult,
) -> Option<PointOfTime> {
    if reads_yesterday(requested_epoch, today) {
        later_of(day_last(today, requested_epoch), day_last(yesterday, requested_epoch))
    } else {
        day_last(today, requested_epoch)
    }
}

/// True when the day after is read: neither today nor, where it is read,
/// yesterday has a transition after the instant.
pub open spec fn reads_tomorrow(
    requested_epoch: i64,
    today: SunMovementResult,
    yesterday: SunMovementResult,
) -> bool {
    next_before_tomorrow(requested_epoch, today, yesterday) is None
}

/// The last change: the latest transition at or before the instant among
/// the days read.
pub open spec fn last_change_of(
    requested_epoch: i64,
    today: SunMovementResult,
    yesterday: SunMovementResult,
    tomorrow: SunMovementResult,
) -> Option<PointOfTime> {
    let so_far = last_before_tomorrow(requested_epoch, today, yesterday);
    if reads_tomorrow(requested_epoch, today, yesterday) {
        later_of(so_far, day_last(tomorrow, requested_epoch))
    } else {
        so_far
    }
}

/// The next change: the earliest transition after the instant among the
/// days read.
pub open spec fn next_change_of(
    requested_epoch: i64,
    today: SunMovementResult,
    yesterday: SunMovementResult,
    tomorrow: SunMovementResult,
) -> Option<PointOfTime> {
    let so_far = next_before_tomorrow(requested_epoch, today, yesterday);
    if reads_tomorrow(requested_epoch, today, yesterday) {
        sooner_of(so_far, day_next(tomorrow, requested_epoch))
    } else {
        so_far
    }
}

/// The day type: today's, unless a neighbouring day was read and turned
/// out to be a full day or a full night. Tomorrow, when read, has the last
/// word.
pub open spec fn day_type_around(
    requested_epoch: i64,
    today: SunMovementResult,
    yesterday: SunMovementResult,
    tomorrow: SunMovementResult,
) -> DayType {
    let after_yesterday = if reads_yesterday(requested_epoch, today) {
        day_type_after(day_type_of(today), yesterday)
    } else {
        day_type_of(today)
    };
    if reads_tomorrow(requested_epoch, today, yesterday) {
        day_type_after(after_yesterday, tomorrow)
    } else {
        after_yesterday
    }
}

/// The timeline around `requested_epoch`, given the Sun's movement on the
/// day of the instant, the day before and the day after.
pub open spec fn timeline_of(
    requested_epoch: i64,
    today: SunMovementResult,
    yesterday: SunMovementResult,
    tomorrow: SunMovementResult,
) -> Timeline {
    Timeline {
        day_type: day_type_around(requested_epoch, today, yesterday, tomorrow),
        day_start_epoch: day_start_of(requested_epoch as int) as i64,
        last_sun_change: last_change_of(requested_epoch, today, yesterday, tomorrow),
        next_sun_change: next_change_of(requested_epoch, today, yesterday, tomorrow),
    }
}

/// True when the Sun rises before it sets on the day, if it does both.
pub open spec fn rises_first(day: SunMovementResult) -> bool {
    day matches SunMovementResult::NormalDayAndNight(n) ==> n.rises_first()
}

/// True when yesterday is sound as a day before: it has begun by the
/// instant, and it ends before the next change found so far.
pub open spec fn sound_before(
    yesterday: SunMovementResult,
    requested_epoch: i64,
    next_so_far: Option<PointOfTime>,
) -> bool {
    yesterday matches SunMovementResult::NormalDayAndNight(n) ==> {
        &&& n.rises_first()
        &&& n.sunrise_epoch <= requested_epoch
        &&& next_so_far matches Some(next) ==> n.sunset_epoch < next.epoch
    }
}

/// True when tomorrow is sound as a day after: it has not ended at the
/// instant, and it begins after the last change found so far.
pub open spec fn sound_after(
    tomorrow: SunMovementResult,
    requested_epoch: i64,
    last_so_far: Option<PointOfTime>,
) -> bool {
    tomorrow matches SunMovementResult::NormalDayAndNight(n) ==> {
        &&& n.rises_first()
        &&& requested_epoch < n.sunset_epoch
        &&& last_so_far matches Some(last) ==> last.epoch < n.sunrise_epoch
    }
}

/// True when the days that are read are sound: on each the Sun rises
/// before it sets; yesterday, if read, has begun by the instant and ends
/// before today begins; tomorrow, if read, has not ended at the instant and
/// begins after the days before it have ended.
pub open spec fn spec_days_valid(
    requested_epoch: i64,
    today: SunMovementResult,
    yesterday: SunMovementResult,
    tomorrow: SunMovementResult,
) -> bool {
    &&& rises_first(today)
    &&& reads_yesterday(requested_epoch, today) ==> sound_before(
        yesterday,
        requested_epoch,
        day_next(today, requested_epoch),
    )
    &&& reads_tomorrow(requested_epoch, today, yesterday) ==> sound_after(
        tomorrow,
        requested_epoch,
        last_before_tomorrow(requested_epoch, today, yesterday),
    )
}

/// The latest transition of a day at or before `instant`.
pub fn last_at_or_before(day: &NormalDayAndNight, instant: i64) -> (r: Option<PointOfTime>)
    ensures
        r == day.last_at_or_before(instant),
        r matches Some(p) ==> p.epoch <= instant && (p.epoch == day.sunrise_epoch || p.epoch
            == day.sunset_epoch),
        r is None <==> instant < day.sunrise_epoch && instant < day.sunset_epoch,
{
    let mut found: Option<PointOfTime> = None;
    if day.sunrise_epoch <= instant {
        found = Some(PointOfTime { time_type: TimeType::Sunrise, epoch: day.sunrise_epoch });
    }
    if day.sunset_epoch <= instant {
        let later = match found {
            Some(p) => p.epoch < day.sunset_epoch,
            None => true,
        };
        if later {
            found = Some(PointOfTime { time_type: TimeType::Sunset, epoch: day.sunset_epoch });
        }
    }
    found
}

/// The earliest transition of a day strictly after `instant`.
pub fn first_after(day: &NormalDayAndNight, instant: i64) -> (r: Option<PointOfTime>)
    ensures
        r == day.first_after(instant),
        r matches Some(p) ==> instant < p.epoch && (p.epoch == day.sunrise_epoch || p.epoch
            == day.sunset_epoch),
        r is None <==> day.sunrise_epoch <= instant && day.sunset_epoch <= instant,
{
    let mut found: Option<PointOfTime> = None;
    if instant < day.sunrise_epoch {
        found = Some(PointOfTime { time_type: TimeType::Sunrise, epoch: day.sunrise_epoch });
    }
    if instant < day.sunset_epoch {
        let sooner = match found {
            Some(p) => day.sunset_epoch < p.epoch,
            None => true,
        };
        if sooner {
            found = Some(PointOfTime { time_type: TimeType::Sunset, epoch: day.sunset_epoch });
        }
    }
    found
}

/// The later of two points that may be missing.
fn later(a: Option<PointOfTime>, b: Option<PointOfTime>) -> (r: Option<PointOfTime>)
    ensures
        r == later_of(a, b),
{
    match (a, b) {
        (Some(x), Some(y)) => if x.epoch < y.epoch {
            b
        } else {
            a
        },
        (None, _) => b,
        (_, None) => a,
    }
}

/// The sooner of two points that may be missing.
fn sooner(a: Option<PointOfTime>, b: Option<PointOfTime>) -> (r: Option<PointOfTime>)
    ensures
        r == sooner_of(a, b),
{
    match (a, b) {
        (Some(x), Some(y)) => if y.epoch < x.epoch {
            b
        } else {
            a
        },
        (None, _) => b,
        (_, None) => a,
    }
}

/// Which day the builder is waiting for.
#[derive(Clone, Copy, Debug, PartialEq, Eq, Structural)]
pub enum Stage {
    Today,
    Yesterday,
    Tomorrow,
    Finished,
}

/// Builds a timeline one day at a time.
///
/// The builder names the instant whose day it wants to know about
/// (`pending_lookup`), takes the Sun's movement on that day (`supply`), and
/// goes on until it is `Finished`. It asks about the day of the instant
/// first, then about the day before only if the last change is still
/// missing, then about the day after only if the next change is still
/// missing: three lookups at most, none further than one day away.
#[derive(Clone, Copy, Debug)]
pub struct TimelineBuilder {
    pub requested_epoch: i64,
    pub stage: Stage,
    pub timeline: Timeline,
}

impl TimelineBuilder {
    /// What holds of every builder that `new` and `supply` produce: the
    /// changes found so far bracket the instant and alternate, and each
    /// stage has the side open that it is about to fill.
    pub open spec fn wf(self) -> bool {
        &&& spec_is_calendar_instant(self.requested_epoch)
        &&& self.timeline.day_start_epoch == day_start_of(self.requested_epoch as int)
        &&& self.timeline.brackets(self.requested_epoch)
        &&& self.timeline.alternates()
        &&& self.timeline.day_type != DayType::NormalNight
        &&& (self.stage == Stage::Today ==> self.timeline.last_sun_change is None
            && self.timeline.next_sun_change is None)
        &&& (self.stage == Stage::Yesterday ==> {
            &&& self.timeline.last_sun_change is None
            &&& self.timeline.next_sun_change matches Some(next) ==> next.time_type
                == TimeType::Sunrise
        })
        &&& (self.stage == Stage::Tomorrow ==> {
            &&& self.timeline.next_sun_change is None
            &&& self.timeline.last_sun_change matches Some(last) ==> last.time_type
                == TimeType::Sunset
            &&& self.timeline.last_sun_change is None ==> self.timeline.day_type.is_full()
        })
        &&& (self.stage == Stage::Finished ==> self.timeline.open_only_when_full())
    }

    /// The builder before any lookup.
    pub open spec fn spec_new(requested_epoch: i64) -> TimelineBuilder {
        TimelineBuilder {
            requested_epoch,
            stage: Stage::Today,
            timeline: Timeline {
                day_type: DayType::NormalDay,
                day_start_epoch: day_start_of(requested_epoch as int) as i64,
                last_sun_change: None,
                next_sun_change: None,
            },
        }
    }

    /// The most lookups the builder can still make.
    pub open spec fn lookups_left(self) -> nat {
        match self.stage {
            Stage::Today => 3,
            Stage::Yesterday => 2,
            Stage::Tomorrow => 1,
            Stage::Finished => 0,
        }
    }

    /// How many days from the instant the pending lookup lies.
    pub open spec fn pending_day_offset(self) -> int {
        match self.stage {
            Stage::Yesterday => -1,
            Stage::Tomorrow => 1,
            _ => 0,
        }
    }

    /// The instant whose day the builder wants next, if it wants any.
    pub open spec fn spec_pending_lookup(self) -> Option<i64> {
        match self.stage {
            Stage::Finished => None,
            _ => Some((self.requested_epoch + self.pending_day_offset() * 86_400_000) as i64),
        }
    }

    /// True when `day` is sound as an answer to the pending lookup.
    pub open spec fn spec_accepts(self, day: SunMovementResult) -> bool {
        match self.stage {
            Stage::Today => rises_first(day),
            Stage::Yesterday => sound_before(
                day,
                self.requested_epoch,
                self.timeline.next_sun_change,
            ),
            Stage::Tomorrow => sound_after(
                day,
                self.requested_epoch,
                self.timeline.last_sun_change,
            ),
            Stage::Finished => true,
        }
    }

    /// The stage that follows once the changes stand as in `timeline`.
    pub open spec fn stage_after(stage: Stage, timeline: Timeline) -> Stage {
        if stage == Stage::Today && timeline.last_sun_change is None {
            Stage::Yesterday
        } else if stage != Stage::Tomorrow && timeline.next_sun_change is None {
            Stage::Tomorrow
        } else {
            Stage::Finished
        }
    }

    /// The builder after it has been told the Sun's movement on the day it
    /// asked for: the day's transitions join those found so far, and the
    /// nearest on each side of the instant stay.
    pub open spec fn spec_supply(self, day: SunMovementResult) -> TimelineBuilder {
        if self.stage == Stage::Finished {
            self
        } else {
            let timeline = Timeline {
                day_type: if self.stage == Stage::Today {
                    day_type_of(day)
                } else {
                    day_type_after(self.timeline.day_type, day)
                },
                day_start_epoch: self.timeline.day_start_epoch,
                last_sun_change: later_of(
                    self.timeline.last_sun_change,
                    day_last(day, self.requested_epoch),
                ),
                next_sun_change: sooner_of(
                    self.timeline.next_sun_change,
                    day_next(day, self.requested_epoch),
                ),
            };
            TimelineBuilder {
                requested_epoch: self.requested_epoch,
                stage: Self::stage_after(self.stage, timeline),
                timeline,
            }
        }
    }

    /// Starts a timeline around `requested_epoch`.
    pub fn new(requested_epoch: i64) -> (b: TimelineBuilder)
        requires
            spec_is_calendar_instant(requested_epoch),
        ensures
            b == Self::spec_new(requested_epoch),
            b.wf(),
    {
        TimelineBuilder {
            requested_epoch,
            stage: Stage::Today,
            timeline: Timeline {
                day_type: DayType::NormalDay,
                day_start_epoch: get_day_start(requested_epoch),
                last_sun_change: None,
                next_sun_change: None,
            },
        }
    }

    /// Whether nothing more is wanted.
    pub fn is_finished(&self) -> (r: bool)
        ensures
            r == (self.stage == Stage::Finished),
            r == (self.lookups_left() == 0),
    {
        match self.stage {
            Stage::Finished => true,
            _ => false,
        }
    }

    /// The instant whose day the builder wants to know about next: the
    /// requested instant itself, or the same time one day earlier or later.
    /// `None` once the timeline is finished.
    pub fn pending_lookup(&self) -> (r: Option<i64>)
        requires
            self.wf(),
        ensures
            r == self.spec_pending_lookup(),
            r is None <==> self.stage == Stage::Finished,
            r matches Some(e) ==> e - self.requested_epoch == self.pending_day_offset()
                * 86_400_000,
    {
        match self.stage {
            Stage::Today => Some(self.requested_epoch),
            Stage::Yesterday => Some(self.requested_epoch - DAY_MILLISECONDS),
            Stage::Tomorrow => Some(self.requested_epoch + DAY_MILLISECONDS),
            Stage::Finished => None,
        }
    }

    /// Whether `day` is sound as an answer to the pending lookup: the Sun
    /// rises before it sets; a day before has begun by the instant and
    /// ends before the next change found so far; a day after has not ended
    /// at the instant and begins after the last change found so far. Full
    /// days and full nights are always sound.
    pub fn accepts(&self, day: &SunMovementResult) -> (r: bool)
        ensures
            r == self.spec_accepts(*day),
    {
        match day {
            SunMovementResult::NormalDayAndNight(n) => {
                match self.stage {
                    Stage::Today => n.sunrise_epoch < n.sunset_epoch,
                    Stage::Yesterday => {
                        n.sunrise_epoch < n.sunset_epoch && n.sunrise_epoch
                            <= self.requested_epoch && match self.timeline.next_sun_change {
                            Some(next) => n.sunset_epoch < next.epoch,
                            None => true,
                        }
                    },
                    Stage::Tomorrow => {
                        n.sunrise_epoch < n.sunset_epoch && self.requested_epoch < n.sunset_epoch
                            && match self.timeline.last_sun_change {
                            Some(last) => last.epoch < n.sunrise_epoch,
                            None => true,
                        }
                    },
                    Stage::Finished => true,
                }
            },
            _ => true,
        }
    }

    /// Takes the Sun's movement on the day that `pending_lookup` named. A
    /// finished builder takes nothing more and stays as it is.
    pub fn supply(&mut self, day: SunMovementResult)
        requires
            old(self).wf(),
            old(self).spec_accepts(day),
        ensures
            *final(self) == old(self).spec_supply(day),
            final(self).wf(),
            final(self).lookups_left() <= old(self).lookups_left(),
            old(self).stage != Stage::Finished ==> final(self).lookups_left() < old(
                self,
            ).lookups_left(),
    {
        let from_today = match self.stage {
            Stage::Today => true,
            _ => false,
        };
        let last_stage = match self.stage {
            Stage::Tomorrow => true,
            _ => false,
        };
        match self.stage {
            Stage::Finished => {},
            _ => {
                match day {
                    SunMovementResult::NormalDayAndNight(n) => {
                        self.timeline.last_sun_change = later(
                            self.timeline.last_sun_change,
                            last_at_or_before(&n, self.requested_epoch),
                        );
                        self.timeline.next_sun_change = sooner(
                            self.timeline.next_sun_change,
                            first_after(&n, self.requested_epoch),
                        );
                        if from_today {
                            self.timeline.day_type = DayType::NormalDay;
                        }
                    },
                    SunMovementResult::FullDay => {
                        self.timeline.day_type = DayType::FullDay;
                    },
                    SunMovementResult::FullNight => {
                        self.timeline.day_type = DayType::FullNight;
                    },
                }
                if from_today && self.timeline.last_sun_change.is_none() {
                    self.stage = Stage::Yesterday;
                } else if !last_stage && self.timeline.next_sun_change.is_none() {
                    self.stage = Stage::Tomorrow;
                } else {
                    self.stage = Stage::Finished;
                }
            },
        }
    }

    /// The finished timeline: its changes bracket the instant and are of
    /// opposite kinds, and one is missing only on a full day or night.
    pub fn finish(self) -> (t: Timeline)
        requires
            self.wf(),
            self.stage == Stage::Finished,
        ensures
            t == self.timeline,
            t.brackets(self.requested_epoch),
            t.alternates(),
            t.open_only_when_full(),
    {
        self.timeline
    }
}

/// Whether the days that `build_timeline` would read are sound.
#[verifier::when_used_as_spec(spec_days_valid)]
pub fn days_valid(
    requested_epoch: i64,
    today: SunMovementResult,
    yesterday: SunMovementResult,
    tomorrow: SunMovementResult,
) -> (r: bool)
    requires
        spec_is_calendar_instant(requested_epoch),
    ensures
        r == spec_days_valid(requested_epoch, today, yesterday, tomorrow),
{
    let mut builder = TimelineBuilder::new(requested_epoch);
    if !builder.accepts(&today) {
        return false;
    }
    builder.supply(today);
    if builder.stage == Stage::Yesterday {
        if !builder.accepts(&yesterday) {
            return false;
        }
        builder.supply(yesterday);
    }
    if builder.stage == Stage::Tomorrow {
        if !builder.accepts(&tomorrow) {
            return false;
        }
    }
    true
}

/// Stitches the timeline around `requested_epoch` from the Sun's movement
/// on the day of the instant, the day before and the day after. A
/// neighbouring day is read only where the days before it leave that side
/// open. The last change lies at or before the instant and the next after
/// it, they are of opposite kinds, and one is missing only on a full day
/// or a full night.
pub fn build_timeline(
    requested_epoch: i64,
    today: SunMovementResult,
    yesterday: SunMovementResult,
    tomorrow: SunMovementResult,
) -> (t: Timeline)
    requires
        spec_is_calendar_instant(requested_epoch),
        spec_days_valid(requested_epoch, today, yesterday, tomorrow),
    ensures
        t == timeline_of(requested_epoch, today, yesterday, tomorrow),
        t.last_sun_change matches Some(l) ==> l.epoch <= requested_epoch,
        t.next_sun_change matches Some(n) ==> requested_epoch < n.epoch,
        t.alternates(),
        t.open_only_when_full(),
        t.day_start_epoch == day_start_of(requested_epoch as int),
{
    let mut builder = TimelineBuilder::new(requested_epoch);
    builder.supply(today);
    if builder.stage == Stage::Yesterday {
        builder.supply(yesterday);
    }
    if builder.stage == Stage::Tomorrow {
        builder.supply(tomorrow);
    }
    builder.finish()
}

/// The builder after `sun` has answered every lookup it makes.
pub open spec fn run(builder: TimelineBuilder, sun: spec_fn(i64) -> SunMovementResult)
    -> TimelineBuilder
    decreases builder.lookups_left(),
{
    match builder.spec_pending_lookup() {
        None => builder,
        Some(instant) => run(builder.spec_supply(sun(instant)), sun),
    }
}

/// The instants that the builder looks up, in order, when `sun` answers.
pub open spec fn lookups(builder: TimelineBuilder, sun: spec_fn(i64) -> SunMovementResult) -> Seq<
    i64,
>
    decreases builder.lookups_left(),
{
    match builder.spec_pending_lookup() {
        None => Seq::empty(),
        Some(instant) => seq![instant] + lookups(builder.spec_supply(sun(instant)), sun),
    }
}

/// The builder never looks further than one day from the instant, and
/// never at the same day twice: whatever the Sun does, it looks up the
/// instant itself first, then at most the same time one day earlier, then
/// at most the same time one day later, and is finished after that.
pub proof fn lemma_lookups_stay_within_one_day(
    requested_epoch: i64,
    sun: spec_fn(i64) -> SunMovementResult,
)
    requires
        spec_is_calendar_instant(requested_epoch),
    ensures
        run(TimelineBuilder::spec_new(requested_epoch), sun).stage == Stage::Finished,
        ({
            let asked = lookups(TimelineBuilder::spec_new(requested_epoch), sun);
            &&& 1 <= asked.len() <= 3
            &&& asked[0] == requested_epoch
            &&& forall|i: int|
                0 <= i < asked.len() ==> {
                    let d = #[trigger] asked[i] - requested_epoch;
                    d == -86_400_000 || d == 0 || d == 86_400_000
                }
            &&& forall|i: int, j: int|
                0 <= i < j < asked.len() ==> #[trigger] asked[i] != #[trigger] asked[j]
        }),
{
    reveal_with_fuel(run, 4);
    reveal_with_fuel(lookups, 4);
}

/// Asking day by day gives the timeline that the three days determine:
/// when `sun` answers every lookup, the builder ends with the timeline of
/// the Sun's movement at the instant, one day earlier and one day later.
pub proof fn lemma_run_builds_timeline(
    requested_epoch: i64,
    sun: spec_fn(i64) -> SunMovementResult,
)
    requires
        spec_is_calendar_instant(requested_epoch),
    ensures
        run(TimelineBuilder::spec_new(requested_epoch), sun).timeline == timeline_of(
            requested_epoch,
            sun(requested_epoch),
            sun((requested_epoch - 86_400_000) as i64),
            sun((requested_epoch + 86_400_000) as i64),
        ),
{
    reveal_with_fuel(run, 4);
}

/// True when `p` is a transition of `day`.
pub open spec fn is_transition_of(p: PointOfTime, day: SunMovementResult) -> bool {
    day matches SunMovementResult::NormalDayAndNight(n) && (p == PointOfTime {
        time_type: TimeType::Sunrise,
        epoch: n.sunrise_epoch,
    } || p == PointOfTime { time_type: TimeType::Sunset, epoch: n.sunset_epoch })
}

/// True when `p` is a transition of one of the days that are read.
pub open spec fn is_read_transition(
    p: PointOfTime,
    requested_epoch: i64,
    today: SunMovementResult,
    yesterday: SunMovementResult,
    tomorrow: SunMovementResult,
) -> bool {
    ||| is_transition_of(p, today)
    ||| reads_yesterday(requested_epoch, today) && is_transition_of(p, yesterday)
    ||| reads_tomorrow(requested_epoch, today, yesterday) && is_transition_of(p, tomorrow)
}

/// The changes are the nearest transitions: each change is a transition
/// of a day that was read, every such transition at or before the instant
/// lies at or before the last change, and every one after the instant
/// lies at or after the next change. This holds of any three days, sound
/// or not.
pub proof fn lemma_changes_are_nearest(
    p: PointOfTime,
    requested_epoch: i64,
    today: SunMovementResult,
    yesterday: SunMovementResult,
    tomorrow: SunMovementResult,
)
    ensures
        ({
            let t = timeline_of(requested_epoch, today, yesterday, tomorrow);
            &&& t.brackets(requested_epoch)
            &&& t.last_sun_change matches Some(last) ==> is_read_transition(
                last,
                requested_epoch,
                today,
                yesterday,
                tomorrow,
            )
            &&& t.next_sun_change matches Some(next) ==> is_read_transition(
                next,
                requested_epoch,
                today,
                yesterday,
                tomorrow,
            )
            &&& is_read_transition(p, requested_epoch, today, yesterday, tomorrow) && p.epoch
                <= requested_epoch ==> t.last_sun_change is Some && p.epoch
                <= t.last_sun_change->0.epoch
            &&& is_read_transition(p, requested_epoch, today, yesterday, tomorrow)
                && requested_epoch < p.epoch ==> t.next_sun_change is Some
                && t.next_sun_change->0.epoch <= p.epoch
        }),
{
}

/// Of sound days the timeline is sound: its changes bracket the instant,
/// day and night alternate, a change is missing only on a full day or a
/// full night, and no timeline comes out as a normal night (that is told
/// only once the last change is read).
pub proof fn lemma_timeline_is_sound(
    requested_epoch: i64,
    today: SunMovementResult,
    yesterday: SunMovementResult,
    tomorrow: SunMovementResult,
)
    requires
        spec_days_valid(requested_epoch, today, yesterday, tomorrow),
    ensures
        ({
            let t = timeline_of(requested_epoch, today, yesterday, tomorrow);
            &&& t.brackets(requested_epoch)
            &&& t.alternates()
            &&& t.open_only_when_full()
            &&& t.day_type != DayType::NormalNight
        }),
{
}

} // verus!
