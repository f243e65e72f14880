//! Value types shared by the timeline and the clock.

use vstd::prelude::*;

use crate::point_of_time::PointOfTime;

verus! {

/// Which way the Sun crosses the horizon.
#[derive(Clone, Copy, Debug, PartialEq, Eq, Structural)]
pub enum TimeType {
    Sunrise,
    Sunset,
}

/// The two transitions of a day on which the Sun both rises and sets, as
/// millisecond epochs.
#[derive(Clone, Copy, Debug, PartialEq, Eq, Structural)]
pub struct NormalDayAndNight {
    pub sunrise_epoch: i64,
    pub sunset_epoch: i64,
}

impl NormalDayAndNight {
    /// True when the Sun rises before it sets, as it does on every day of
    /// a sound solver.
    pub open spec fn rises_first(self) -> bool {
        self.sunrise_epoch < self.sunset_epoch
    }

    /// The latest transition at or before `instant`, if the day has one.
    /// When both transitions fall on the same millisecond the sunrise is
    /// reported.
    pub open spec fn last_at_or_before(self, instant: i64) -> Option<PointOfTime> {
        let rise = self.sunrise_epoch <= instant;
        let set = self.sunset_epoch <= instant;
        if set && (!rise || self.sunrise_epoch < self.sunset_epoch) {
            Some(PointOfTime { time_type: TimeType::Sunset, epoch: self.sunset_epoch })
        } else if rise {
            Some(PointOfTime { time_type: TimeType::Sunrise, epoch: self.sunrise_epoch })
        } else {
            None
        }
    }

    /// The earliest transition strictly after `instant`, if the day has one.
    /// When both transitions fall on the same millisecond the sunrise is
    /// reported.
    pub open spec fn first_after(self, instant: i64) -> Option<PointOfTime> {
        let rise = instant < self.sunrise_epoch;
        let set = instant < self.sunset_epoch;
        if set && (!rise || self.sunset_epoch < self.sunrise_epoch) {
            Some(PointOfTime { time_type: TimeType::Sunset, epoch: self.sunset_epoch })
        } else if rise {
            Some(PointOfTime { time_type: TimeType::Sunrise, epoch: self.sunrise_epoch })
        } else {
            None
        }
    }
}

/// What the Sun does over one day at one place.
#[derive(Clone, Copy, Debug, PartialEq, Eq, Structural)]
pub enum SunMovementResult {
    NormalDayAndNight(NormalDayAndNight),
    FullDay,
    FullNight,
}

/// What any body does over one day at one place: it rises and sets, or it
/// stays above the horizon, or it stays below.
#[derive(Clone, Copy, Debug, PartialEq, Eq, Structural)]
pub enum RiseSetInfo {
    NormalDayAndNight(NormalDayAndNight),
    CircumpolarDay,
    CircumpolarNight,
}

impl RiseSetInfo {
    /// The same day read as a day of the Sun: a body that never sets gives a
    /// full day, one that never rises a full night.
    pub open spec fn spec_sun_movement(self) -> SunMovementResult {
        match self {
            RiseSetInfo::NormalDayAndNight(n) => SunMovementResult::NormalDayAndNight(n),
            RiseSetInfo::CircumpolarDay => SunMovementResult::FullDay,
            RiseSetInfo::CircumpolarNight => SunMovementResult::FullNight,
        }
    }

    /// Classifies the day as full day, full night or normal.
    #[verifier::when_used_as_spec(spec_sun_movement)]
    pub fn sun_movement(self) -> (r: SunMovementResult)
        ensures
            r == self.spec_sun_movement(),
    {
        match self {
            RiseSetInfo::NormalDayAndNight(n) => SunMovementResult::NormalDayAndNight(n),
            RiseSetInfo::CircumpolarDay => SunMovementResult::FullDay,
            RiseSetInfo::CircumpolarNight => SunMovementResult::FullNight,
        }
    }
}

/// How the interval around an instant is lit.
#[derive(Clone, Copy, Debug, PartialEq, Eq, Structural)]
pub enum DayType {
    FullDay,
    FullNight,
    NormalDay,
    NormalNight,
}

impl DayType {
    /// True of the two degenerate kinds, on which the Sun crosses no horizon.
    pub open spec fn is_full(self) -> bool {
        self == DayType::FullDay || self == DayType::FullNight
    }
}

impl Default for DayType {
    fn default() -> (r: DayType)
        ensures
            r == DayType::NormalDay,
    {
        DayType::NormalDay
    }
}

/// The solar transitions nearest to an instant.
#[derive(Clone, Copy, Debug)]
pub struct Timeline {
    pub day_type: DayType,
    pub day_start_epoch: i64,
    pub last_sun_change: Option<PointOfTime>,
    pub next_sun_change: Option<PointOfTime>,
}

impl Timeline {
    /// True when the changes that are known bracket `instant`: the last
    /// lies at or before it, the next after it.
    pub open spec fn brackets(self, instant: i64) -> bool {
        &&& self.last_sun_change matches Some(last) ==> last.epoch <= instant
        &&& self.next_sun_change matches Some(next) ==> instant < next.epoch
    }

    /// True when the two changes, if both are known, are of opposite
    /// kinds: day and night alternate.
    pub open spec fn alternates(self) -> bool {
        self.last_sun_change is Some && self.next_sun_change is Some
            ==> self.last_sun_change->0.time_type != self.next_sun_change->0.time_type
    }

    /// True when a change is missing only on a full day or a full night.
    pub open spec fn open_only_when_full(self) -> bool {
        self.last_sun_change is None || self.next_sun_change is None ==> self.day_type.is_full()
    }
}

/// The Roman time of day: 24 hours, 12 from sunrise to sunset and 12 from
/// sunset to sunrise, each of 60 minutes whose length varies with the
/// season.
#[derive(Clone, Copy, Debug, PartialEq, Eq)]
pub struct RomanTimeDetails {
    pub hours: i32,
    pub minutes: i32,
    pub last_sun_change: Option<i64>,
    pub next_sun_change: Option<i64>,
    /// Length of one Roman minute, in milliseconds.
    pub minute_length_ms: i64,
    pub day_type: DayType,
}

} // verus!
