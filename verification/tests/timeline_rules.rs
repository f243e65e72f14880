use roman_sunclock::point_of_time::PointOfTime;
use roman_sunclock::time_calculators::DAY_MILLISECONDS;
use roman_sunclock::timeline::build_timeline;
use roman_sunclock::timeline::days_valid;
use roman_sunclock::timeline::first_after;
use roman_sunclock::timeline::last_at_or_before;
use roman_sunclock::timeline::Stage;
use roman_sunclock::timeline::TimelineBuilder;
use roman_sunclock::types::DayType;
use roman_sunclock::types::NormalDayAndNight;
use roman_sunclock::types::SunMovementResult;
use roman_sunclock::types::TimeType;

const DAY_START: i64 = 1654819200000; // Fri, 10 Jun 2022 00:00:00 GMT
const SUNRISE: i64 = 1654837126628;
const SUNSET: i64 = 1654889753237;

fn normal(sunrise_epoch: i64, sunset_epoch: i64) -> SunMovementResult {
    SunMovementResult::NormalDayAndNight(NormalDayAndNight { sunrise_epoch, sunset_epoch })
}

fn today() -> SunMovementResult {
    normal(SUNRISE, SUNSET)
}

fn yesterday() -> SunMovementResult {
    normal(1654750733589, 1654803323788)
}

fn tomorrow() -> SunMovementResult {
    normal(1654923521349, 1654976181371)
}

fn kind_and_epoch(p: Option<PointOfTime>) -> Option<(TimeType, i64)> {
    p.map(|p| (p.time_type, p.epoch))
}

#[test]
fn nearest_transitions_of_one_day() {
    let day = NormalDayAndNight { sunrise_epoch: 100, sunset_epoch: 200 };
    assert_eq!(kind_and_epoch(last_at_or_before(&day, 99)), None);
    assert_eq!(kind_and_epoch(last_at_or_before(&day, 100)), Some((TimeType::Sunrise, 100)));
    assert_eq!(kind_and_epoch(last_at_or_before(&day, 199)), Some((TimeType::Sunrise, 100)));
    assert_eq!(kind_and_epoch(last_at_or_before(&day, 200)), Some((TimeType::Sunset, 200)));
    assert_eq!(kind_and_epoch(first_after(&day, 99)), Some((TimeType::Sunrise, 100)));
    assert_eq!(kind_and_epoch(first_after(&day, 100)), Some((TimeType::Sunset, 200)));
    assert_eq!(kind_and_epoch(first_after(&day, 199)), Some((TimeType::Sunset, 200)));
    assert_eq!(kind_and_epoch(first_after(&day, 200)), None);
}

#[test]
fn nearest_transitions_when_sunset_comes_first() {
    let day = NormalDayAndNight { sunrise_epoch: 200, sunset_epoch: 100 };
    assert_eq!(kind_and_epoch(last_at_or_before(&day, 150)), Some((TimeType::Sunset, 100)));
    assert_eq!(kind_and_epoch(last_at_or_before(&day, 250)), Some((TimeType::Sunrise, 200)));
    assert_eq!(kind_and_epoch(first_after(&day, 150)), Some((TimeType::Sunrise, 200)));
    assert_eq!(kind_and_epoch(first_after(&day, 50)), Some((TimeType::Sunset, 100)));
}

#[test]
fn coinciding_transitions_are_told_as_sunrise() {
    let day = NormalDayAndNight { sunrise_epoch: 100, sunset_epoch: 100 };
    assert_eq!(kind_and_epoch(last_at_or_before(&day, 100)), Some((TimeType::Sunrise, 100)));
    assert_eq!(kind_and_epoch(first_after(&day, 99)), Some((TimeType::Sunrise, 100)));
}

#[test]
fn transitions_at_the_ends_of_the_range_count() {
    let day = NormalDayAndNight { sunrise_epoch: i64::MIN, sunset_epoch: i64::MAX };
    assert_eq!(kind_and_epoch(last_at_or_before(&day, 0)), Some((TimeType::Sunrise, i64::MIN)));
    assert_eq!(kind_and_epoch(first_after(&day, 0)), Some((TimeType::Sunset, i64::MAX)));
    assert_eq!(
        kind_and_epoch(last_at_or_before(&day, i64::MIN)),
        Some((TimeType::Sunrise, i64::MIN))
    );
    assert_eq!(kind_and_epoch(first_after(&day, i64::MAX)), None);
}

#[test]
fn midday_needs_no_other_day() {
    let requested = 1654848000000; // 08:00
    // Neighbouring days are not read: whatever stands there is sound.
    assert!(days_valid(requested, today(), SunMovementResult::FullNight, normal(9, 0)));
    let t = build_timeline(requested, today(), SunMovementResult::FullNight, normal(9, 0));
    assert_eq!(t.day_type, DayType::NormalDay);
    assert_eq!(t.day_start_epoch, DAY_START);
    assert_eq!(kind_and_epoch(t.last_sun_change), Some((TimeType::Sunrise, SUNRISE)));
    assert_eq!(kind_and_epoch(t.next_sun_change), Some((TimeType::Sunset, SUNSET)));
}

#[test]
fn before_sunrise_reads_yesterday_only() {
    let requested = DAY_START;
    assert!(days_valid(requested, today(), yesterday(), normal(9, 0)));
    let t = build_timeline(requested, today(), yesterday(), normal(9, 0));
    assert_eq!(t.day_type, DayType::NormalDay);
    assert_eq!(kind_and_epoch(t.last_sun_change), Some((TimeType::Sunset, 1654803323788)));
    assert_eq!(kind_and_epoch(t.next_sun_change), Some((TimeType::Sunrise, SUNRISE)));
}

#[test]
fn after_sunset_reads_tomorrow_only() {
    let requested = SUNSET + 1;
    assert!(days_valid(requested, today(), normal(9, 0), tomorrow()));
    let t = build_timeline(requested, today(), normal(9, 0), tomorrow());
    assert_eq!(t.day_type, DayType::NormalDay);
    assert_eq!(kind_and_epoch(t.last_sun_change), Some((TimeType::Sunset, SUNSET)));
    assert_eq!(kind_and_epoch(t.next_sun_change), Some((TimeType::Sunrise, 1654923521349)));
}

#[test]
fn full_day_between_normal_days_borrows_both_changes() {
    let requested = 1654848000000;
    assert!(days_valid(requested, SunMovementResult::FullDay, yesterday(), tomorrow()));
    let t = build_timeline(requested, SunMovementResult::FullDay, yesterday(), tomorrow());
    assert_eq!(t.day_type, DayType::FullDay);
    assert_eq!(kind_and_epoch(t.last_sun_change), Some((TimeType::Sunset, 1654803323788)));
    assert_eq!(kind_and_epoch(t.next_sun_change), Some((TimeType::Sunrise, 1654923521349)));
}

#[test]
fn neighbouring_full_days_set_the_day_type_and_tomorrow_has_the_last_word() {
    let requested = 1654848000000;
    let t = build_timeline(
        requested,
        SunMovementResult::FullDay,
        SunMovementResult::FullNight,
        tomorrow(),
    );
    assert_eq!(t.day_type, DayType::FullNight);
    assert!(t.last_sun_change.is_none());
    assert!(t.next_sun_change.is_some());

    let t = build_timeline(
        requested,
        SunMovementResult::FullNight,
        SunMovementResult::FullNight,
        SunMovementResult::FullDay,
    );
    assert_eq!(t.day_type, DayType::FullDay);
    assert!(t.last_sun_change.is_none());
    assert!(t.next_sun_change.is_none());

    // A normal day whose evening runs into a polar night.
    let t = build_timeline(SUNSET + 1, today(), yesterday(), SunMovementResult::FullNight);
    assert_eq!(t.day_type, DayType::FullNight);
    assert_eq!(kind_and_epoch(t.last_sun_change), Some((TimeType::Sunset, SUNSET)));
    assert!(t.next_sun_change.is_none());
}

#[test]
fn an_instant_on_a_transition_has_it_as_last_change() {
    assert!(days_valid(SUNRISE, today(), yesterday(), tomorrow()));
    let t = build_timeline(SUNRISE, today(), yesterday(), tomorrow());
    assert_eq!(kind_and_epoch(t.last_sun_change), Some((TimeType::Sunrise, SUNRISE)));
    assert_eq!(kind_and_epoch(t.next_sun_change), Some((TimeType::Sunset, SUNSET)));

    assert!(days_valid(SUNSET, today(), yesterday(), tomorrow()));
    let t = build_timeline(SUNSET, today(), yesterday(), tomorrow());
    assert_eq!(kind_and_epoch(t.last_sun_change), Some((TimeType::Sunset, SUNSET)));
    assert_eq!(kind_and_epoch(t.next_sun_change), Some((TimeType::Sunrise, 1654923521349)));

    // One millisecond earlier the sunrise is still to come.
    let t = build_timeline(SUNRISE - 1, today(), yesterday(), tomorrow());
    assert_eq!(kind_and_epoch(t.last_sun_change), Some((TimeType::Sunset, 1654803323788)));
    assert_eq!(kind_and_epoch(t.next_sun_change), Some((TimeType::Sunrise, SUNRISE)));
}

#[test]
fn a_day_before_that_holds_the_instant_gives_both_changes() {
    // Latitude 36, longitude -180, Fri, 10 Jun 2022 03:00:00 GMT: the day
    // attributed to the instant is still to come, and the day before runs
    // from before the instant to after it.
    let requested = 1654830000000;
    let today = normal(1654879373464, 1654931779633);
    let yesterday = normal(1654792979116, 1654845351309);
    assert!(days_valid(requested, today, yesterday, SunMovementResult::FullNight));
    let t = build_timeline(requested, today, yesterday, SunMovementResult::FullNight);
    assert_eq!(kind_and_epoch(t.last_sun_change), Some((TimeType::Sunrise, 1654792979116)));
    assert_eq!(kind_and_epoch(t.next_sun_change), Some((TimeType::Sunset, 1654845351309)));
    assert_eq!(t.day_type, DayType::NormalDay);
}

#[test]
fn a_day_after_that_holds_the_instant_gives_both_changes() {
    // Latitude 36, longitude 180, Fri, 10 Jun 2022 17:00:00 GMT: the day
    // attributed to the instant is over, and the day after has begun.
    let requested = 1654880400000;
    let today = normal(1654792979116, 1654845351309);
    let tomorrow = normal(1654879373464, 1654931779633);
    assert!(days_valid(requested, today, SunMovementResult::FullNight, tomorrow));
    let t = build_timeline(requested, today, SunMovementResult::FullNight, tomorrow);
    assert_eq!(kind_and_epoch(t.last_sun_change), Some((TimeType::Sunrise, 1654879373464)));
    assert_eq!(kind_and_epoch(t.next_sun_change), Some((TimeType::Sunset, 1654931779633)));
    assert_eq!(t.day_type, DayType::NormalDay);
}

#[test]
fn unsound_days_are_told_apart() {
    let requested = DAY_START;
    // Sunset before sunrise.
    assert!(!days_valid(requested, normal(SUNSET, SUNRISE), yesterday(), tomorrow()));
    assert!(!days_valid(requested, normal(SUNRISE, SUNRISE), yesterday(), tomorrow()));
    // A day before that has not begun by the instant.
    assert!(!days_valid(requested, today(), normal(DAY_START + 5, DAY_START + 9), tomorrow()));
    // A day before that runs into today.
    assert!(!days_valid(requested, today(), normal(DAY_START - 5, SUNRISE), tomorrow()));
    assert!(days_valid(requested, today(), normal(DAY_START - 5, SUNRISE - 1), tomorrow()));
    // A day before with the sunset first.
    assert!(!days_valid(requested, today(), normal(DAY_START - 5, DAY_START - 9), tomorrow()));
    // A day after that has ended by the instant.
    let evening = SUNSET + 1;
    assert!(!days_valid(evening, today(), yesterday(), normal(SUNSET - 9, SUNSET)));
    assert!(!days_valid(evening, today(), yesterday(), normal(SUNSET - 9, evening)));
    // A day after that begins before today has ended.
    assert!(!days_valid(evening, today(), yesterday(), normal(SUNSET, evening + 9)));
    assert!(days_valid(evening, today(), yesterday(), normal(SUNSET + 1, evening + 9)));
    // Full days and nights are always sound.
    assert!(days_valid(
        evening,
        SunMovementResult::FullDay,
        SunMovementResult::FullNight,
        SunMovementResult::FullDay
    ));
}

#[test]
fn builder_asks_for_today_first() {
    let requested = 1654848000000;
    let builder = TimelineBuilder::new(requested);
    assert_eq!(builder.stage, Stage::Today);
    assert!(!builder.is_finished());
    assert_eq!(builder.pending_lookup(), Some(requested));
    assert_eq!(builder.timeline.day_start_epoch, DAY_START);
    assert!(builder.accepts(&today()));
    assert!(!builder.accepts(&normal(SUNSET, SUNRISE)));
}

#[test]
fn builder_finishes_after_today_at_midday() {
    let requested = 1654848000000;
    let mut builder = TimelineBuilder::new(requested);
    builder.supply(today());
    assert_eq!(builder.stage, Stage::Finished);
    assert!(builder.is_finished());
    assert_eq!(builder.pending_lookup(), None);
    let t = builder.finish();
    assert_eq!(kind_and_epoch(t.last_sun_change), Some((TimeType::Sunrise, SUNRISE)));
    assert_eq!(kind_and_epoch(t.next_sun_change), Some((TimeType::Sunset, SUNSET)));
}

#[test]
fn builder_asks_for_yesterday_then_tomorrow_on_a_full_day() {
    let requested = 1654848000000;
    let mut builder = TimelineBuilder::new(requested);
    builder.supply(SunMovementResult::FullDay);
    assert_eq!(builder.stage, Stage::Yesterday);
    assert_eq!(builder.pending_lookup(), Some(requested - DAY_MILLISECONDS));
    assert!(builder.accepts(&yesterday()));
    assert!(!builder.accepts(&tomorrow()));
    builder.supply(yesterday());
    assert_eq!(builder.stage, Stage::Tomorrow);
    assert_eq!(builder.pending_lookup(), Some(requested + DAY_MILLISECONDS));
    assert!(builder.accepts(&tomorrow()));
    assert!(!builder.accepts(&yesterday()));
    builder.supply(SunMovementResult::FullDay);
    assert_eq!(builder.stage, Stage::Finished);
    assert_eq!(builder.pending_lookup(), None);
    let t = builder.finish();
    assert_eq!(t.day_type, DayType::FullDay);
    assert_eq!(kind_and_epoch(t.last_sun_change), Some((TimeType::Sunset, 1654803323788)));
    assert!(t.next_sun_change.is_none());
}

#[test]
fn builder_skips_yesterday_in_the_evening() {
    let requested = SUNSET + 1;
    let mut builder = TimelineBuilder::new(requested);
    builder.supply(today());
    assert_eq!(builder.stage, Stage::Tomorrow);
    assert_eq!(builder.pending_lookup(), Some(requested + DAY_MILLISECONDS));
    builder.supply(tomorrow());
    assert!(builder.is_finished());
}

#[test]
fn finished_builder_takes_nothing_more() {
    let requested = 1654848000000;
    let mut builder = TimelineBuilder::new(requested);
    builder.supply(today());
    assert!(builder.accepts(&normal(9, 0)));
    builder.supply(SunMovementResult::FullNight);
    let t = builder.finish();
    assert_eq!(t.day_type, DayType::NormalDay);
    assert_eq!(kind_and_epoch(t.last_sun_change), Some((TimeType::Sunrise, SUNRISE)));
}

#[test]
fn builder_and_direct_stitching_agree() {
    let days = [
        today(),
        yesterday(),
        tomorrow(),
        SunMovementResult::FullDay,
        SunMovementResult::FullNight,
        normal(SUNSET, SUNRISE),
        normal(SUNRISE, SUNRISE),
        normal(1654792979116, 1654845351309),
        normal(SUNSET + 10, SUNSET + 20),
    ];
    let instants = [DAY_START, SUNRISE - 1, SUNRISE, SUNRISE + 1, SUNSET, SUNSET + 1];
    let mut sound = 0;
    let mut unsound = 0;
    for &requested in instants.iter() {
        for &a in days.iter() {
            for &b in days.iter() {
                for &c in days.iter() {
                    let mut builder = TimelineBuilder::new(requested);
                    let mut asked = 0;
                    let mut accepted = true;
                    while let Some(instant) = builder.pending_lookup() {
                        asked += 1;
                        assert!(asked <= 3);
                        let day = if instant == requested {
                            a
                        } else if instant == requested - DAY_MILLISECONDS {
                            b
                        } else {
                            assert_eq!(instant, requested + DAY_MILLISECONDS);
                            c
                        };
                        if !builder.accepts(&day) {
                            accepted = false;
                            break;
                        }
                        builder.supply(day);
                    }
                    assert_eq!(accepted, days_valid(requested, a, b, c));
                    if !accepted {
                        unsound += 1;
                        continue;
                    }
                    sound += 1;
                    let stepped = builder.finish();
                    let direct = build_timeline(requested, a, b, c);
                    assert_eq!(direct.day_type, stepped.day_type);
                    assert_eq!(direct.day_start_epoch, stepped.day_start_epoch);
                    assert_eq!(
                        kind_and_epoch(direct.last_sun_change),
                        kind_and_epoch(stepped.last_sun_change)
                    );
                    assert_eq!(
                        kind_and_epoch(direct.next_sun_change),
                        kind_and_epoch(stepped.next_sun_change)
                    );
                    assert_ne!(direct.day_type, DayType::NormalNight);
                    if let Some(last) = direct.last_sun_change {
                        assert!(last.epoch <= requested);
                    }
                    if let Some(next) = direct.next_sun_change {
                        assert!(requested < next.epoch);
                    }
                    if let (Some(last), Some(next)) =
                        (direct.last_sun_change, direct.next_sun_change)
                    {
                        assert_ne!(last.time_type, next.time_type);
                    } else {
                        assert!(matches!(direct.day_type, DayType::FullDay | DayType::FullNight));
                    }
                }
            }
        }
    }
    assert!(sound > 500);
    assert!(unsound > 500);
}
