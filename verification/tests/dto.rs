use habitarc_api::dto::{
    CompleteRequest, CreateHabitRequest, MoodQuery, MoodRequest, ScheduleConfig, WeeklyReviewQuery,
};
use habitarc_api::models::habit::HabitFrequency;

fn mood(mood: Option<i16>, energy: Option<i16>, stress: Option<i16>) -> MoodRequest {
    MoodRequest { date: None, mood, energy, stress, note: None }
}

#[test]
fn mood_needs_one_score() {
    assert_eq!(
        mood(None, None, None).validate_at_least_one(),
        Err("At least one of mood, energy, or stress must be provided".to_string())
    );
    assert_eq!(mood(Some(3), None, None).validate_at_least_one(), Ok(()));
    assert_eq!(mood(None, Some(9), None).validate_at_least_one(), Ok(()));
    assert_eq!(mood(None, None, Some(1)).validate_at_least_one(), Ok(()));
}

fn range(text: Option<&str>) -> i64 {
    MoodQuery { range: text.map(|t| t.to_string()) }.range_days()
}

#[test]
fn range_of_a_mood_query() {
    assert_eq!(range(None), 7);
    assert_eq!(range(Some("7d")), 7);
    assert_eq!(range(Some("14d")), 14);
    assert_eq!(range(Some("30d")), 30);
    assert_eq!(range(Some("90d")), 90);
    assert_eq!(range(Some("60d")), 7);
    assert_eq!(range(Some("")), 7);
    assert_eq!(range(Some("30D")), 7);
}

fn habit(frequency: Option<HabitFrequency>, schedule: Option<ScheduleConfig>) -> CreateHabitRequest {
    CreateHabitRequest {
        name: "Read".to_string(),
        description: None,
        color: None,
        icon: None,
        frequency,
        schedule,
        target_per_day: None,
        reminder_time: None,
    }
}

fn days(days: &[i16]) -> Option<ScheduleConfig> {
    Some(ScheduleConfig::WeeklyDays { days: days.to_vec() })
}

fn times(times_per_week: i16) -> Option<ScheduleConfig> {
    Some(ScheduleConfig::WeeklyTarget { times_per_week })
}

#[test]
fn schedule_has_to_fit_the_frequency() {
    let err = |text: &str| Err(text.to_string());
    assert_eq!(habit(None, None).validate_schedule(), Ok(()));
    assert_eq!(habit(Some(HabitFrequency::Daily), None).validate_schedule(), Ok(()));
    assert_eq!(
        habit(None, days(&[1])).validate_schedule(),
        err("Daily habits should not have a schedule config")
    );
    assert_eq!(
        habit(Some(HabitFrequency::Daily), times(3)).validate_schedule(),
        err("Daily habits should not have a schedule config")
    );
    let weekly = Some(HabitFrequency::WeeklyDays);
    assert_eq!(habit(weekly, days(&[1, 3, 5])).validate_schedule(), Ok(()));
    assert_eq!(habit(weekly, days(&[7, 7, 7, 7, 7, 7, 7])).validate_schedule(), Ok(()));
    assert_eq!(habit(weekly, days(&[])).validate_schedule(), err("weekly_days requires 1-7 days"));
    assert_eq!(
        habit(weekly, days(&[1, 2, 3, 4, 5, 6, 7, 1])).validate_schedule(),
        err("weekly_days requires 1-7 days")
    );
    assert_eq!(
        habit(weekly, days(&[1, 8, 0])).validate_schedule(),
        err("Day 8 is invalid; must be 1-7 (Mon-Sun)")
    );
    assert_eq!(
        habit(weekly, days(&[0])).validate_schedule(),
        err("Day 0 is invalid; must be 1-7 (Mon-Sun)")
    );
    assert_eq!(
        habit(weekly, days(&[-3, 9])).validate_schedule(),
        err("Day -3 is invalid; must be 1-7 (Mon-Sun)")
    );
    assert_eq!(
        habit(weekly, days(&[i16::MIN])).validate_schedule(),
        err("Day -32768 is invalid; must be 1-7 (Mon-Sun)")
    );
    assert_eq!(
        habit(weekly, None).validate_schedule(),
        err("weekly_days frequency requires schedule.days")
    );
    assert_eq!(
        habit(weekly, times(3)).validate_schedule(),
        err("weekly_days frequency requires schedule.days")
    );
    let target = Some(HabitFrequency::WeeklyTarget);
    assert_eq!(habit(target, times(1)).validate_schedule(), Ok(()));
    assert_eq!(habit(target, times(7)).validate_schedule(), Ok(()));
    assert_eq!(habit(target, times(0)).validate_schedule(), err("times_per_week must be 1-7"));
    assert_eq!(habit(target, times(8)).validate_schedule(), err("times_per_week must be 1-7"));
    assert_eq!(
        habit(target, None).validate_schedule(),
        err("weekly_target frequency requires schedule.times_per_week")
    );
    assert_eq!(
        habit(target, days(&[1])).validate_schedule(),
        err("weekly_target frequency requires schedule.times_per_week")
    );
}

#[test]
fn completion_date_is_within_a_day_of_today() {
    let err = Err("Date must be within ±1 day of today".to_string());
    assert_eq!(CompleteRequest { date: None }.validate_date(100), Ok(100));
    assert_eq!(CompleteRequest { date: Some(99) }.validate_date(100), Ok(99));
    assert_eq!(CompleteRequest { date: Some(100) }.validate_date(100), Ok(100));
    assert_eq!(CompleteRequest { date: Some(101) }.validate_date(100), Ok(101));
    assert_eq!(CompleteRequest { date: Some(98) }.validate_date(100), err);
    assert_eq!(CompleteRequest { date: Some(102) }.validate_date(100), err);
    assert_eq!(CompleteRequest { date: Some(i32::MAX) }.validate_date(i32::MIN), err);
    assert_eq!(CompleteRequest { date: Some(i32::MIN) }.validate_date(i32::MAX), err);
    assert_eq!(CompleteRequest { date: None }.validate_date(i32::MIN), Ok(i32::MIN));
}

fn week(text: &str) -> Option<(i32, u32)> {
    WeeklyReviewQuery { week: Some(text.to_string()) }.parse_week()
}

#[test]
fn week_is_read_as_year_and_number() {
    assert_eq!(WeeklyReviewQuery { week: None }.parse_week(), None);
    assert_eq!(week("2026-W06"), Some((2026, 6)));
    assert_eq!(week("2026-W6"), Some((2026, 6)));
    assert_eq!(week("2026-W53"), Some((2026, 53)));
    assert_eq!(week("2026-W1"), Some((2026, 1)));
    assert_eq!(week("2026-W0"), None);
    assert_eq!(week("2026-W54"), None);
    assert_eq!(week("2026-W+7"), Some((2026, 7)));
    assert_eq!(week("+2026-W07"), Some((2026, 7)));
    assert_eq!(week("-44-W07"), Some((-44, 7)));
    assert_eq!(week("2147483647-W07"), Some((2147483647, 7)));
    assert_eq!(week("-2147483648-W07"), Some((-2147483648, 7)));
    assert_eq!(week("2147483648-W07"), None);
    assert_eq!(week("-2147483649-W07"), None);
    assert_eq!(week("0002026-W0000000000000000000000007"), Some((2026, 7)));
    assert_eq!(week("2026-W4294967296"), None);
    assert_eq!(week("2026-W-7"), None);
    assert_eq!(week("2026-W"), None);
    assert_eq!(week("-W07"), None);
    assert_eq!(week("2026W07"), None);
    assert_eq!(week("2026-w07"), None);
    assert_eq!(week("2026-W07-W08"), None);
    assert_eq!(week("2026-W07-W"), None);
    assert_eq!(week("2026--W07"), None);
    assert_eq!(week(" 2026-W07"), None);
    assert_eq!(week("2026-W07 "), None);
    assert_eq!(week("२०२६-W07"), None);
    assert_eq!(week(""), None);
    assert_eq!(week("-"), None);
    assert_eq!(week("+-W1"), None);
    assert_eq!(week("--W1"), None);
}
