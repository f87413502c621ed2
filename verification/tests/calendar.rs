use chrono::{Datelike, NaiveDate};
use habitarc_api::calendar::{day_name, find_monday, weekday_from_monday};

fn day(y: i32, m: u32, d: u32) -> i32 {
    NaiveDate::from_ymd_opt(y, m, d).unwrap().num_days_from_ce()
}

#[test]
fn test_find_monday_tuesday() {
    let date = day(2026, 2, 10); // Tuesday
    assert_eq!(find_monday(date), day(2026, 2, 9));
}

#[test]
fn test_find_monday_is_monday() {
    let mon = day(2026, 2, 9);
    assert_eq!(find_monday(mon), mon);
}

#[test]
fn test_find_monday_sunday() {
    let sun = day(2026, 2, 15);
    assert_eq!(find_monday(sun), day(2026, 2, 9));
}

#[test]
fn test_find_monday_saturday() {
    let sat = day(2026, 2, 14);
    assert_eq!(find_monday(sat), day(2026, 2, 9));
}

#[test]
fn test_find_monday_friday() {
    let fri = day(2026, 2, 13);
    assert_eq!(find_monday(fri), day(2026, 2, 9));
}

#[test]
fn day_numbers_start_on_a_monday() {
    assert_eq!(day(1, 1, 1), 1);
    assert_eq!(day(2026, 2, 10), 739657);
    assert_eq!(weekday_from_monday(1), 0);
    assert_eq!(weekday_from_monday(739657), 1);
    assert_eq!(weekday_from_monday(0), 6);
    assert_eq!(weekday_from_monday(-6), 0);
    assert_eq!(weekday_from_monday(i32::MAX), ((i32::MAX as i64 - 1).rem_euclid(7)) as i32);
    assert_eq!(weekday_from_monday(i32::MIN), ((i32::MIN as i64 - 1).rem_euclid(7)) as i32);
    assert_eq!(find_monday(0), -6);
    assert_eq!(find_monday(i32::MIN + 6), i32::MIN + 6 - weekday_from_monday(i32::MIN + 6));
}

#[test]
fn weekday_agrees_with_the_calendar() {
    let mut date = NaiveDate::from_ymd_opt(2024, 2, 25).unwrap();
    for _ in 0..800 {
        let n = date.num_days_from_ce();
        assert_eq!(weekday_from_monday(n) as u32, date.weekday().num_days_from_monday());
        assert_eq!(
            find_monday(n),
            n - date.weekday().num_days_from_monday() as i32
        );
        date = date.succ_opt().unwrap();
    }
}

#[test]
fn days_have_their_english_names() {
    let names: Vec<&str> = (0..7).map(day_name).collect();
    assert_eq!(
        names,
        vec!["Monday", "Tuesday", "Wednesday", "Thursday", "Friday", "Saturday", "Sunday"]
    );
}
