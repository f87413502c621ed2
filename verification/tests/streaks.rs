use chrono::{Datelike, Duration, NaiveDate};
use habitarc_api::handlers::completions::{
    best_and_worst, count_by_weekday, count_for_habit, current_streak, get_weekly_review,
    heatmap_days, heatmap_months, last_week, listing_range, longest_streak, possible_in_week,
    records_first_event, reversed, toggle_action, toggle_word, update_streak, HeatmapQuery,
    Streaks, ToggleAction,
};
use habitarc_api::handlers::demo::{
    compute_current_streak, compute_longest_streak, exercise_days, meditate_days, read_days,
    seed_dates, seed_habits,
};
use habitarc_api::models::completion::Completion;
use habitarc_api::models::habit::{FrequencyConfig, Habit, HabitFrequency};

fn days(dates: &[NaiveDate]) -> Vec<i32> {
    dates.iter().map(|d| d.num_days_from_ce()).collect()
}

fn current(dates: &[NaiveDate], today: NaiveDate) -> i32 {
    compute_current_streak(&days(dates), today.num_days_from_ce())
}

fn longest(dates: &[NaiveDate]) -> i32 {
    compute_longest_streak(&days(dates))
}

#[test]
fn test_streak_empty() {
    let today = NaiveDate::from_ymd_opt(2026, 2, 10).unwrap();
    assert_eq!(current(&[], today), 0);
    assert_eq!(longest(&[]), 0);
}

#[test]
fn test_streak_single_today() {
    let today = NaiveDate::from_ymd_opt(2026, 2, 10).unwrap();
    assert_eq!(current(&[today], today), 1);
    assert_eq!(longest(&[today]), 1);
}

#[test]
fn test_streak_consecutive() {
    let today = NaiveDate::from_ymd_opt(2026, 2, 10).unwrap();
    let dates = vec![today - Duration::days(2), today - Duration::days(1), today];
    assert_eq!(current(&dates, today), 3);
    assert_eq!(longest(&dates), 3);
}

#[test]
fn test_streak_gap_breaks_current() {
    let today = NaiveDate::from_ymd_opt(2026, 2, 10).unwrap();
    let dates = vec![
        today - Duration::days(4),
        today - Duration::days(3),
        today - Duration::days(2),
        // gap at today-1
        today,
    ];
    assert_eq!(current(&dates, today), 1);
    assert_eq!(longest(&dates), 3);
}

#[test]
fn test_streak_no_today_or_yesterday() {
    let today = NaiveDate::from_ymd_opt(2026, 2, 10).unwrap();
    let dates = vec![
        today - Duration::days(5),
        today - Duration::days(4),
        today - Duration::days(3),
    ];
    assert_eq!(current(&dates, today), 0);
    assert_eq!(longest(&dates), 3);
}

#[test]
fn streaks_of_listed_days() {
    assert_eq!(current_streak(&vec![12, 10, 9, 8, 5], 10), 3);
    assert_eq!(current_streak(&vec![10, 9, 8], 11), 0);
    assert_eq!(current_streak(&vec![i32::MIN], i32::MIN), 1);
    assert_eq!(current_streak(&vec![], 3), 0);
    assert_eq!(longest_streak(&vec![1, 2, 4, 5, 6, 9]), 3);
    assert_eq!(longest_streak(&vec![i32::MAX - 1, i32::MAX]), 2);
    assert_eq!(longest_streak(&vec![5, 5, 6]), 2);
    assert_eq!(reversed(&vec![1, 2, 3]), vec![3, 2, 1]);
    assert_eq!(
        update_streak(&vec![10, 9, 7, 6, 5, 4], 10, 0),
        Streaks { current_streak: 2, longest_streak: 4 }
    );
    assert_eq!(
        update_streak(&vec![10, 9, 7, 6, 5, 4], 10, 9),
        Streaks { current_streak: 2, longest_streak: 9 }
    );
    assert_eq!(update_streak(&vec![], 10, 2), Streaks { current_streak: 0, longest_streak: 2 });
}

#[test]
fn seeded_completions_and_their_streaks() {
    let today = 739657;
    let exercise = seed_dates(today, &exercise_days());
    assert_eq!(exercise.len(), 10);
    assert_eq!(exercise[0], today - 14);
    assert_eq!(exercise[9], today - 1);
    assert_eq!(compute_current_streak(&exercise, today), 0);
    assert_eq!(compute_longest_streak(&exercise), 4);
    let meditate = seed_dates(today, &meditate_days());
    assert_eq!(meditate, vec![today - 14, today - 12, today - 10, today - 8, today - 6, today - 3, today - 1]);
    assert_eq!(compute_longest_streak(&meditate), 1);
    let read = seed_dates(today, &read_days());
    assert_eq!(read, vec![today - 13, today - 11, today - 8, today - 6, today - 1]);
    let habits = seed_habits();
    assert_eq!(habits.len(), 3);
    assert_eq!(
        habits.iter().map(|h| h.name.as_str()).collect::<Vec<_>>(),
        vec!["Exercise", "Meditate", "Read"]
    );
    assert_eq!(
        habits.iter().map(|h| h.color.as_str()).collect::<Vec<_>>(),
        vec!["#ef4444", "#8b5cf6", "#3b82f6"]
    );
    assert_eq!(
        habits.iter().map(|h| h.icon.as_str()).collect::<Vec<_>>(),
        vec!["dumbbell", "brain", "book-open"]
    );
    assert_eq!(habits[2].frequency, HabitFrequency::WeeklyDays);
    assert_eq!(habits[2].days, vec![1, 3, 5]);
    assert!(habits[0].days.is_empty());
}

fn habit(id: u128, frequency: HabitFrequency, config: FrequencyConfig) -> Habit {
    Habit {
        id,
        user_id: 1,
        name: format!("habit {}", id),
        description: None,
        color: String::new(),
        icon: String::new(),
        frequency,
        frequency_config: config,
        target_per_day: 1,
        reminder_time: None,
        is_archived: false,
        sort_order: 0,
        current_streak: 0,
        longest_streak: 0,
        total_completions: 0,
        created_at: 0,
        updated_at: 0,
    }
}

fn completion(habit_id: u128, date: i32) -> Completion {
    Completion {
        id: 0,
        habit_id,
        user_id: 1,
        completed_date: date,
        value: 1,
        note: None,
        created_at: 0,
    }
}

fn none() -> FrequencyConfig {
    FrequencyConfig { days: None, times_per_week: None }
}

#[test]
fn weekly_review_counts_and_extremes() {
    let today = 739657; // Tuesday 2026-02-10
    assert_eq!(last_week(today), (739649, 739655));
    assert_eq!(last_week(739656), (739649, 739655));
    assert_eq!(last_week(739662), (739649, 739655));
    let habits = vec![
        habit(1, HabitFrequency::Daily, none()),
        habit(
            2,
            HabitFrequency::WeeklyDays,
            FrequencyConfig { days: Some(vec![Some(1), Some(3), None]), times_per_week: None },
        ),
        habit(3, HabitFrequency::WeeklyDays, none()),
        habit(4, HabitFrequency::WeeklyTarget, FrequencyConfig { days: None, times_per_week: Some(4) }),
        habit(5, HabitFrequency::WeeklyTarget, none()),
    ];
    let completions = vec![
        completion(1, 739649),
        completion(1, 739650),
        completion(1, 739651),
        completion(2, 739649),
        completion(4, 739651),
        completion(9, 739655),
    ];
    assert_eq!(possible_in_week(&habits[0]), 7);
    assert_eq!(possible_in_week(&habits[1]), 3);
    assert_eq!(possible_in_week(&habits[2]), 7);
    assert_eq!(possible_in_week(&habits[3]), 4);
    assert_eq!(possible_in_week(&habits[4]), 1);
    assert_eq!(count_for_habit(&completions, 1), 3);
    assert_eq!(count_for_habit(&completions, 7), 0);
    let review = get_weekly_review(&habits, &completions, today);
    assert_eq!(review.week_start, 739649);
    assert_eq!(review.week_end, 739655);
    assert_eq!(review.habits.len(), 5);
    assert_eq!(
        review.habits.iter().map(|h| (h.id, h.completed, h.possible)).collect::<Vec<_>>(),
        vec![(1, 3, 7), (2, 1, 3), (3, 0, 7), (4, 1, 4), (5, 0, 1)]
    );
    assert_eq!(review.habits[0].name, "habit 1");
    assert_eq!(review.total_completions, 5);
    assert_eq!(review.total_possible, 22);
    // Monday and Wednesday both have two; the later one is the best
    assert_eq!(review.best_day.as_deref(), Some("Wednesday"));
    // Thursday, Friday and Saturday have none; the first one is the worst
    assert_eq!(review.worst_day.as_deref(), Some("Thursday"));
    assert_eq!(count_by_weekday(&completions), vec![2, 1, 2, 0, 0, 0, 1]);
}

#[test]
fn empty_week_has_sunday_as_best_and_monday_as_worst() {
    let review = get_weekly_review(&Vec::new(), &Vec::new(), 739657);
    assert_eq!(review.total_completions, 0);
    assert_eq!(review.total_possible, 0);
    assert_eq!(review.best_day.as_deref(), Some("Sunday"));
    assert_eq!(review.worst_day.as_deref(), Some("Monday"));
    assert_eq!(best_and_worst(&vec![1, 5, 5, 0, 3, 0, 2]), (2, 3));
}

#[test]
fn totals_stop_at_the_ends_of_the_range() {
    let habits = vec![
        habit(4, HabitFrequency::WeeklyTarget, FrequencyConfig { days: None, times_per_week: Some(i64::MAX) }),
        habit(5, HabitFrequency::WeeklyTarget, FrequencyConfig { days: None, times_per_week: Some(5) }),
    ];
    let review = get_weekly_review(&habits, &Vec::new(), 739657);
    assert_eq!(review.total_possible, i64::MAX);
}

#[test]
fn ranges_and_toggles() {
    assert_eq!(heatmap_months(&HeatmapQuery { months: None }), 3);
    assert_eq!(heatmap_months(&HeatmapQuery { months: Some(6) }), 6);
    assert_eq!(heatmap_months(&HeatmapQuery { months: Some(40) }), 12);
    assert_eq!(heatmap_months(&HeatmapQuery { months: Some(-2) }), -2);
    assert_eq!(heatmap_days(&HeatmapQuery { months: None }), 90);
    assert_eq!(heatmap_days(&HeatmapQuery { months: Some(12) }), 360);
    assert_eq!(listing_range(None, None, 100), (70, 100));
    assert_eq!(listing_range(Some(5), Some(7), 100), (5, 7));
    assert_eq!(listing_range(None, Some(7), i32::MIN), (i32::MIN as i64 - 30, 7));
    assert_eq!(toggle_action(Some(9)), ToggleAction::Delete { completion_id: 9 });
    assert_eq!(toggle_action(None), ToggleAction::Create);
    assert_eq!(toggle_word(ToggleAction::Create), "created");
    assert_eq!(toggle_word(ToggleAction::Delete { completion_id: 9 }), "deleted");
    assert!(records_first_event(true, 0));
    assert!(!records_first_event(true, 1));
    assert!(!records_first_event(false, 0));
}
