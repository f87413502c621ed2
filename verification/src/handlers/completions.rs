//! Completions, streaks and the weekly review.
//!
//! A streak is a run of days, each with a completion, without a gap. The
//! current streak is the run that ends today; the longest is the longest run
//! there ever was.

use vstd::prelude::*;
use crate::calendar::{day_name, day_name_of, days_from_monday, monday_of, weekday_from_monday};
use crate::models::completion::Completion;
use crate::models::habit::{FrequencyConfig, Habit, HabitFrequency};

verus! {

/// Body of a toggle.
#[derive(Debug)]
pub struct ToggleRequest {
    pub habit_id: u128,
    pub completed_date: Option<i32>,
}

/// Query of a heatmap.
#[derive(Debug)]
pub struct HeatmapQuery {
    pub months: Option<i32>,
}

/// One day of a heatmap.
#[derive(Debug)]
pub struct HeatmapEntry {
    pub date: i32,
    pub count: i64,
    pub target: i32,
}

/// The review of one habit over a week. Its rate is `completed` in
/// `possible`, or zero where nothing was possible.
#[derive(Debug)]
pub struct WeeklyHabitReview {
    pub id: u128,
    pub name: String,
    pub completed: i64,
    pub possible: i64,
}

/// The review of a week. The rate of the week is `total_completions` in
/// `total_possible`, or zero where nothing was possible.
#[derive(Debug)]
pub struct WeeklyReview {
    pub week_start: i32,
    pub week_end: i32,
    pub total_completions: i64,
    pub total_possible: i64,
    pub best_day: Option<String>,
    pub worst_day: Option<String>,
    pub habits: Vec<WeeklyHabitReview>,
}

// ---------------------------------------------------------------------------
// Streaks
// ---------------------------------------------------------------------------

/// The current streak read off days listed latest first, where `check` is
/// the day that the run has reached: a day later than `check` is passed
/// over, the day `check` itself counts and moves the run one day back, and an
/// earlier day ends it.
pub open spec fn current_streak_from(days: Seq<i32>, check: int) -> nat
    decreases days.len(),
{
    if days.len() == 0 {
        0
    } else if days[0] == check {
        1 + current_streak_from(days.drop_first(), check - 1)
    } else if days[0] < check {
        0
    } else {
        current_streak_from(days.drop_first(), check)
    }
}

/// The length of the run of consecutive days that ends at place `i` of days
/// listed earliest first.
pub open spec fn run_ending_at(days: Seq<i32>, i: int) -> nat
    decreases i,
{
    if i <= 0 {
        1
    } else if days[i] == days[i - 1] + 1 {
        1 + run_ending_at(days, i - 1)
    } else {
        1
    }
}

/// The longest run among the first `n` days.
pub open spec fn longest_run(days: Seq<i32>, n: int) -> nat
    decreases n,
{
    if n <= 0 {
        0
    } else {
        let before = longest_run(days, n - 1);
        let here = run_ending_at(days, n - 1);
        if here > before {
            here
        } else {
            before
        }
    }
}

/// A streak is never longer than the list of days.
pub proof fn lemma_current_streak_bounded(days: Seq<i32>, check: int)
    ensures
        current_streak_from(days, check) <= days.len(),
    decreases days.len(),
{
    if days.len() > 0 {
        lemma_current_streak_bounded(days.drop_first(), check);
        lemma_current_streak_bounded(days.drop_first(), check - 1);
    }
}

/// A run is never longer than the days up to its end, and the longest run is
/// never longer than all of them.
pub proof fn lemma_runs_bounded(days: Seq<i32>, n: int)
    requires
        0 <= n <= days.len(),
    ensures
        longest_run(days, n) <= n,
        n > 0 ==> 1 <= run_ending_at(days, n - 1) <= n,
        n > 0 ==> longest_run(days, n) >= 1,
    decreases n,
{
    if n > 0 {
        lemma_runs_bounded(days, n - 1);
    }
}

/// The current streak as of `today`, from the days with a completion listed
/// latest first.
pub fn current_streak(days_latest_first: &Vec<i32>, today: i32) -> (streak: i32)
    requires
        days_latest_first@.len() <= i32::MAX,
    ensures
        streak == current_streak_from(days_latest_first@, today as int),
{
    let mut streak: i32 = 0;
    let mut check: i64 = today as i64;
    let mut i: usize = 0;
    assert(days_latest_first@.skip(0) =~= days_latest_first@);
    while i < days_latest_first.len()
        invariant
            i <= days_latest_first@.len(),
            days_latest_first@.len() <= i32::MAX,
            0 <= streak <= i,
            check == today - streak,
            current_streak_from(days_latest_first@, today as int) == streak + current_streak_from(
                days_latest_first@.skip(i as int),
                check as int,
            ),
        decreases days_latest_first@.len() - i,
    {
        let day = days_latest_first[i];
        proof {
            let rest = days_latest_first@.skip(i as int);
            assert(rest[0] == day);
            assert(rest.drop_first() =~= days_latest_first@.skip(i as int + 1));
        }
        if day as i64 == check {
            streak += 1;
            check -= 1;
        } else if (day as i64) < check {
            return streak;
        }
        i += 1;
    }
    streak
}

/// The longest streak, from the days with a completion listed earliest
/// first.
pub fn longest_streak(days_earliest_first: &Vec<i32>) -> (longest: i32)
    requires
        days_earliest_first@.len() <= i32::MAX,
    ensures
        longest == longest_run(days_earliest_first@, days_earliest_first@.len() as int),
{
    let mut longest: i32 = 0;
    let mut run: i32 = 0;
    let mut i: usize = 0;
    while i < days_earliest_first.len()
        invariant
            i <= days_earliest_first@.len(),
            days_earliest_first@.len() <= i32::MAX,
            longest == longest_run(days_earliest_first@, i as int),
            i > 0 ==> run == run_ending_at(days_earliest_first@, i - 1),
            0 <= run <= i,
            0 <= longest <= i,
        decreases days_earliest_first@.len() - i,
    {
        let day = days_earliest_first[i];
        if i > 0 && day as i64 == days_earliest_first[i - 1] as i64 + 1 {
            run += 1;
        } else {
            run = 1;
        }
        if run > longest {
            longest = run;
        }
        i += 1;
    }
    longest
}

/// The days in the opposite order.
pub fn reversed(days: &Vec<i32>) -> (turned: Vec<i32>)
    ensures
        turned@ == days@.reverse(),
{
    let mut turned: Vec<i32> = Vec::new();
    let mut i: usize = days.len();
    while i > 0
        invariant
            i <= days@.len(),
            turned@.len() == days@.len() - i,
            forall|k: int| 0 <= k < turned@.len() ==> turned@[k] == days@[days@.len() - 1 - k],
        decreases i,
    {
        i -= 1;
        turned.push(days[i]);
    }
    assert(turned@ =~= days@.reverse());
    turned
}

/// The streaks that are stored with a habit.
#[derive(Debug, Clone, Copy, PartialEq, Eq, Structural)]
pub struct Streaks {
    pub current_streak: i32,
    /// Never shorter than the longest streak stored before.
    pub longest_streak: i32,
}

/// The larger of two numbers.
pub open spec fn larger(a: int, b: int) -> int {
    if a > b {
        a
    } else {
        b
    }
}

/// The streaks of a habit as of `today`, from the distinct days with a
/// completion listed latest first and the longest streak stored so far.
pub fn update_streak(days_latest_first: &Vec<i32>, today: i32, stored_longest: i32) -> (streaks: Streaks)
    requires
        days_latest_first@.len() <= i32::MAX,
    ensures
        streaks.current_streak == current_streak_from(days_latest_first@, today as int),
        streaks.longest_streak == larger(
            stored_longest as int,
            longest_run(days_latest_first@.reverse(), days_latest_first@.len() as int) as int,
        ),
{
    let current = current_streak(days_latest_first, today);
    let earliest_first = reversed(days_latest_first);
    let longest = longest_streak(&earliest_first);
    Streaks {
        current_streak: current,
        longest_streak: if longest > stored_longest {
            longest
        } else {
            stored_longest
        },
    }
}

// ---------------------------------------------------------------------------
// Ranges
// ---------------------------------------------------------------------------

/// Months that a heatmap shows where the query names none.
pub const DEFAULT_HEATMAP_MONTHS: i32 = 3;

/// Most months that a heatmap shows.
pub const MAX_HEATMAP_MONTHS: i32 = 12;

/// Days before today from which completions are listed where the query
/// names no start.
pub const DEFAULT_RANGE_DAYS: i32 = 30;

/// The months that a heatmap covers: what the query asks for, three where
/// it asks for nothing, and never more than twelve.
pub open spec fn heatmap_months_of(months: Option<i32>) -> i32 {
    let asked = match months {
        Some(m) => m,
        None => DEFAULT_HEATMAP_MONTHS,
    };
    if asked < MAX_HEATMAP_MONTHS {
        asked
    } else {
        MAX_HEATMAP_MONTHS
    }
}

/// The months that a heatmap covers.
pub fn heatmap_months(query: &HeatmapQuery) -> (months: i32)
    ensures
        months == heatmap_months_of(query.months),
{
    let asked = match query.months {
        Some(m) => m,
        None => DEFAULT_HEATMAP_MONTHS,
    };
    if asked < MAX_HEATMAP_MONTHS {
        asked
    } else {
        MAX_HEATMAP_MONTHS
    }
}

/// The days that a heatmap reaches back: thirty for each month.
pub fn heatmap_days(query: &HeatmapQuery) -> (days: i64)
    ensures
        days == heatmap_months_of(query.months) * 30,
{
    heatmap_months(query) as i64 * 30
}

/// The first and last day of a listing: what the query names, and where it
/// names none, thirty days before today and today.
pub fn listing_range(start_date: Option<i32>, end_date: Option<i32>, today: i32) -> (range: (i64, i64))
    ensures
        range.0 == (match start_date {
            Some(d) => d as int,
            None => today - DEFAULT_RANGE_DAYS,
        }),
        range.1 == (match end_date {
            Some(d) => d as int,
            None => today as int,
        }),
{
    let start = match start_date {
        Some(d) => d as i64,
        None => today as i64 - DEFAULT_RANGE_DAYS as i64,
    };
    let end = match end_date {
        Some(d) => d as i64,
        None => today as i64,
    };
    (start, end)
}

/// What a toggle does: it removes the completion of the day where there is
/// one, and adds one where there is none.
#[derive(Debug, Clone, Copy, PartialEq, Eq, Structural)]
pub enum ToggleAction {
    Delete { completion_id: u128 },
    Create,
}

/// Decides what a toggle does, from the completion of the day if there is one.
pub fn toggle_action(existing: Option<u128>) -> (action: ToggleAction)
    ensures
        action == (match existing {
            Some(id) => ToggleAction::Delete { completion_id: id },
            None => ToggleAction::Create,
        }),
{
    match existing {
        Some(id) => ToggleAction::Delete { completion_id: id },
        None => ToggleAction::Create,
    }
}

/// The word for a toggle's action in the response.
pub fn toggle_word(action: ToggleAction) -> (word: &'static str)
    ensures
        word@ == (match action {
            ToggleAction::Delete { .. } => "deleted"@,
            ToggleAction::Create => "created"@,
        }),
{
    match action {
        ToggleAction::Delete { .. } => "deleted",
        ToggleAction::Create => "created",
    }
}

/// Whether a demo's first event of a kind is to be recorded: only for a
/// demo session, and only if none was recorded before.
pub fn records_first_event(is_demo: bool, times_recorded: i64) -> (record: bool)
    ensures
        record == (is_demo && times_recorded == 0),
{
    is_demo && times_recorded == 0
}

// ---------------------------------------------------------------------------
// The weekly review
// ---------------------------------------------------------------------------

/// The Monday of the week before the one that holds `today`.
pub open spec fn last_week_start(today: int) -> int {
    monday_of(today) - 7
}

/// The first and last day of the last complete week before `today`.
pub fn last_week(today: i32) -> (week: (i32, i32))
    requires
        today >= i32::MIN + 13,
    ensures
        week.0 == last_week_start(today as int),
        week.1 == week.0 + 6,
        days_from_monday(week.0 as int) == 0,
{
    let monday = crate::calendar::find_monday(today);
    proof {
        let m = monday as int;
        assert((m - 7 - 1) % 7 == (m - 1) % 7) by (nonlinear_arith);
    }
    (monday - 7, monday - 1)
}

/// How often a habit can be completed in a week: seven times where it is
/// due daily, once for each chosen day (seven where no days are set), and
/// its target where it has one (one where none is set).
pub open spec fn possible_of(
    frequency: HabitFrequency,
    days: Option<nat>,
    times_per_week: Option<i64>,
) -> int {
    match frequency {
        HabitFrequency::Daily => 7,
        HabitFrequency::WeeklyDays => match days {
            Some(n) => n as int,
            None => 7,
        },
        HabitFrequency::WeeklyTarget => match times_per_week {
            Some(t) => t as int,
            None => 1,
        },
    }
}

/// The number of chosen days in a habit's settings, if days are set.
pub open spec fn chosen_days(config: FrequencyConfig) -> Option<nat> {
    match config.days {
        Some(days) => Some(days@.len()),
        None => None,
    }
}

/// How often `habit` can be completed in a week.
pub fn possible_in_week(habit: &Habit) -> (possible: i64)
    requires
        habit.frequency_config.days matches Some(days) ==> days@.len() <= i64::MAX,
    ensures
        possible == possible_of(
            habit.frequency,
            chosen_days(habit.frequency_config),
            habit.frequency_config.times_per_week,
        ),
{
    match habit.frequency {
        HabitFrequency::Daily => 7,
        HabitFrequency::WeeklyDays => match &habit.frequency_config.days {
            Some(days) => days.len() as i64,
            None => 7,
        },
        HabitFrequency::WeeklyTarget => match habit.frequency_config.times_per_week {
            Some(t) => t,
            None => 1,
        },
    }
}

/// Number of the first `n` completions that belong to a habit.
pub open spec fn completions_of(completions: Seq<Completion>, habit_id: u128, n: int) -> nat
    decreases n,
{
    if n <= 0 {
        0
    } else {
        completions_of(completions, habit_id, n - 1) + if completions[n - 1].habit_id == habit_id {
            1nat
        } else {
            0nat
        }
    }
}

/// Number of the first `n` completions that fall on a day of the week.
pub open spec fn completions_on(completions: Seq<Completion>, weekday: int, n: int) -> nat
    decreases n,
{
    if n <= 0 {
        0
    } else {
        completions_on(completions, weekday, n - 1) + if days_from_monday(
            completions[n - 1].completed_date as int,
        ) == weekday {
            1nat
        } else {
            0nat
        }
    }
}

/// No count is larger than the number of completions counted.
pub proof fn lemma_counts_bounded(completions: Seq<Completion>, habit_id: u128, weekday: int, n: int)
    requires
        0 <= n <= completions.len(),
    ensures
        completions_of(completions, habit_id, n) <= n,
        completions_on(completions, weekday, n) <= n,
    decreases n,
{
    if n > 0 {
        lemma_counts_bounded(completions, habit_id, weekday, n - 1);
    }
}

/// Counts the completions of a habit.
pub fn count_for_habit(completions: &Vec<Completion>, habit_id: u128) -> (count: i64)
    requires
        completions@.len() <= i64::MAX,
    ensures
        count == completions_of(completions@, habit_id, completions@.len() as int),
{
    let mut count: i64 = 0;
    let mut i: usize = 0;
    while i < completions.len()
        invariant
            i <= completions@.len(),
            completions@.len() <= i64::MAX,
            0 <= count <= i,
            count == completions_of(completions@, habit_id, i as int),
        decreases completions@.len() - i,
    {
        if completions[i].habit_id == habit_id {
            count += 1;
        }
        i += 1;
    }
    count
}

/// Counts the completions on each day of the week, Monday first.
pub fn count_by_weekday(completions: &Vec<Completion>) -> (counts: Vec<i64>)
    requires
        completions@.len() <= i64::MAX,
    ensures
        counts@.len() == 7,
        forall|k: int|
            0 <= k < 7 ==> #[trigger] counts@[k] == completions_on(completions@, k, completions@.len() as int),
{
    let mut counts: Vec<i64> = vec![0, 0, 0, 0, 0, 0, 0];
    let mut i: usize = 0;
    while i < completions.len()
        invariant
            i <= completions@.len(),
            completions@.len() <= i64::MAX,
            counts@.len() == 7,
            forall|k: int| 0 <= k < 7 ==> #[trigger] counts@[k] == completions_on(completions@, k, i as int),
        decreases completions@.len() - i,
    {
        let weekday = weekday_from_monday(completions[i].completed_date) as usize;
        proof {
            lemma_counts_bounded(completions@, 0, weekday as int, i as int);
        }
        let bumped: i64 = counts[weekday] + 1;
        counts.set(weekday, bumped);
        i += 1;
    }
    counts
}

/// The last place among the first `n` that holds the largest count.
pub open spec fn last_largest(counts: Seq<i64>, n: int) -> int
    decreases n,
{
    if n <= 1 {
        0
    } else {
        let before = last_largest(counts, n - 1);
        if counts[n - 1] >= counts[before] {
            n - 1
        } else {
            before
        }
    }
}

/// The first place among the first `n` that holds the smallest count.
pub open spec fn first_smallest(counts: Seq<i64>, n: int) -> int
    decreases n,
{
    if n <= 1 {
        0
    } else {
        let before = first_smallest(counts, n - 1);
        if counts[n - 1] < counts[before] {
            n - 1
        } else {
            before
        }
    }
}

/// Where the extremes stand: no count is larger than the one at the best
/// place and none after it is as large; no count is smaller than the one at
/// the worst place and none before it is as small.
pub proof fn lemma_extremes(counts: Seq<i64>, n: int)
    requires
        1 <= n <= counts.len(),
    ensures
        0 <= last_largest(counts, n) < n,
        0 <= first_smallest(counts, n) < n,
        forall|k: int| 0 <= k < n ==> #[trigger] counts[k] <= counts[last_largest(counts, n)],
        forall|k: int| last_largest(counts, n) < k < n ==> #[trigger] counts[k] < counts[last_largest(counts, n)],
        forall|k: int| 0 <= k < n ==> #[trigger] counts[k] >= counts[first_smallest(counts, n)],
        forall|k: int|
            0 <= k < first_smallest(counts, n) ==> #[trigger] counts[k] > counts[first_smallest(counts, n)],
    decreases n,
{
    if n > 1 {
        lemma_extremes(counts, n - 1);
    }
}

/// The day of the week with the most completions, the last of them where
/// several have as many, and the day with the fewest, the first of them.
pub fn best_and_worst(counts: &Vec<i64>) -> (days: (usize, usize))
    requires
        counts@.len() == 7,
    ensures
        days.0 == last_largest(counts@, 7),
        days.1 == first_smallest(counts@, 7),
        days.0 < 7,
        days.1 < 7,
{
    let mut best: usize = 0;
    let mut worst: usize = 0;
    let mut i: usize = 1;
    while i < 7
        invariant
            1 <= i <= 7,
            counts@.len() == 7,
            best == last_largest(counts@, i as int),
            worst == first_smallest(counts@, i as int),
            best < i,
            worst < i,
        decreases 7 - i,
    {
        if counts[i] >= counts[best] {
            best = i;
        }
        if counts[i] < counts[worst] {
            worst = i;
        }
        i += 1;
    }
    (best, worst)
}

/// A sum that stops at the ends of `i64`.
pub open spec fn capped_sum(a: i64, b: i64) -> i64 {
    if a + b > i64::MAX {
        i64::MAX
    } else if a + b < i64::MIN {
        i64::MIN
    } else {
        (a + b) as i64
    }
}

/// Adds two numbers, stopping at the ends of `i64`.
pub fn add_capped(a: i64, b: i64) -> (sum: i64)
    ensures
        sum == capped_sum(a, b),
{
    match a.checked_add(b) {
        Some(sum) => sum,
        None => if a > 0 {
            i64::MAX
        } else {
            i64::MIN
        },
    }
}

/// The capped sum of what is possible for the first `n` habits.
pub open spec fn total_possible(habits: Seq<Habit>, n: int) -> i64
    decreases n,
{
    if n <= 0 {
        0
    } else {
        capped_sum(
            total_possible(habits, n - 1),
            possible_of(
                habits[n - 1].frequency,
                chosen_days(habits[n - 1].frequency_config),
                habits[n - 1].frequency_config.times_per_week,
            ) as i64,
        )
    }
}

/// The capped sum of the completions of the first `n` habits.
pub open spec fn total_completed(habits: Seq<Habit>, completions: Seq<Completion>, n: int) -> i64
    decreases n,
{
    if n <= 0 {
        0
    } else {
        capped_sum(
            total_completed(habits, completions, n - 1),
            completions_of(completions, habits[n - 1].id, completions.len() as int) as i64,
        )
    }
}

/// Whether each habit's settings list no more days than `i64` counts.
pub open spec fn settings_fit(habits: Seq<Habit>) -> bool {
    forall|i: int|
        0 <= i < habits.len() ==> ((#[trigger] habits[i]).frequency_config.days matches Some(days)
            ==> days@.len() <= i64::MAX)
}

/// Reviews the last complete week before `today`: for each active habit how
/// often it was completed and how often it could have been, the sums of
/// both, and the days of the week with the most and the fewest completions.
/// `completions` are those of the week.
pub fn get_weekly_review(
    habits: &Vec<Habit>,
    completions: &Vec<Completion>,
    today: i32,
) -> (review: WeeklyReview)
    requires
        today >= i32::MIN + 13,
        completions@.len() <= i64::MAX,
        settings_fit(habits@),
    ensures
        review.week_start == last_week_start(today as int),
        review.week_end == review.week_start + 6,
        review.habits@.len() == habits@.len(),
        forall|i: int|
            0 <= i < habits@.len() ==> {
                &&& (#[trigger] review.habits@[i]).id == habits@[i].id
                &&& review.habits@[i].name@ == habits@[i].name@
                &&& review.habits@[i].completed == completions_of(
                    completions@,
                    habits@[i].id,
                    completions@.len() as int,
                )
                &&& review.habits@[i].possible == possible_of(
                    habits@[i].frequency,
                    chosen_days(habits@[i].frequency_config),
                    habits@[i].frequency_config.times_per_week,
                )
            },
        review.total_completions == total_completed(habits@, completions@, habits@.len() as int),
        review.total_possible == total_possible(habits@, habits@.len() as int),
        review.best_day matches Some(name) && name@ == day_name_of(
            last_largest(
                Seq::new(7, |k: int| completions_on(completions@, k, completions@.len() as int) as i64),
                7,
            ),
        ),
        review.worst_day matches Some(name) && name@ == day_name_of(
            first_smallest(
                Seq::new(7, |k: int| completions_on(completions@, k, completions@.len() as int) as i64),
                7,
            ),
        ),
{
    let (week_start, week_end) = last_week(today);
    let mut reviews: Vec<WeeklyHabitReview> = Vec::new();
    let mut total_completions: i64 = 0;
    let mut total: i64 = 0;
    let mut i: usize = 0;
    while i < habits.len()
        invariant
            i <= habits@.len(),
            completions@.len() <= i64::MAX,
            settings_fit(habits@),
            reviews@.len() == i,
            forall|j: int|
                0 <= j < i ==> {
                    &&& (#[trigger] reviews@[j]).id == habits@[j].id
                    &&& reviews@[j].name@ == habits@[j].name@
                    &&& reviews@[j].completed == completions_of(
                        completions@,
                        habits@[j].id,
                        completions@.len() as int,
                    )
                    &&& reviews@[j].possible == possible_of(
                        habits@[j].frequency,
                        chosen_days(habits@[j].frequency_config),
                        habits@[j].frequency_config.times_per_week,
                    )
                },
            total_completions == total_completed(habits@, completions@, i as int),
            total == total_possible(habits@, i as int),
        decreases habits@.len() - i,
    {
        let habit = &habits[i];
        let completed = count_for_habit(completions, habit.id);
        let possible = possible_in_week(habit);
        total_completions = add_capped(total_completions, completed);
        total = add_capped(total, possible);
        reviews.push(WeeklyHabitReview { id: habit.id, name: habit.name.clone(), completed, possible });
        i += 1;
    }
    let counts = count_by_weekday(completions);
    let (best, worst) = best_and_worst(&counts);
    proof {
        let tallies = Seq::new(7, |k: int| completions_on(completions@, k, completions@.len() as int) as i64);
        assert forall|k: int| 0 <= k < 7 implies counts@[k] == tallies[k] by {
            lemma_counts_bounded(completions@, 0, k, completions@.len() as int);
        }
        assert(counts@ =~= tallies);
    }
    WeeklyReview {
        week_start,
        week_end,
        total_completions,
        total_possible: total,
        best_day: Some(day_name(best).to_owned()),
        worst_day: Some(day_name(worst).to_owned()),
        habits: reviews,
    }
}

} // verus!
