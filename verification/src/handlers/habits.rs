//! Habits: which are due on a day, and what a new habit has to meet.

use vstd::prelude::*;
use crate::calendar::{iso_weekday, weekday_from_monday};
use crate::error::{invalid_with, AppError, AppResult};
use crate::models::habit::{CreateHabitRequest, FrequencyConfig, Habit, HabitFrequency};
use crate::models::user::{max_habits_of, SubscriptionTier};

verus! {

/// Color of a habit that names none.
pub open spec fn default_color() -> Seq<char> {
    "#6366f1"@
}

/// Icon of a habit that names none.
pub open spec fn default_icon() -> Seq<char> {
    "target"@
}

/// Whether a list of settings names the ISO weekday `weekday`.
pub open spec fn names_weekday(days: Seq<Option<i64>>, weekday: int) -> bool {
    exists|i: int| 0 <= i < days.len() && #[trigger] days[i] == Some(weekday as i64)
}

/// Whether a habit is due on a day: always, unless it is due on chosen days
/// of the week and the day's weekday is not among them. A habit whose chosen
/// days are not set counts as daily.
pub open spec fn due_on(frequency: HabitFrequency, config: FrequencyConfig, day: int) -> bool {
    match frequency {
        HabitFrequency::WeeklyDays => match config.days {
            Some(days) => names_weekday(days@, iso_weekday(day)),
            None => true,
        },
        _ => true,
    }
}

/// Whether `habit` is due on the day `today`.
pub fn compute_is_due_today(habit: &Habit, today: i32) -> (due: bool)
    ensures
        due == due_on(habit.frequency, habit.frequency_config, today as int),
{
    match habit.frequency {
        HabitFrequency::Daily => true,
        HabitFrequency::WeeklyTarget => true,
        HabitFrequency::WeeklyDays => match &habit.frequency_config.days {
            None => true,
            Some(days) => {
                let weekday: i64 = weekday_from_monday(today) as i64 + 1;
                let mut i: usize = 0;
                while i < days.len()
                    invariant
                        i <= days@.len(),
                        habit.frequency == HabitFrequency::WeeklyDays,
                        habit.frequency_config.days == Some(*days),
                        weekday == iso_weekday(today as int),
                        forall|j: int| 0 <= j < i ==> days@[j] != Some(weekday),
                    decreases days@.len() - i,
                {
                    match days[i] {
                        Some(d) => {
                            if d == weekday {
                                assert(days@[i as int] == Some(weekday));
                                return true;
                            }
                        },
                        None => {},
                    }
                    i += 1;
                }
                false
            },
        },
    }
}

/// Whether a habit has met its target of the day.
pub fn is_complete(completed_today: i32, target_per_day: i32) -> (complete: bool)
    ensures
        complete == (completed_today >= target_per_day),
{
    completed_today >= target_per_day
}

/// Most habits a user of the tier may keep at a time, where there is a limit.
pub fn max_habits(tier: SubscriptionTier) -> (limit: Option<i64>)
    ensures
        limit == max_habits_of(tier),
{
    match tier {
        SubscriptionTier::Free => Some(3),
        SubscriptionTier::Plus => Some(15),
        SubscriptionTier::Pro => None,
    }
}

/// Whether a user of the tier who keeps `habit_count` habits may add one.
pub open spec fn may_add_habit(tier: SubscriptionTier, habit_count: i64) -> bool {
    match max_habits_of(tier) {
        Some(limit) => habit_count < limit,
        None => true,
    }
}

/// Checks a new habit before it is stored: it needs a name, and its owner
/// room for one more habit.
pub fn check_new_habit(
    body: &CreateHabitRequest,
    tier: SubscriptionTier,
    habit_count: i64,
) -> (outcome: AppResult<()>)
    ensures
        body.name@.len() == 0 ==> invalid_with(outcome, "Habit name is required"@),
        body.name@.len() > 0 && !may_add_habit(tier, habit_count) ==> outcome matches Err(AppError::Forbidden),
        body.name@.len() > 0 && may_add_habit(tier, habit_count) ==> outcome is Ok,
{
    if body.name.as_str().is_empty() {
        return Err(AppError::Validation("Habit name is required".to_owned()));
    }
    match max_habits(tier) {
        Some(limit) => {
            if habit_count >= limit {
                return Err(AppError::Forbidden);
            }
        },
        None => {},
    }
    Ok(())
}

/// The place of a new habit in its owner's list: behind the last one, and
/// first where there is none.
pub fn next_sort_order(highest: Option<i32>) -> (order: i32)
    requires
        highest matches Some(h) ==> h < i32::MAX,
    ensures
        order == (match highest {
            Some(h) => h + 1,
            None => 1,
        }),
{
    match highest {
        Some(h) => h + 1,
        None => 1,
    }
}

/// What a new habit is stored with, where the request leaves it open.
#[derive(Debug)]
pub struct HabitDefaults {
    pub color: String,
    pub icon: String,
    pub frequency: HabitFrequency,
    pub target_per_day: i32,
}

/// Fills in what a request leaves open: the standard color and icon, a
/// daily schedule, and a target of one.
pub fn habit_defaults(body: &CreateHabitRequest) -> (filled: HabitDefaults)
    ensures
        filled.color@ == (match body.color {
            Some(c) => c@,
            None => default_color(),
        }),
        filled.icon@ == (match body.icon {
            Some(i) => i@,
            None => default_icon(),
        }),
        filled.frequency == (match body.frequency {
            Some(f) => f,
            None => HabitFrequency::Daily,
        }),
        filled.target_per_day == (match body.target_per_day {
            Some(t) => t,
            None => 1,
        }),
{
    HabitDefaults {
        color: match &body.color {
            Some(c) => c.clone(),
            None => "#6366f1".to_owned(),
        },
        icon: match &body.icon {
            Some(i) => i.clone(),
            None => "target".to_owned(),
        },
        frequency: match body.frequency {
            Some(f) => f,
            None => HabitFrequency::Daily,
        },
        target_per_day: match body.target_per_day {
            Some(t) => t,
            None => 1,
        },
    }
}

/// What a deletion comes to: a habit that was not there is not found.
pub fn delete_habit(rows_affected: u64) -> (outcome: AppResult<()>)
    ensures
        rows_affected == 0 ==> (outcome matches Err(AppError::NotFound(text)) && text@ == "Habit not found"@),
        rows_affected > 0 ==> outcome is Ok,
{
    if rows_affected == 0 {
        return Err(AppError::NotFound("Habit not found".to_owned()));
    }
    Ok(())
}

} // verus!
