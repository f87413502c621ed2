//! Habits and their schedules.

use vstd::prelude::*;

verus! {

/// How often a habit is due.
#[derive(Debug, Clone, Copy, PartialEq, Eq, Structural)]
pub enum HabitFrequency {
    Daily,
    /// On chosen days of the week.
    WeeklyDays,
    /// A number of times a week, on any days.
    WeeklyTarget,
}

impl Default for HabitFrequency {
    fn default() -> (frequency: Self)
        ensures
            frequency == HabitFrequency::Daily,
    {
        HabitFrequency::Daily
    }
}

/// What the rules read of a habit's stored schedule settings.
#[derive(Debug)]
pub struct FrequencyConfig {
    /// The members of `days` where that is a list: each one as an integer,
    /// or nothing where it is none.
    pub days: Option<Vec<Option<i64>>>,
    /// `times_per_week` where that is an integer.
    pub times_per_week: Option<i64>,
}

/// A habit as the store holds one.
#[derive(Debug)]
pub struct Habit {
    pub id: u128,
    pub user_id: u128,
    pub name: String,
    pub description: Option<String>,
    pub color: String,
    pub icon: String,
    pub frequency: HabitFrequency,
    pub frequency_config: FrequencyConfig,
    pub target_per_day: i32,
    /// Seconds after midnight.
    pub reminder_time: Option<u32>,
    pub is_archived: bool,
    pub sort_order: i32,
    pub current_streak: i32,
    pub longest_streak: i32,
    pub total_completions: i64,
    pub created_at: i64,
    pub updated_at: i64,
}

/// Body of a new habit.
#[derive(Debug)]
pub struct CreateHabitRequest {
    pub name: String,
    pub description: Option<String>,
    pub color: Option<String>,
    pub icon: Option<String>,
    pub frequency: Option<HabitFrequency>,
    pub frequency_config: Option<FrequencyConfig>,
    pub target_per_day: Option<i32>,
    pub reminder_time: Option<u32>,
}

/// Body of a change to a habit; what is left out stays as it is.
#[derive(Debug)]
pub struct UpdateHabitRequest {
    pub name: Option<String>,
    pub description: Option<String>,
    pub color: Option<String>,
    pub icon: Option<String>,
    pub frequency: Option<HabitFrequency>,
    pub frequency_config: Option<FrequencyConfig>,
    pub target_per_day: Option<i32>,
    pub reminder_time: Option<u32>,
    pub is_archived: Option<bool>,
    pub sort_order: Option<i32>,
}

/// A habit with its state on one day.
#[derive(Debug)]
pub struct HabitWithStatus {
    pub habit: Habit,
    pub completed_today: i32,
    pub is_complete: bool,
    pub is_due_today: bool,
}

} // verus!
