//! Completions of habits.

use vstd::prelude::*;

verus! {

/// One completion of a habit on one day.
#[derive(Debug)]
pub struct Completion {
    pub id: u128,
    pub habit_id: u128,
    pub user_id: u128,
    /// Number of the day in the user's calendar.
    pub completed_date: i32,
    pub value: i32,
    pub note: Option<String>,
    pub created_at: i64,
}

/// Body of a new completion.
#[derive(Debug)]
pub struct CreateCompletionRequest {
    pub habit_id: u128,
    pub completed_date: Option<i32>,
    pub value: Option<i32>,
    pub note: Option<String>,
}

/// Query of the completions.
#[derive(Debug)]
pub struct CompletionQuery {
    pub start_date: Option<i32>,
    pub end_date: Option<i32>,
    pub habit_id: Option<u128>,
}

/// A habit's streaks. The rate over thirty days is `days_completed_30d`
/// thirtieths.
#[derive(Debug)]
pub struct StreakInfo {
    pub habit_id: u128,
    pub current_streak: i32,
    pub longest_streak: i32,
    pub total_completions: i64,
    pub days_completed_30d: i64,
}

/// How many of the active habits were completed on a day.
#[derive(Debug)]
pub struct DailyStats {
    pub date: i32,
    pub total_habits: i64,
    pub completed_habits: i64,
}

} // verus!
