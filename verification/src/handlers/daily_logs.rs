//! Daily logs of mood, energy and stress.

use vstd::prelude::*;
use crate::error::{invalid_with, AppError, AppResult};
use crate::models::daily_log::UpsertDailyLogRequest;

verus! {

/// Whether a score is given and off the scale from one to five.
pub open spec fn off_scale(score: Option<i32>) -> bool {
    score matches Some(s) && !(1 <= s <= 5)
}

/// What is wrong with the scores of a log, if anything is: the first of
/// mood, energy and stress that is off the scale.
pub open spec fn score_fault(
    mood: Option<i32>,
    energy: Option<i32>,
    stress: Option<i32>,
) -> Option<Seq<char>> {
    if off_scale(mood) {
        Some("Mood must be between 1 and 5"@)
    } else if off_scale(energy) {
        Some("Energy must be between 1 and 5"@)
    } else if off_scale(stress) {
        Some("Stress must be between 1 and 5"@)
    } else {
        None
    }
}

fn is_off_scale(score: Option<i32>) -> (off: bool)
    ensures
        off == off_scale(score),
{
    match score {
        Some(s) => !(1 <= s && s <= 5),
        None => false,
    }
}

/// Checks the scores of a log before it is stored.
pub fn validate_scores(body: &UpsertDailyLogRequest) -> (outcome: AppResult<()>)
    ensures
        match score_fault(body.mood, body.energy, body.stress) {
            Some(text) => invalid_with(outcome, text),
            None => outcome is Ok,
        },
{
    if is_off_scale(body.mood) {
        return Err(AppError::Validation("Mood must be between 1 and 5".to_owned()));
    }
    if is_off_scale(body.energy) {
        return Err(AppError::Validation("Energy must be between 1 and 5".to_owned()));
    }
    if is_off_scale(body.stress) {
        return Err(AppError::Validation("Stress must be between 1 and 5".to_owned()));
    }
    Ok(())
}

/// The day that a log is for: the one it names, or today.
pub fn log_date(body: &UpsertDailyLogRequest, today: i32) -> (date: i32)
    ensures
        date == (match body.log_date {
            Some(d) => d,
            None => today,
        }),
{
    match body.log_date {
        Some(d) => d,
        None => today,
    }
}

} // verus!
