//! Daily logs of mood, energy and stress.

use vstd::prelude::*;

verus! {

/// One day of a user's log.
#[derive(Debug)]
pub struct DailyLog {
    pub id: u128,
    pub user_id: u128,
    pub log_date: i32,
    pub mood: Option<i32>,
    pub energy: Option<i32>,
    pub stress: Option<i32>,
    pub note: Option<String>,
    pub created_at: i64,
    pub updated_at: i64,
}

/// Body of a log; what is left out stays as it is.
#[derive(Debug)]
pub struct UpsertDailyLogRequest {
    pub log_date: Option<i32>,
    pub mood: Option<i32>,
    pub energy: Option<i32>,
    pub stress: Option<i32>,
    pub note: Option<String>,
}

/// Query of the logs.
#[derive(Debug)]
pub struct DailyLogQuery {
    pub start_date: Option<i32>,
    pub end_date: Option<i32>,
}

} // verus!
