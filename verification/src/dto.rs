//! The bodies and queries of the API, and the rules that a request has to
//! meet before anything is stored.
//!
//! A calendar date is the number of its day, a time of day the seconds after
//! midnight, an instant Unix seconds, an identifier the 128 bits of a UUID.

use vstd::prelude::*;
use crate::models::habit::HabitFrequency;
use crate::models::user::{SubscriptionStatus, SubscriptionTier, UserEntitlements};
use crate::text::{
    chars_of, decimal_i64, decimal_int, parsed_signed, parsed_unsigned, read_signed, read_unsigned,
    sub_chars,
};

verus! {

// ---------------------------------------------------------------------------
// Common
// ---------------------------------------------------------------------------

/// A plain confirmation.
#[derive(Debug)]
pub struct MessageResponse {
    pub message: String,
}

/// Confirms a deletion.
#[derive(Debug)]
pub struct DeleteResponse {
    pub deleted: bool,
    pub id: u128,
}

/// The envelope of every failure.
#[derive(Debug)]
pub struct ErrorResponse {
    pub error: ErrorBody,
}

/// What a failure tells the caller.
#[derive(Debug)]
pub struct ErrorBody {
    pub code: String,
    pub message: String,
    pub status: u16,
    pub details: Option<serde_json::Value>,
}

// ---------------------------------------------------------------------------
// Sessions
// ---------------------------------------------------------------------------

/// Body of a sign-up.
#[derive(Debug)]
pub struct SignupRequest {
    pub email: String,
    pub password: String,
    pub name: String,
    /// IANA name of the user's time zone; UTC where none is given.
    pub timezone: Option<String>,
    /// Names the guest account that becomes the registered one.
    pub guest_token: Option<u128>,
}

/// Body of a login.
#[derive(Debug)]
pub struct LoginRequest {
    pub email: String,
    pub password: String,
}

/// Body of a rotation.
#[derive(Debug)]
pub struct RefreshRequest {
    pub refresh_token: String,
}

/// Body of a guest session's creation.
#[derive(Debug)]
pub struct GuestRequest {
    pub timezone: Option<String>,
}

/// What a sign-up or login returns.
#[derive(Debug)]
pub struct AuthResponse {
    pub access_token: String,
    pub refresh_token: String,
    pub expires_in: i64,
    pub user: UserSummary,
}

/// What a guest session's creation returns.
#[derive(Debug)]
pub struct GuestAuthResponse {
    pub access_token: String,
    pub refresh_token: String,
    pub expires_in: i64,
    pub guest_token: u128,
    pub user: UserSummary,
}

/// The user as session responses show them.
#[derive(Debug)]
pub struct UserSummary {
    pub id: u128,
    pub email: Option<String>,
    pub name: String,
    pub is_guest: bool,
    pub timezone: String,
    pub tier: SubscriptionTier,
    pub created_at: i64,
}

/// The profile of the caller, with what their tier entitles them to.
#[derive(Debug)]
pub struct UserProfileResponse {
    pub id: u128,
    pub email: Option<String>,
    pub name: String,
    pub avatar_url: Option<String>,
    pub is_guest: bool,
    pub timezone: String,
    pub tier: SubscriptionTier,
    pub status: SubscriptionStatus,
    pub entitlements: UserEntitlements,
    pub created_at: i64,
}

// ---------------------------------------------------------------------------
// Habits
// ---------------------------------------------------------------------------

/// The settings of a schedule; which of the two is needed depends on the
/// frequency.
#[derive(Debug)]
pub enum ScheduleConfig {
    /// The ISO days of the week, 1 for Monday to 7 for Sunday.
    WeeklyDays { days: Vec<i16> },
    WeeklyTarget { times_per_week: i16 },
}

/// [`ScheduleConfig`] as contracts speak of it.
pub enum ScheduleView {
    WeeklyDays { days: Seq<i16> },
    WeeklyTarget { times_per_week: i16 },
}

impl View for ScheduleConfig {
    type V = ScheduleView;

    open spec fn view(&self) -> ScheduleView {
        match self {
            ScheduleConfig::WeeklyDays { days } => ScheduleView::WeeklyDays { days: days@ },
            ScheduleConfig::WeeklyTarget { times_per_week } => ScheduleView::WeeklyTarget {
                times_per_week: *times_per_week,
            },
        }
    }
}

/// Body of a new habit.
#[derive(Debug)]
pub struct CreateHabitRequest {
    pub name: String,
    pub description: Option<String>,
    pub color: Option<String>,
    pub icon: Option<String>,
    /// Daily where none is given.
    pub frequency: Option<HabitFrequency>,
    pub schedule: Option<ScheduleConfig>,
    pub target_per_day: Option<i32>,
    pub reminder_time: Option<u32>,
}

/// Body of a change to a habit; what is left out stays as it is.
#[derive(Debug)]
pub struct UpdateHabitRequest {
    pub name: Option<String>,
    pub description: Option<String>,
    pub color: Option<String>,
    pub icon: Option<String>,
    pub frequency: Option<HabitFrequency>,
    pub schedule: Option<ScheduleConfig>,
    pub target_per_day: Option<i32>,
    pub reminder_time: Option<u32>,
    pub sort_order: Option<i32>,
}

/// A habit as the API shows it.
#[derive(Debug)]
pub struct HabitResponse {
    pub id: u128,
    pub name: String,
    pub description: Option<String>,
    pub color: String,
    pub icon: String,
    pub frequency: HabitFrequency,
    pub schedule: Option<ScheduleConfig>,
    pub target_per_day: i32,
    pub sort_order: i32,
    pub current_streak: i32,
    pub longest_streak: i32,
    pub total_completions: i64,
    pub created_at: i64,
    pub updated_at: i64,
}

/// A habit with its state today.
#[derive(Debug)]
pub struct HabitTodayResponse {
    pub id: u128,
    pub name: String,
    pub description: Option<String>,
    pub color: String,
    pub icon: String,
    pub frequency: HabitFrequency,
    pub schedule: Option<ScheduleConfig>,
    pub target_per_day: i32,
    pub sort_order: i32,
    pub current_streak: i32,
    pub completed_today: i32,
    pub is_complete: bool,
    pub is_due_today: bool,
}

/// Body of a toggle.
#[derive(Debug)]
pub struct CompleteRequest {
    /// The day to toggle; today where none is given.
    pub date: Option<i32>,
}

/// A completion as a toggle returns it.
#[derive(Debug)]
pub struct CompletionRecord {
    pub id: u128,
    pub habit_id: u128,
    pub local_date_bucket: i32,
    pub value: i32,
    pub created_at: i64,
}

/// The streaks of a habit after a toggle.
#[derive(Debug)]
pub struct StreakSummary {
    pub current_streak: i32,
    pub longest_streak: i32,
    pub total_completions: i64,
}

/// What a toggle returns.
#[derive(Debug)]
pub struct ToggleResponse {
    /// `created` or `deleted`.
    pub action: String,
    pub completion: Option<CompletionRecord>,
    pub habit: StreakSummary,
}

/// Query of a calendar.
#[derive(Debug)]
pub struct CalendarQuery {
    pub months: Option<i32>,
}

/// One day of a calendar.
#[derive(Debug)]
pub struct CalendarEntry {
    pub date: i32,
    pub count: i32,
    pub target: i32,
}

/// The numbers of a habit. Its rate over thirty days is
/// `days_completed_30d` thirtieths.
#[derive(Debug)]
pub struct HabitStatsResponse {
    pub habit_id: u128,
    pub current_streak: i32,
    pub longest_streak: i32,
    pub total_completions: i64,
    pub days_completed_30d: i64,
    pub completions_this_week: i32,
    pub target_this_week: i32,
}

// ---------------------------------------------------------------------------
// Mood
// ---------------------------------------------------------------------------

/// Body of a mood log.
#[derive(Debug)]
pub struct MoodRequest {
    pub date: Option<i32>,
    pub mood: Option<i16>,
    pub energy: Option<i16>,
    pub stress: Option<i16>,
    pub note: Option<String>,
}

/// Query of the mood logs.
#[derive(Debug)]
pub struct MoodQuery {
    /// `7d`, `14d`, `30d` or `90d`.
    pub range: Option<String>,
}

/// A mood log as the API shows it.
#[derive(Debug)]
pub struct MoodLogResponse {
    pub id: u128,
    pub local_date_bucket: i32,
    pub mood: Option<i16>,
    pub energy: Option<i16>,
    pub stress: Option<i16>,
    pub note: Option<String>,
    pub created_at: i64,
    pub updated_at: i64,
}

// ---------------------------------------------------------------------------
// Insights and reviews
// ---------------------------------------------------------------------------

/// An insight as the API shows it.
#[derive(Debug)]
pub struct InsightResponse {
    pub id: u128,
    pub week_start_date: i32,
    /// Whether the text came from the language model or from the fallback rules.
    pub source: String,
    pub summary: String,
    pub wins: Vec<String>,
    pub improvements: Vec<String>,
    pub mood_correlation: Option<String>,
    pub streak_analysis: String,
    pub tip_of_the_week: String,
    pub generated_at: i64,
}

/// Query of a weekly review.
#[derive(Debug)]
pub struct WeeklyReviewQuery {
    /// An ISO week such as `2026-W06`.
    pub week: Option<String>,
}

/// The sums of a week. The rate of the week is `total_completions` in
/// `total_possible`, or zero where nothing was possible.
#[derive(Debug)]
pub struct WeeklyOverall {
    pub total_completions: i64,
    pub total_possible: i64,
    pub best_day: Option<String>,
    pub worst_day: Option<String>,
}

/// One habit in the review of a week. Its rate is `completed` in `possible`,
/// or zero where nothing was possible.
#[derive(Debug)]
pub struct WeeklyHabitBreakdown {
    pub id: u128,
    pub name: String,
    pub color: String,
    pub completed: i64,
    pub possible: i64,
}

/// The review of a week.
#[derive(Debug)]
pub struct WeeklyReviewResponse {
    pub week_start: i32,
    pub week_end: i32,
    pub overall: WeeklyOverall,
    pub habits: Vec<WeeklyHabitBreakdown>,
}

// ---------------------------------------------------------------------------
// Billing
// ---------------------------------------------------------------------------

/// Body of a checkout.
#[derive(Debug)]
pub struct CheckoutRequest {
    pub price_id: String,
    pub tier: String,
}

/// Where the customer goes to pay.
#[derive(Debug)]
pub struct CheckoutResponse {
    pub checkout_url: String,
}

/// Where the customer goes to manage a subscription.
#[derive(Debug)]
pub struct PortalResponse {
    pub portal_url: String,
}

/// The subscription of the caller.
#[derive(Debug)]
pub struct SubscriptionStatusResponse {
    pub tier: SubscriptionTier,
    pub status: SubscriptionStatus,
    pub current_period_end: Option<i64>,
    pub cancel_at_period_end: bool,
    pub entitlements: UserEntitlements,
}

/// What a webhook is answered with.
#[derive(Debug)]
pub struct WebhookAckResponse {
    pub received: bool,
    pub duplicate: bool,
}

// ---------------------------------------------------------------------------
// System
// ---------------------------------------------------------------------------

/// The liveness report.
#[derive(Debug)]
pub struct HealthResponse {
    pub status: String,
    pub service: String,
    pub version: String,
}

/// The readiness report.
#[derive(Debug)]
pub struct ReadyzResponse {
    pub status: String,
    pub checks: ReadyzChecks,
}

/// What the readiness report has checked.
#[derive(Debug)]
pub struct ReadyzChecks {
    pub database: bool,
    pub migrations: bool,
}

// ---------------------------------------------------------------------------
// What the middleware hands on
// ---------------------------------------------------------------------------

/// The caller as the middleware hands them on.
#[derive(Debug)]
pub struct AuthUser {
    pub id: u128,
    pub email: Option<String>,
    pub is_guest: bool,
    pub tier: SubscriptionTier,
}

/// Whether the caller may use a feature, and how much of it.
#[derive(Debug)]
pub struct EntitlementContext {
    pub feature_key: String,
    /// No limit where none is given.
    pub limit: Option<i64>,
    pub allowed: bool,
}

// ---------------------------------------------------------------------------
// Rules
// ---------------------------------------------------------------------------

/// Whether a result is an error with exactly this text.
pub open spec fn fails_with<T>(outcome: Result<T, String>, text: Seq<char>) -> bool {
    outcome matches Err(e) && e@ == text
}

impl MoodRequest {
    /// A mood log needs at least one of mood, energy and stress.
    pub fn validate_at_least_one(&self) -> (outcome: Result<(), String>)
        ensures
            self.mood is Some || self.energy is Some || self.stress is Some ==> outcome is Ok,
            self.mood is None && self.energy is None && self.stress is None ==> fails_with(
                outcome,
                "At least one of mood, energy, or stress must be provided"@,
            ),
    {
        if self.mood.is_none() && self.energy.is_none() && self.stress.is_none() {
            return Err("At least one of mood, energy, or stress must be provided".to_owned());
        }
        Ok(())
    }
}

/// The days that a range names: 14, 30 or 90 for `14d`, `30d` and `90d`, and
/// 7 for everything else, a missing range included.
pub open spec fn range_days_of(range: Option<Seq<char>>) -> i64 {
    match range {
        Some(text) => if text == "14d"@ {
            14
        } else if text == "30d"@ {
            30
        } else if text == "90d"@ {
            90
        } else {
            7
        },
        None => 7,
    }
}

/// What an optional string stands for in contracts.
pub open spec fn text_of(s: Option<String>) -> Option<Seq<char>> {
    match s {
        Some(s) => Some(s@),
        None => None,
    }
}

impl MoodQuery {
    /// Number of days that the query covers.
    pub fn range_days(&self) -> (days: i64)
        ensures
            days == range_days_of(text_of(self.range)),
    {
        match &self.range {
            Some(text) => {
                if crate::text::same_text(text.as_str(), "14d") {
                    14
                } else if crate::text::same_text(text.as_str(), "30d") {
                    30
                } else if crate::text::same_text(text.as_str(), "90d") {
                    90
                } else {
                    7
                }
            },
            None => 7,
        }
    }
}

/// The first day of a list that is no ISO day of the week.
pub open spec fn first_bad_day(days: Seq<i16>) -> Option<i16>
    decreases days.len(),
{
    if days.len() == 0 {
        None
    } else if !(1 <= days[0] <= 7) {
        Some(days[0])
    } else {
        first_bad_day(days.drop_first())
    }
}

/// What is wrong with a schedule for a frequency, if anything is. A daily
/// habit has no schedule; chosen days are one to seven ISO days; a weekly
/// target is one to seven times.
pub open spec fn schedule_fault(frequency: Option<HabitFrequency>, schedule: Option<ScheduleView>) -> Option<
    Seq<char>,
> {
    let frequency = match frequency {
        Some(f) => f,
        None => HabitFrequency::Daily,
    };
    match frequency {
        HabitFrequency::Daily => if schedule is Some {
            Some("Daily habits should not have a schedule config"@)
        } else {
            None
        },
        HabitFrequency::WeeklyDays => match schedule {
            Some(ScheduleView::WeeklyDays { days }) => if days.len() == 0 || days.len() > 7 {
                Some("weekly_days requires 1-7 days"@)
            } else {
                match first_bad_day(days) {
                    Some(d) => Some("Day "@ + decimal_int(d as int) + " is invalid; must be 1-7 (Mon-Sun)"@),
                    None => None,
                }
            },
            _ => Some("weekly_days frequency requires schedule.days"@),
        },
        HabitFrequency::WeeklyTarget => match schedule {
            Some(ScheduleView::WeeklyTarget { times_per_week }) => if !(1 <= times_per_week <= 7) {
                Some("times_per_week must be 1-7"@)
            } else {
                None
            },
            _ => Some("weekly_target frequency requires schedule.times_per_week"@),
        },
    }
}

/// What an optional schedule stands for in contracts.
pub open spec fn schedule_of(s: Option<ScheduleConfig>) -> Option<ScheduleView> {
    match s {
        Some(s) => Some(s@),
        None => None,
    }
}

fn find_bad_day(days: &Vec<i16>) -> (bad: Option<i16>)
    ensures
        bad == first_bad_day(days@),
{
    let mut i: usize = 0;
    assert(days@.skip(0) =~= days@);
    while i < days.len()
        invariant
            i <= days@.len(),
            first_bad_day(days@) == first_bad_day(days@.skip(i as int)),
        decreases days@.len() - i,
    {
        let d = days[i];
        assert(days@.skip(i as int)[0] == d);
        if !(1 <= d && d <= 7) {
            return Some(d);
        }
        assert(days@.skip(i as int).drop_first() =~= days@.skip(i as int + 1));
        i += 1;
    }
    None
}

impl CreateHabitRequest {
    /// Checks that the schedule fits the frequency.
    pub fn validate_schedule(&self) -> (outcome: Result<(), String>)
        ensures
            match schedule_fault(self.frequency, schedule_of(self.schedule)) {
                Some(text) => fails_with(outcome, text),
                None => outcome is Ok,
            },
    {
        let frequency = match self.frequency {
            Some(f) => f,
            None => HabitFrequency::Daily,
        };
        match frequency {
            HabitFrequency::Daily => {
                if self.schedule.is_some() {
                    return Err("Daily habits should not have a schedule config".to_owned());
                }
            },
            HabitFrequency::WeeklyDays => match &self.schedule {
                Some(ScheduleConfig::WeeklyDays { days }) => {
                    if days.len() == 0 || days.len() > 7 {
                        return Err("weekly_days requires 1-7 days".to_owned());
                    }
                    match find_bad_day(days) {
                        Some(d) => {
                            let text = "Day ".to_owned().concat(decimal_i64(d as i64).as_str()).concat(
                                " is invalid; must be 1-7 (Mon-Sun)",
                            );
                            return Err(text);
                        },
                        None => {},
                    }
                },
                _ => {
                    return Err("weekly_days frequency requires schedule.days".to_owned());
                },
            },
            HabitFrequency::WeeklyTarget => match &self.schedule {
                Some(ScheduleConfig::WeeklyTarget { times_per_week }) => {
                    if !(1 <= *times_per_week && *times_per_week <= 7) {
                        return Err("times_per_week must be 1-7".to_owned());
                    }
                },
                _ => {
                    return Err("weekly_target frequency requires schedule.times_per_week".to_owned());
                },
            },
        }
        Ok(())
    }
}

/// Whether a day is today, yesterday or tomorrow.
pub open spec fn within_a_day(date: i32, today: i32) -> bool {
    -1 <= date - today <= 1
}

impl CompleteRequest {
    /// The day that the request is for, which has to be within one day of
    /// the server's today.
    pub fn validate_date(&self, server_today: i32) -> (outcome: Result<i32, String>)
        ensures
            ({
                let date = match self.date {
                    Some(d) => d,
                    None => server_today,
                };
                if within_a_day(date, server_today) {
                    outcome == Ok::<i32, String>(date)
                } else {
                    fails_with(outcome, "Date must be within ±1 day of today"@)
                }
            }),
    {
        let date = match self.date {
            Some(d) => d,
            None => server_today,
        };
        let diff: i64 = date as i64 - server_today as i64;
        if diff > 1 || diff < -1 {
            return Err("Date must be within ±1 day of today".to_owned());
        }
        Ok(date)
    }
}

/// Whether `-W` stands at place `i` of a text.
pub open spec fn is_week_mark(text: Seq<char>, i: int) -> bool {
    0 <= i && i + 1 < text.len() && text[i] == '-' && text[i + 1] == 'W'
}

/// Whether `-W` stands at place `p` and nowhere else.
pub open spec fn only_week_mark(text: Seq<char>, p: int) -> bool {
    is_week_mark(text, p) && forall|j: int| is_week_mark(text, j) ==> j == p
}

/// The year and week that a text of the form `YYYY-WNN` names: `-W` occurs
/// once, a signed 32-bit year stands before it and a week from 1 to 53
/// behind it, each written as `str::parse` reads an integer.
pub open spec fn parsed_week(text: Seq<char>) -> Option<(i32, u32)> {
    if exists|p: int| only_week_mark(text, p) {
        let p = choose|p: int| only_week_mark(text, p);
        match (
            parsed_signed(text.take(p), i32::MAX as nat),
            parsed_unsigned(text.skip(p + 2), u32::MAX as nat),
        ) {
            (Some(year), Some(week)) => if 1 <= week <= 53 {
                Some((year as i32, week as u32))
            } else {
                None
            },
            _ => None,
        }
    } else {
        None
    }
}

impl WeeklyReviewQuery {
    /// The year and week that the query names, or nothing where it names
    /// none or is not of the form `YYYY-WNN`.
    pub fn parse_week(&self) -> (week: Option<(i32, u32)>)
        ensures
            week == (match self.week {
                Some(text) => parsed_week(text@),
                None => None,
            }),
    {
        let text = match &self.week {
            Some(text) => text,
            None => {
                return None;
            },
        };
        let chars = chars_of(text.as_str());
        let n = chars.len();
        if n < 2 {
            assert forall|q: int| !only_week_mark(chars@, q) by {
                assert(!is_week_mark(chars@, q));
            }
            return None;
        }
        let mut mark: Option<usize> = None;
        let mut i: usize = 0;
        while i < n - 1
            invariant
                n == chars@.len(),
                2 <= n,
                i <= n - 1,
                self.week is Some,
                chars@ == self.week->Some_0@,
                mark matches Some(p) ==> p < i && is_week_mark(chars@, p as int),
                forall|j: int| 0 <= j < i && is_week_mark(chars@, j) ==> mark == Some(j as usize),
            decreases n - i,
        {
            if chars[i] == '-' && chars[i + 1] == 'W' {
                if mark.is_some() {
                    proof {
                        let first = mark->Some_0 as int;
                        let second = i as int;
                        assert(is_week_mark(chars@, first) && is_week_mark(chars@, second));
                        assert forall|p: int| !only_week_mark(chars@, p) by {
                            if only_week_mark(chars@, p) {
                                assert(first == p && second == p);
                            }
                        }
                    }
                    return None;
                }
                mark = Some(i);
            }
            i += 1;
        }
        let p = match mark {
            Some(p) => p,
            None => {
                assert forall|q: int| !only_week_mark(chars@, q) by {
                    if is_week_mark(chars@, q) {
                        assert(q < i);
                    }
                }
                return None;
            },
        };
        proof {
            assert(only_week_mark(chars@, p as int));
            let q = choose|q: int| only_week_mark(chars@, q);
            assert(q == p);
        }
        let before = sub_chars(&chars, 0, p);
        let after = sub_chars(&chars, p + 2, n);
        assert(before@ =~= chars@.take(p as int));
        assert(after@ =~= chars@.skip(p as int + 2));
        let year = read_signed(&before, 2147483647u128);
        let week = read_unsigned(&after, 4294967295u128);
        match (year, week) {
            (Some(year), Some(week)) => {
                if 1 <= week && week <= 53 {
                    Some((year as i32, week as u32))
                } else {
                    None
                }
            },
            _ => None,
        }
    }
}

} // verus!
