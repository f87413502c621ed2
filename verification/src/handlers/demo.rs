//! Demo sessions: what a visitor gets to try the service, and how a demo
//! becomes a registered account.

use vstd::prelude::*;
use crate::error::{invalid_with, AppError, AppResult};
use crate::handlers::completions::{
    current_streak, current_streak_from, longest_run, longest_streak, reversed,
};
use crate::models::habit::HabitFrequency;
use crate::text::{chars_of, contains_char, has_char};

verus! {

/// Body of a demo's start.
#[derive(Debug)]
pub struct StartDemoRequest {
    pub timezone: Option<String>,
}

/// What a demo's start returns.
#[derive(Debug)]
pub struct DemoStartResponse {
    pub access_token: String,
    pub expires_in: i64,
    /// The end of the demo as an RFC 3339 instant.
    pub demo_expires_at: String,
}

/// The state of a demo.
#[derive(Debug)]
pub struct DemoStatusResponse {
    pub is_demo: bool,
    pub demo_expires_at: Option<String>,
    pub seconds_remaining: i64,
    pub insight_calls_used: i32,
    pub insight_calls_max: i32,
    pub habits_count: i64,
    pub completions_count: i64,
}

/// Body of the conversion of a demo into an account.
#[derive(Debug)]
pub struct ConvertDemoRequest {
    pub email: String,
    pub password: String,
    pub name: String,
}

/// What a conversion returns.
#[derive(Debug)]
pub struct ConvertDemoResponse {
    pub access_token: String,
    pub refresh_token: String,
    pub expires_in: i64,
    pub migrated_habits: i64,
    pub migrated_completions: i64,
    pub migrated_streaks: bool,
}

/// Number of bytes that a text takes in UTF-8.
pub open spec fn byte_len(text: Seq<char>) -> nat {
    vstd::utf8::encode_utf8(text).len()
}

/// The shape that an address must have at the least: an `@`, a dot, and
/// five bytes or more.
pub open spec fn email_shaped(email: Seq<char>) -> bool {
    has_char(email, '@') && has_char(email, '.') && byte_len(email) >= 5
}

/// Whether an address has the shape of one.
pub fn is_valid_email(email: &str) -> (valid: bool)
    ensures
        valid == email_shaped(email@),
{
    let chars = chars_of(email);
    contains_char(&chars, '@') && contains_char(&chars, '.') && email.as_bytes().len() >= 5
}

/// What is wrong with a conversion request, if anything is: all three
/// fields are needed and the password has eight bytes or more; then the
/// address must have the shape of one.
pub open spec fn conversion_fault(
    email: Seq<char>,
    password: Seq<char>,
    name: Seq<char>,
) -> Option<Seq<char>> {
    if email.len() == 0 || byte_len(password) < 8 || name.len() == 0 {
        Some("Email, name required; password must be ≥ 8 characters"@)
    } else if !email_shaped(email) {
        Some("Invalid email format"@)
    } else {
        None
    }
}

/// Checks the body of a conversion before anything is looked up.
pub fn validate_conversion(body: &ConvertDemoRequest) -> (outcome: AppResult<()>)
    ensures
        match conversion_fault(body.email@, body.password@, body.name@) {
            Some(text) => invalid_with(outcome, text),
            None => outcome is Ok,
        },
{
    if body.email.as_str().is_empty() || body.password.as_str().as_bytes().len() < 8 || body.name.as_str().is_empty() {
        return Err(
            AppError::Validation("Email, name required; password must be ≥ 8 characters".to_owned()),
        );
    }
    if !is_valid_email(body.email.as_str()) {
        return Err(AppError::Validation("Invalid email format".to_owned()));
    }
    Ok(())
}

/// The days of the two weeks before today on which the demo's exercise habit
/// was completed, counted from the day two weeks ago.
pub open spec fn exercise_offsets() -> Seq<i32> {
    seq![0, 1, 2, 3, 5, 6, 7, 9, 10, 13]
}

/// The days on which the demo's meditation habit was completed.
pub open spec fn meditate_offsets() -> Seq<i32> {
    seq![0, 2, 4, 6, 8, 11, 13]
}

/// The days on which the demo's reading habit was completed.
pub open spec fn read_offsets() -> Seq<i32> {
    seq![1, 3, 6, 8, 13]
}

/// The offsets of the demo's exercise completions.
pub fn exercise_days() -> (days: Vec<i32>)
    ensures
        days@ == exercise_offsets(),
{
    let days = vec![0, 1, 2, 3, 5, 6, 7, 9, 10, 13];
    assert(days@ =~= exercise_offsets());
    days
}

/// The offsets of the demo's meditation completions.
pub fn meditate_days() -> (days: Vec<i32>)
    ensures
        days@ == meditate_offsets(),
{
    let days = vec![0, 2, 4, 6, 8, 11, 13];
    assert(days@ =~= meditate_offsets());
    days
}

/// The offsets of the demo's reading completions.
pub fn read_days() -> (days: Vec<i32>)
    ensures
        days@ == read_offsets(),
{
    let days = vec![1, 3, 6, 8, 13];
    assert(days@ =~= read_offsets());
    days
}

/// One day of the demo's mood log.
#[derive(Debug, Clone, Copy, PartialEq, Eq, Structural)]
pub struct SeedMood {
    pub days_ago: i32,
    pub mood: i32,
    pub energy: i32,
    pub stress: i32,
}

/// Whether a score is on the scale from one to five.
pub open spec fn on_scale(score: int) -> bool {
    1 <= score <= 5
}

/// The mood log of a demo, today first.
pub open spec fn seed_mood_table() -> Seq<SeedMood> {
    seq![
        SeedMood { days_ago: 0, mood: 4, energy: 3, stress: 2 },
        SeedMood { days_ago: 1, mood: 3, energy: 4, stress: 3 },
        SeedMood { days_ago: 2, mood: 4, energy: 4, stress: 2 },
        SeedMood { days_ago: 3, mood: 3, energy: 2, stress: 4 },
        SeedMood { days_ago: 4, mood: 5, energy: 5, stress: 1 },
        SeedMood { days_ago: 5, mood: 3, energy: 3, stress: 3 },
        SeedMood { days_ago: 6, mood: 4, energy: 4, stress: 2 },
    ]
}

/// The seeded mood log covers the last seven days, one entry a day, and
/// every score in it is on the scale.
pub proof fn lemma_seed_moods_are_on_scale()
    ensures
        seed_mood_table().len() == 7,
        forall|i: int| 0 <= i < 7 ==> (#[trigger] seed_mood_table()[i]).days_ago == i,
        forall|i: int|
            0 <= i < 7 ==> on_scale((#[trigger] seed_mood_table()[i]).mood as int) && on_scale(
                seed_mood_table()[i].energy as int,
            ) && on_scale(seed_mood_table()[i].stress as int),
{
}

/// The mood log that a demo starts with.
pub fn seed_moods() -> (moods: Vec<SeedMood>)
    ensures
        moods@ == seed_mood_table(),
{
    let moods = vec![
        SeedMood { days_ago: 0, mood: 4, energy: 3, stress: 2 },
        SeedMood { days_ago: 1, mood: 3, energy: 4, stress: 3 },
        SeedMood { days_ago: 2, mood: 4, energy: 4, stress: 2 },
        SeedMood { days_ago: 3, mood: 3, energy: 2, stress: 4 },
        SeedMood { days_ago: 4, mood: 5, energy: 5, stress: 1 },
        SeedMood { days_ago: 5, mood: 3, energy: 3, stress: 3 },
        SeedMood { days_ago: 6, mood: 4, energy: 4, stress: 2 },
    ];
    assert(moods@ =~= seed_mood_table());
    moods
}

// ---------------------------------------------------------------------------
// The life of a demo
// ---------------------------------------------------------------------------

/// Days that the seeded completions reach back.
pub const SEED_DAYS: i32 = 14;

/// Whether a demo may begin, and when it ends: demos can be switched off,
/// and one that begins at `now` lasts `ttl_secs` seconds.
pub fn demo_expiry(try_me_enabled: bool, ttl_secs: i64, now: i64) -> (outcome: AppResult<i64>)
    ensures
        !try_me_enabled ==> outcome matches Err(AppError::Forbidden),
        try_me_enabled && i64::MIN <= now + ttl_secs <= i64::MAX ==> outcome == Ok::<i64, AppError>(
            (now + ttl_secs) as i64,
        ),
        try_me_enabled && !(i64::MIN <= now + ttl_secs <= i64::MAX) ==> outcome matches Err(
            AppError::Internal(_),
        ),
{
    if !try_me_enabled {
        return Err(AppError::Forbidden);
    }
    match now.checked_add(ttl_secs) {
        Some(at) => Ok(at),
        None => Err(AppError::Internal("Demo lifetime is out of range".to_owned())),
    }
}

/// Only the caller of a demo session may use the demo's endpoints.
pub fn demo_only(is_demo: bool) -> (outcome: AppResult<()>)
    ensures
        is_demo ==> outcome is Ok,
        !is_demo ==> outcome matches Err(AppError::Forbidden),
{
    if is_demo {
        Ok(())
    } else {
        Err(AppError::Forbidden)
    }
}

/// Seconds that a demo has left at `now`: none once it has ended, and none
/// where it has no end.
pub open spec fn seconds_left(demo_expires_at: Option<i64>, now: i64) -> int {
    match demo_expires_at {
        Some(at) => if at - now > 0 {
            at - now
        } else {
            0
        },
        None => 0,
    }
}

/// Seconds that a demo has left at `now`, capped at what `i64` holds.
pub fn seconds_remaining(demo_expires_at: Option<i64>, now: i64) -> (left: i64)
    ensures
        seconds_left(demo_expires_at, now) <= i64::MAX ==> left == seconds_left(demo_expires_at, now),
        seconds_left(demo_expires_at, now) > i64::MAX ==> left == i64::MAX,
{
    match demo_expires_at {
        Some(at) => {
            let left: i128 = at as i128 - now as i128;
            if left <= 0 {
                0
            } else if left > i64::MAX as i128 {
                i64::MAX
            } else {
                left as i64
            }
        },
        None => 0,
    }
}

// ---------------------------------------------------------------------------
// What a demo is seeded with
// ---------------------------------------------------------------------------

/// One of the habits that a demo starts with.
#[derive(Debug)]
pub struct SeedHabit {
    pub name: String,
    pub color: String,
    pub icon: String,
    pub frequency: HabitFrequency,
    /// The chosen ISO days of a habit that is due on days of the week.
    pub days: Vec<i64>,
}

/// Whether a seeded habit has this name, color, icon, frequency and days.
pub open spec fn seeded_as(
    habit: SeedHabit,
    name: Seq<char>,
    color: Seq<char>,
    icon: Seq<char>,
    frequency: HabitFrequency,
    days: Seq<i64>,
) -> bool {
    &&& habit.name@ == name
    &&& habit.color@ == color
    &&& habit.icon@ == icon
    &&& habit.frequency == frequency
    &&& habit.days@ == days
}

/// The three habits of a demo: exercise and meditation daily, reading on
/// Monday, Wednesday and Friday.
pub fn seed_habits() -> (habits: Vec<SeedHabit>)
    ensures
        habits@.len() == 3,
        seeded_as(habits@[0], "Exercise"@, "#ef4444"@, "dumbbell"@, HabitFrequency::Daily, Seq::empty()),
        seeded_as(habits@[1], "Meditate"@, "#8b5cf6"@, "brain"@, HabitFrequency::Daily, Seq::empty()),
        seeded_as(habits@[2], "Read"@, "#3b82f6"@, "book-open"@, HabitFrequency::WeeklyDays, seq![1i64, 3, 5]),
{
    let mut habits: Vec<SeedHabit> = Vec::new();
    habits.push(
        SeedHabit {
            name: "Exercise".to_owned(),
            color: "#ef4444".to_owned(),
            icon: "dumbbell".to_owned(),
            frequency: HabitFrequency::Daily,
            days: Vec::new(),
        },
    );
    habits.push(
        SeedHabit {
            name: "Meditate".to_owned(),
            color: "#8b5cf6".to_owned(),
            icon: "brain".to_owned(),
            frequency: HabitFrequency::Daily,
            days: Vec::new(),
        },
    );
    let days: Vec<i64> = vec![1, 3, 5];
    assert(days@ =~= seq![1i64, 3, 5]);
    habits.push(
        SeedHabit {
            name: "Read".to_owned(),
            color: "#3b82f6".to_owned(),
            icon: "book-open".to_owned(),
            frequency: HabitFrequency::WeeklyDays,
            days,
        },
    );
    habits
}

/// The day that lies `SEED_DAYS - offset` days before `today`.
pub open spec fn seed_day(today: int, offset: int) -> int {
    today - (SEED_DAYS - offset)
}

/// The days of the seeded completions of one habit, from its offsets.
pub fn seed_dates(today: i32, offsets: &Vec<i32>) -> (dates: Vec<i32>)
    requires
        today >= i32::MIN + SEED_DAYS,
        forall|i: int| 0 <= i < offsets@.len() ==> 0 <= #[trigger] offsets@[i] <= SEED_DAYS,
    ensures
        dates@.len() == offsets@.len(),
        forall|i: int| 0 <= i < dates@.len() ==> #[trigger] dates@[i] == seed_day(today as int, offsets@[i] as int),
{
    let mut dates: Vec<i32> = Vec::new();
    let mut i: usize = 0;
    while i < offsets.len()
        invariant
            i <= offsets@.len(),
            today >= i32::MIN + SEED_DAYS,
            forall|k: int| 0 <= k < offsets@.len() ==> 0 <= #[trigger] offsets@[k] <= SEED_DAYS,
            dates@.len() == i,
            forall|k: int| 0 <= k < i ==> #[trigger] dates@[k] == seed_day(today as int, offsets@[k] as int),
        decreases offsets@.len() - i,
    {
        let offset = offsets[i];
        dates.push(today - (SEED_DAYS - offset));
        i += 1;
    }
    dates
}

/// The current streak as of `today`, from the distinct days with a
/// completion listed earliest first.
pub fn compute_current_streak(dates: &Vec<i32>, today: i32) -> (streak: i32)
    requires
        dates@.len() <= i32::MAX,
    ensures
        streak == current_streak_from(dates@.reverse(), today as int),
{
    let latest_first = reversed(dates);
    current_streak(&latest_first, today)
}

/// The longest streak, from the distinct days with a completion listed
/// earliest first.
pub fn compute_longest_streak(dates: &Vec<i32>) -> (longest: i32)
    requires
        dates@.len() <= i32::MAX,
    ensures
        longest == longest_run(dates@, dates@.len() as int),
{
    longest_streak(dates)
}

} // verus!
