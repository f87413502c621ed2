use habitarc_api::error::AppError;
use habitarc_api::handlers::daily_logs::{log_date, validate_scores};
use habitarc_api::handlers::demo::{demo_expiry, demo_only, seconds_remaining};
use habitarc_api::handlers::habits::{
    check_new_habit, compute_is_due_today, delete_habit, habit_defaults, is_complete, max_habits,
    next_sort_order,
};
use habitarc_api::handlers::health::{health_check, readiness};
use habitarc_api::handlers::insights::{
    build_prompt, fallback_improvements, fallback_wins, habit_line, insight_source,
    insight_without_habits, join_lines, longest_running_streak, month_percent,
    strongest_and_weakest, streak_analysis, InsightSource,
};
use habitarc_api::models::daily_log::UpsertDailyLogRequest;
use habitarc_api::models::habit::{CreateHabitRequest, FrequencyConfig, Habit, HabitFrequency};
use habitarc_api::models::user::{
    RemindersEntitlement, SubscriptionStatus, SubscriptionTier, User, UserEntitlements, UserProfile,
};

fn habit(frequency: HabitFrequency, days: Option<Vec<Option<i64>>>) -> Habit {
    Habit {
        id: 1,
        user_id: 1,
        name: "Read".to_string(),
        description: None,
        color: String::new(),
        icon: String::new(),
        frequency,
        frequency_config: FrequencyConfig { days, times_per_week: None },
        target_per_day: 1,
        reminder_time: None,
        is_archived: false,
        sort_order: 0,
        current_streak: 0,
        longest_streak: 0,
        total_completions: 0,
        created_at: 0,
        updated_at: 0,
    }
}

#[test]
fn habits_due_on_a_day() {
    let tuesday = 739657;
    assert!(compute_is_due_today(&habit(HabitFrequency::Daily, None), tuesday));
    assert!(compute_is_due_today(&habit(HabitFrequency::Daily, Some(vec![Some(1)])), tuesday));
    assert!(compute_is_due_today(&habit(HabitFrequency::WeeklyTarget, Some(vec![])), tuesday));
    assert!(compute_is_due_today(&habit(HabitFrequency::WeeklyDays, None), tuesday));
    assert!(!compute_is_due_today(&habit(HabitFrequency::WeeklyDays, Some(vec![])), tuesday));
    let mwf = Some(vec![Some(1), Some(3), Some(5)]);
    assert!(!compute_is_due_today(&habit(HabitFrequency::WeeklyDays, mwf.clone()), tuesday));
    assert!(compute_is_due_today(&habit(HabitFrequency::WeeklyDays, mwf.clone()), tuesday - 1));
    assert!(compute_is_due_today(&habit(HabitFrequency::WeeklyDays, mwf), tuesday + 1));
    let odd = Some(vec![None, Some(9), Some(7)]);
    assert!(compute_is_due_today(&habit(HabitFrequency::WeeklyDays, odd.clone()), tuesday + 5));
    assert!(!compute_is_due_today(&habit(HabitFrequency::WeeklyDays, odd), tuesday));
    assert!(is_complete(1, 1));
    assert!(is_complete(3, 1));
    assert!(!is_complete(0, 1));
}

fn create(name: &str) -> CreateHabitRequest {
    CreateHabitRequest {
        name: name.to_string(),
        description: None,
        color: None,
        icon: None,
        frequency: None,
        frequency_config: None,
        target_per_day: None,
        reminder_time: None,
    }
}

#[test]
fn new_habits_and_their_limits() {
    assert_eq!(max_habits(SubscriptionTier::Free), Some(3));
    assert_eq!(max_habits(SubscriptionTier::Plus), Some(15));
    assert_eq!(max_habits(SubscriptionTier::Pro), None);
    match check_new_habit(&create(""), SubscriptionTier::Pro, 0) {
        Err(AppError::Validation(text)) => assert_eq!(text, "Habit name is required"),
        other => panic!("unexpected outcome: {:?}", other),
    }
    assert!(check_new_habit(&create("Read"), SubscriptionTier::Free, 2).is_ok());
    assert!(matches!(
        check_new_habit(&create("Read"), SubscriptionTier::Free, 3),
        Err(AppError::Forbidden)
    ));
    assert!(check_new_habit(&create("Read"), SubscriptionTier::Plus, 14).is_ok());
    assert!(matches!(
        check_new_habit(&create("Read"), SubscriptionTier::Plus, 15),
        Err(AppError::Forbidden)
    ));
    assert!(check_new_habit(&create("Read"), SubscriptionTier::Pro, i64::MAX).is_ok());
    assert_eq!(next_sort_order(None), 1);
    assert_eq!(next_sort_order(Some(0)), 1);
    assert_eq!(next_sort_order(Some(41)), 42);
    let filled = habit_defaults(&create("Read"));
    assert_eq!(filled.color, "#6366f1");
    assert_eq!(filled.icon, "target");
    assert_eq!(filled.frequency, HabitFrequency::Daily);
    assert_eq!(filled.target_per_day, 1);
    let mut body = create("Read");
    body.color = Some("#000000".to_string());
    body.icon = Some("brain".to_string());
    body.frequency = Some(HabitFrequency::WeeklyTarget);
    body.target_per_day = Some(4);
    let filled = habit_defaults(&body);
    assert_eq!(filled.color, "#000000");
    assert_eq!(filled.icon, "brain");
    assert_eq!(filled.frequency, HabitFrequency::WeeklyTarget);
    assert_eq!(filled.target_per_day, 4);
    assert!(delete_habit(1).is_ok());
    match delete_habit(0) {
        Err(AppError::NotFound(text)) => assert_eq!(text, "Habit not found"),
        other => panic!("unexpected outcome: {:?}", other),
    }
}

fn log(mood: Option<i32>, energy: Option<i32>, stress: Option<i32>) -> UpsertDailyLogRequest {
    UpsertDailyLogRequest { log_date: None, mood, energy, stress, note: None }
}

#[test]
fn scores_of_a_daily_log() {
    let fault = |body: UpsertDailyLogRequest| match validate_scores(&body) {
        Err(AppError::Validation(text)) => text,
        other => panic!("unexpected outcome: {:?}", other),
    };
    assert!(validate_scores(&log(None, None, None)).is_ok());
    assert!(validate_scores(&log(Some(1), Some(5), Some(3))).is_ok());
    assert_eq!(fault(log(Some(0), Some(9), Some(9))), "Mood must be between 1 and 5");
    assert_eq!(fault(log(Some(6), None, None)), "Mood must be between 1 and 5");
    assert_eq!(fault(log(None, Some(0), Some(9))), "Energy must be between 1 and 5");
    assert_eq!(fault(log(Some(5), Some(1), Some(6))), "Stress must be between 1 and 5");
    assert_eq!(log_date(&log(None, None, None), 77), 77);
    let mut body = log(None, None, None);
    body.log_date = Some(5);
    assert_eq!(log_date(&body, 77), 5);
}

#[test]
fn life_of_a_demo() {
    assert!(matches!(demo_expiry(false, 7200, 100), Err(AppError::Forbidden)));
    assert!(matches!(demo_expiry(true, 7200, 100), Ok(7300)));
    assert!(matches!(demo_expiry(true, i64::MAX, 1), Err(AppError::Internal(_))));
    assert!(demo_only(true).is_ok());
    assert!(matches!(demo_only(false), Err(AppError::Forbidden)));
    assert_eq!(seconds_remaining(None, 5), 0);
    assert_eq!(seconds_remaining(Some(3605), 5), 3600);
    assert_eq!(seconds_remaining(Some(5), 5), 0);
    assert_eq!(seconds_remaining(Some(4), 5), 0);
    assert_eq!(seconds_remaining(Some(i64::MAX), i64::MIN), i64::MAX);
    assert_eq!(seconds_remaining(Some(i64::MIN), i64::MAX), 0);
}

#[test]
fn probes() {
    let ready = readiness(true);
    assert_eq!((ready.status_code, ready.status.as_str(), ready.database.as_str()), (200, "ready", "ok"));
    let down = readiness(false);
    assert_eq!(
        (down.status_code, down.status.as_str(), down.database.as_str()),
        (503, "not_ready", "failed")
    );
    assert_eq!(health_check(), ("ok".to_string(), "habitarc-api".to_string()));
}

#[test]
fn question_put_to_the_model() {
    assert_eq!(
        habit_line("Read", 3, 12, 1),
        "- Read (streak: 3, completions last 30d: 12, target/day: 1)"
    );
    assert_eq!(
        habit_line("", -1, 0, -2),
        "-  (streak: -1, completions last 30d: 0, target/day: -2)"
    );
    assert_eq!(join_lines(&vec![]), "");
    assert_eq!(join_lines(&vec!["a".to_string()]), "a");
    assert_eq!(join_lines(&vec!["a".to_string(), "".to_string(), "b".to_string()]), "a\n\nb");
    let lines = vec![habit_line("Read", 3, 12, 1), habit_line("Run", 0, 2, 2)];
    let prompt = build_prompt(&lines, 14);
    let expected = "You are a habit coaching AI. Analyze this user's habit data from the last 30 days and provide actionable insights.\n\nHabits:\n- Read (streak: 3, completions last 30d: 12, target/day: 1)\n- Run (streak: 0, completions last 30d: 2, target/day: 2)\n\nTotal completions in period: 14\n\nProvide a JSON response with this exact schema:\n{\n  \"summary\": \"2-3 sentence progress summary\",\n  \"wins\": [\"specific win 1\", \"specific win 2\"],\n  \"improvements\": [\"actionable suggestion 1\", \"actionable suggestion 2\", \"actionable suggestion 3\"],\n  \"mood_correlation\": \"correlation insight or null\",\n  \"streak_analysis\": \"pattern analysis\",\n  \"tip_of_the_week\": \"one specific tip\"\n}";
    assert_eq!(prompt, expected);
    assert_eq!(insight_source(false, false), InsightSource::Model);
    assert_eq!(insight_source(false, true), InsightSource::Model);
    assert_eq!(insight_source(true, true), InsightSource::Model);
    assert_eq!(insight_source(true, false), InsightSource::Fallback);
}

#[test]
fn fallback_texts() {
    assert_eq!(
        streak_analysis(8),
        "Your longest active streak is 8 days. Streaks above 7 days indicate strong habit formation."
    );
    assert_eq!(
        streak_analysis(7),
        "Your longest active streak is 7 days. Focus on not breaking the chain."
    );
    assert_eq!(
        streak_analysis(1),
        "Your longest active streak is 1 days. Focus on not breaking the chain."
    );
    assert_eq!(
        streak_analysis(0),
        "No active streaks. Complete a habit today to start building momentum."
    );
    assert_eq!(
        streak_analysis(-4),
        "No active streaks. Complete a habit today to start building momentum."
    );
    let insight = insight_without_habits();
    assert_eq!(
        insight.summary,
        "You haven't created any habits yet. Start by adding a habit to track!"
    );
    assert!(insight.wins.is_empty());
    assert_eq!(insight.improvements, vec!["Create your first habit to get started"]);
    assert_eq!(insight.mood_correlation, None);
    assert_eq!(insight.streak_analysis, "No data available yet.");
    assert_eq!(
        insight.tip_of_the_week,
        "Start small — one habit, done consistently, beats five habits done sporadically."
    );
    assert_eq!(insight.source, "fallback");
}

#[test]
fn shares_of_thirty_days_round_as_their_fractions_do() {
    assert_eq!(month_percent(0), 0);
    assert_eq!(month_percent(1), 3);
    assert_eq!(month_percent(2), 7);
    assert_eq!(month_percent(3), 10);
    assert_eq!(month_percent(15), 50);
    assert_eq!(month_percent(16), 53);
    assert_eq!(month_percent(30), 100);
    assert_eq!(month_percent(u64::MAX), (20 * (u64::MAX as u128) + 3) / 6);
    for count in 0u64..5000 {
        let rate = count as f64 / 30.0;
        assert_eq!(month_percent(count).to_string(), format!("{:.0}", rate * 100.0));
        assert_eq!(count > 15, rate > 0.5);
        assert_eq!(count < 15, rate < 0.5);
    }
}

#[test]
fn fallback_praise_and_suggestions() {
    assert_eq!(strongest_and_weakest(&vec![3]), (0, 0));
    assert_eq!(strongest_and_weakest(&vec![3, 9, 9, 1, 1, 4]), (1, 4));
    assert_eq!(strongest_and_weakest(&vec![2, 2, 2]), (0, 2));
    assert_eq!(longest_running_streak(&vec![0]), 0);
    assert_eq!(longest_running_streak(&vec![1, 7, 7, 3]), 2);
    assert_eq!(longest_running_streak(&vec![-1, -5]), 0);
    assert_eq!(
        fallback_wins("Read", 16, 4, "Run"),
        vec![
            "Read completed 53% of the time — great consistency!",
            "4-day streak on Run — keep it going!"
        ]
    );
    assert_eq!(fallback_wins("Read", 15, 1, "Run"), vec!["1-day streak on Run — keep it going!"]);
    assert_eq!(
        fallback_wins("Read", 30, 0, "Run"),
        vec!["Read completed 100% of the time — great consistency!"]
    );
    assert!(fallback_wins("Read", 0, -3, "Run").is_empty());
    assert_eq!(
        fallback_improvements("Run", 14),
        vec![
            "Try setting a reminder for Run to improve your 47% rate.",
            "Consider pairing a difficult habit with one you enjoy.",
            "Track at the same time each day to build automaticity."
        ]
    );
    assert_eq!(
        fallback_improvements("Run", 15),
        vec![
            "Consider pairing a difficult habit with one you enjoy.",
            "Track at the same time each day to build automaticity."
        ]
    );
    assert_eq!(
        fallback_improvements("", 0)[0],
        "Try setting a reminder for  to improve your 0% rate."
    );
}

#[test]
fn entitlements_of_each_tier() {
    let free = UserEntitlements::for_tier(&SubscriptionTier::Free);
    assert_eq!(free.max_habits, Some(3));
    assert_eq!(free.schedule_types, vec!["daily"]);
    assert_eq!(free.analytics_days, 7);
    assert_eq!(free.heatmap_months, 1);
    assert_eq!(free.ai_insights_per_week, None);
    assert_eq!(free.reminders, RemindersEntitlement::Limited(1));
    assert!(!free.data_export);
    let plus = UserEntitlements::for_tier(&SubscriptionTier::Plus);
    assert_eq!(plus.max_habits, Some(15));
    assert_eq!(plus.schedule_types, vec!["daily", "weekly_days", "weekly_target"]);
    assert_eq!(plus.analytics_days, 30);
    assert_eq!(plus.heatmap_months, 6);
    assert_eq!(plus.ai_insights_per_week, Some(1));
    assert_eq!(plus.reminders, RemindersEntitlement::Unlimited);
    assert!(!plus.data_export);
    let pro = UserEntitlements::for_tier(&SubscriptionTier::Pro);
    assert_eq!(pro.max_habits, None);
    assert_eq!(pro.schedule_types, vec!["daily", "weekly_days", "weekly_target"]);
    assert_eq!(pro.analytics_days, 365);
    assert_eq!(pro.heatmap_months, 12);
    assert_eq!(pro.ai_insights_per_week, None);
    assert_eq!(pro.reminders, RemindersEntitlement::Unlimited);
    assert!(pro.data_export);
    assert_eq!(SubscriptionTier::default(), SubscriptionTier::Free);
    assert_eq!(SubscriptionStatus::default(), SubscriptionStatus::Inactive);
    assert_eq!(HabitFrequency::default(), HabitFrequency::Daily);
}

#[test]
fn profile_of_a_user() {
    let user = User {
        id: 9,
        email: Some("a@b.com".to_string()),
        password_hash: Some("$hash".to_string()),
        name: "Ada".to_string(),
        avatar_url: None,
        is_guest: false,
        guest_token: Some(4),
        is_demo: true,
        demo_expires_at: Some(77),
        demo_insight_calls_used: 1,
        timezone: "UTC".to_string(),
        stripe_customer_id: Some("cus_1".to_string()),
        subscription_tier: SubscriptionTier::Plus,
        subscription_status: SubscriptionStatus::Trialing,
        created_at: 5,
        updated_at: 6,
    };
    let profile = UserProfile::from_user(user);
    assert_eq!(profile.id, 9);
    assert_eq!(profile.email.as_deref(), Some("a@b.com"));
    assert_eq!(profile.name, "Ada");
    assert_eq!(profile.avatar_url, None);
    assert!(!profile.is_guest);
    assert!(profile.is_demo);
    assert_eq!(profile.demo_expires_at, Some(77));
    assert_eq!(profile.timezone, "UTC");
    assert_eq!(profile.subscription_tier, SubscriptionTier::Plus);
    assert_eq!(profile.subscription_status, SubscriptionStatus::Trialing);
    assert_eq!(profile.entitlements.max_habits, Some(15));
    assert_eq!(profile.entitlements.heatmap_months, 6);
    assert_eq!(profile.created_at, 5);
}
