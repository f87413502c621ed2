use habitarc_api::auth::rate_limit::{
    RateLimitState, Window, DEMO_MAX_REQUESTS, DEMO_WINDOW_SECS, MAX_REQUESTS, NANOS_PER_SEC,
    WINDOW_SECS,
};

const SEC: u128 = NANOS_PER_SEC;

#[test]
fn test_rate_limit_allows_under_limit() {
    let mut limiter = RateLimitState::new();

    for i in 0..MAX_REQUESTS {
        let result = limiter.check("test_key");
        assert!(result.is_ok(), "Request {} should be allowed", i + 1);
    }
}

#[test]
fn test_rate_limit_blocks_over_limit() {
    let mut limiter = RateLimitState::new();

    // Exhaust the limit
    for _ in 0..MAX_REQUESTS {
        let _ = limiter.check("test_key");
    }

    // Next request should be blocked
    let result = limiter.check("test_key");
    assert!(result.is_err(), "Request over limit should be blocked");
}

#[test]
fn test_different_keys_have_separate_limits() {
    let mut limiter = RateLimitState::new();

    // Exhaust limit for key1
    for _ in 0..MAX_REQUESTS {
        let _ = limiter.check("key1");
    }

    // key2 should still be allowed
    let result = limiter.check("key2");
    assert!(result.is_ok(), "Different key should have separate limit");
}

#[test]
fn five_are_admitted_and_the_sixth_waits() {
    let mut limiter = RateLimitState::new();
    let start = 1000 * SEC;
    for i in 0..5u32 {
        let outcome = limiter.check_with_limits_at("1.2.3.4:/login", 5, 60, start + i as u128 * SEC);
        assert_eq!(outcome, Ok(4 - i));
    }
    let outcome = limiter.check_with_limits_at("1.2.3.4:/login", 5, 60, start + 10 * SEC);
    assert_eq!(outcome, Err(50 * SEC));
    let wait = outcome.unwrap_err();
    assert!(wait > 0 && wait <= 60 * SEC);
    assert_eq!(limiter.check_with_limits_at("5.6.7.8:/login", 5, 60, start + 10 * SEC), Ok(4));
    assert_eq!(limiter.check_with_limits_at("1.2.3.4:/register", 5, 60, start + 10 * SEC), Ok(4));
    assert_eq!(
        limiter.window("1.2.3.4:/login"),
        Some(Window { count: 5, window_start: start, window_secs: 60 })
    );
}

#[test]
fn window_rolls_over_only_after_it_has_passed() {
    let mut limiter = RateLimitState::new();
    assert_eq!(limiter.check_with_limits_at("k", 1, 60, 0), Ok(0));
    assert_eq!(limiter.check_with_limits_at("k", 1, 60, 59 * SEC), Err(SEC));
    assert_eq!(limiter.check_with_limits_at("k", 1, 60, 60 * SEC), Err(0));
    assert_eq!(limiter.check_with_limits_at("k", 1, 60, 60 * SEC + 1), Ok(0));
    assert_eq!(
        limiter.window("k"),
        Some(Window { count: 1, window_start: 60 * SEC + 1, window_secs: 60 })
    );
    assert_eq!(limiter.check_with_limits_at("k", 1, 60, 60 * SEC + 2), Err(60 * SEC - 1));
}

#[test]
fn a_refused_check_does_not_count() {
    let mut limiter = RateLimitState::new();
    assert_eq!(limiter.check_with_limits_at("k", 2, 60, 5), Ok(1));
    assert_eq!(limiter.check_with_limits_at("k", 2, 60, 6), Ok(0));
    for _ in 0..10 {
        assert!(limiter.check_with_limits_at("k", 2, 60, 7).is_err());
    }
    assert_eq!(limiter.window("k"), Some(Window { count: 2, window_start: 5, window_secs: 60 }));
    assert_eq!(limiter.len(), 1);
}

#[test]
fn zero_budget_admits_nothing() {
    let mut limiter = RateLimitState::new();
    assert_eq!(limiter.check_with_limits_at("k", 0, 60, 7), Err(60 * SEC));
    assert_eq!(limiter.window("k"), Some(Window { count: 0, window_start: 7, window_secs: 60 }));
}

#[test]
fn earlier_instant_counts_as_no_time_passed() {
    let mut limiter = RateLimitState::new();
    assert_eq!(limiter.check_with_limits_at("k", 1, 60, 100 * SEC), Ok(0));
    assert_eq!(limiter.check_with_limits_at("k", 1, 60, 50 * SEC), Err(60 * SEC));
}

#[test]
fn demo_policy_is_three_per_hour() {
    assert_eq!(DEMO_MAX_REQUESTS, 3);
    assert_eq!(DEMO_WINDOW_SECS, 3600);
    assert_eq!(MAX_REQUESTS, 5);
    assert_eq!(WINDOW_SECS, 60);
    let mut limiter = RateLimitState::new();
    for i in 0..3u32 {
        let outcome =
            limiter.check_with_limits_at("demo:1.2.3.4", DEMO_MAX_REQUESTS, DEMO_WINDOW_SECS, 0);
        assert_eq!(outcome, Ok(2 - i));
    }
    let outcome = limiter.check_with_limits_at(
        "demo:1.2.3.4",
        DEMO_MAX_REQUESTS,
        DEMO_WINDOW_SECS,
        1800 * SEC,
    );
    assert_eq!(outcome, Err(1800 * SEC));
    assert!(limiter.check_with_limits("demo:9.9.9.9", 3, 3600).is_ok());
}

#[test]
fn two_checks_for_one_slot_admit_exactly_one() {
    for (first, second) in [(0u128, 0u128), (0, 1), (5, 5 + 60 * SEC)] {
        let mut limiter = RateLimitState::new();
        let a = limiter.check_with_limits_at("1.2.3.4:/login", 1, 60, first);
        let b = limiter.check_with_limits_at("1.2.3.4:/login", 1, 60, second);
        assert_eq!([a.is_ok(), b.is_ok()].iter().filter(|ok| **ok).count(), 1);
        assert!(a.is_ok());
    }
    let mut limiter = RateLimitState::new();
    let a = limiter.check_with_limits("1.2.3.4:/login", 1, 60);
    let b = limiter.check_with_limits("1.2.3.4:/login", 1, 60);
    assert!(a.is_ok() && b.is_err());
}

#[test]
fn two_checks_behind_one_lock_admit_exactly_one() {
    let limiter = std::sync::Mutex::new(RateLimitState::new());
    let first = limiter.lock().unwrap().check_with_limits("1.2.3.4:/login", 1, 60).is_ok();
    let second = limiter.lock().unwrap().check_with_limits("1.2.3.4:/login", 1, 60).is_ok();
    assert_eq!([first, second].iter().filter(|ok| **ok).count(), 1);
}

#[test]
fn sweep_drops_only_what_is_two_windows_old() {
    let mut limiter = RateLimitState::new();
    assert!(limiter.check_with_limits_at("old", 5, 60, 0).is_ok());
    assert!(limiter.check_with_limits_at("edge", 5, 60, 1).is_ok());
    assert!(limiter.check_with_limits_at("young", 5, 60, 100 * SEC).is_ok());
    assert_eq!(limiter.len(), 3);
    limiter.cleanup_at(120 * SEC);
    assert_eq!(limiter.window("old"), None);
    assert_eq!(limiter.window("edge"), Some(Window { count: 1, window_start: 1, window_secs: 60 }));
    assert_eq!(limiter.window("young"), Some(Window { count: 1, window_start: 100 * SEC, window_secs: 60 }));
    assert_eq!(limiter.len(), 2);
    limiter.cleanup_at(220 * SEC);
    assert_eq!(limiter.len(), 0);
    limiter.cleanup();
    assert_eq!(limiter.len(), 0);
}

#[test]
fn sweep_goes_by_the_window_of_each_counter() {
    let mut limiter = RateLimitState::new();
    for _ in 0..3 {
        assert!(limiter.check_with_limits_at("demo:1.2.3.4", 3, 3600, 0).is_ok());
    }
    assert!(limiter.check_with_limits_at("1.2.3.4:/login", 5, 60, 0).is_ok());
    limiter.cleanup_at(120 * SEC);
    assert_eq!(limiter.window("1.2.3.4:/login"), None);
    assert_eq!(
        limiter.window("demo:1.2.3.4"),
        Some(Window { count: 3, window_start: 0, window_secs: 3600 })
    );
    assert_eq!(
        limiter.check_with_limits_at("demo:1.2.3.4", 3, 3600, 121 * SEC),
        Err(3479 * SEC)
    );
    limiter.cleanup_at(7200 * SEC - 1);
    assert_eq!(limiter.len(), 1);
    limiter.cleanup_at(7200 * SEC);
    assert_eq!(limiter.len(), 0);
}

#[test]
fn sweep_does_not_change_what_a_check_returns() {
    for sweep in [false, true] {
        for (at, expected) in [(60 * SEC, Err(0)), (60 * SEC + 1, Ok(0)), (200 * SEC, Ok(0))] {
            let mut limiter = RateLimitState::new();
            assert_eq!(limiter.check_with_limits_at("k", 1, 60, 0), Ok(0));
            if sweep {
                limiter.cleanup_at(at);
            }
            assert_eq!(limiter.check_with_limits_at("k", 1, 60, at), expected);
        }
    }
}

#[test]
fn window_length_follows_the_last_check() {
    let mut limiter = RateLimitState::new();
    assert_eq!(limiter.check_with_limits_at("k", 2, 60, 0), Ok(1));
    assert_eq!(limiter.check_with_limits_at("k", 2, 10, 5 * SEC), Ok(0));
    assert_eq!(
        limiter.window("k"),
        Some(Window { count: 2, window_start: 0, window_secs: 10 })
    );
    assert_eq!(RateLimitState::default().len(), 0);
}

#[test]
fn clock_of_a_limiter_does_not_run_backwards() {
    let limiter = RateLimitState::new();
    let a = limiter.now();
    let b = limiter.now();
    assert!(a <= b);
}
