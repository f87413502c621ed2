use habitarc_api::config::{Config, ConfigSource};
use habitarc_api::error::AppError;
use habitarc_api::text::{
    chars_of, contains_char, decimal_i64, decimal_u128, decimal_u64, hex_encode, index_of, read_number,
    read_signed, read_unsigned, same_chars, same_text, strip_prefix, sub_chars,
};

fn source() -> ConfigSource {
    ConfigSource {
        database_url: Some("postgres://localhost/habitarc".to_string()),
        host: None,
        port: None,
        frontend_url: None,
        jwt_secret: Some("secret".to_string()),
        jwt_access_ttl_secs: None,
        jwt_refresh_ttl_secs: None,
        stripe_secret_key: None,
        stripe_webhook_secret: None,
        claude_api_key: None,
        claude_model: None,
        sentry_dsn: None,
        try_me_enabled: None,
        demo_ttl_secs: None,
        demo_max_insight_calls: None,
    }
}

fn text(s: &str) -> Option<String> {
    Some(s.to_string())
}

#[test]
fn settings_fall_back_to_their_defaults() {
    let config = Config::from_values(source()).unwrap();
    assert_eq!(config.database_url, "postgres://localhost/habitarc");
    assert_eq!(config.host, "0.0.0.0");
    assert_eq!(config.port, 8080);
    assert_eq!(config.frontend_url, "http://localhost:3000");
    assert_eq!(config.jwt_secret, "secret");
    assert_eq!(config.jwt_access_ttl_secs, 900);
    assert_eq!(config.jwt_refresh_ttl_secs, 604800);
    assert_eq!(config.stripe_secret_key, "");
    assert_eq!(config.stripe_webhook_secret, "");
    assert_eq!(config.claude_api_key, "");
    assert_eq!(config.claude_model, "");
    assert_eq!(config.sentry_dsn, None);
    assert!(config.try_me_enabled);
    assert_eq!(config.demo_ttl_secs, 7200);
    assert_eq!(config.demo_max_insight_calls, 2);
    assert_eq!(config.listen_addr(), "0.0.0.0:8080");
}

#[test]
fn settings_are_taken_where_they_are_given() {
    let mut given = source();
    given.host = text("127.0.0.1");
    given.port = text("+65535");
    given.frontend_url = text("https://app.example.com");
    given.jwt_access_ttl_secs = text("-5");
    given.jwt_refresh_ttl_secs = text("9223372036854775807");
    given.stripe_secret_key = text("sk");
    given.stripe_webhook_secret = text("wh");
    given.claude_api_key = text("key");
    given.claude_model = text("some-model");
    given.sentry_dsn = text("https://sentry.example.com/1");
    given.try_me_enabled = text("false");
    given.demo_ttl_secs = text("60");
    given.demo_max_insight_calls = text("-2147483648");
    let config = Config::from_values(given).unwrap();
    assert_eq!(config.host, "127.0.0.1");
    assert_eq!(config.port, 65535);
    assert_eq!(config.frontend_url, "https://app.example.com");
    assert_eq!(config.jwt_access_ttl_secs, -5);
    assert_eq!(config.jwt_refresh_ttl_secs, i64::MAX);
    assert_eq!(config.stripe_secret_key, "sk");
    assert_eq!(config.stripe_webhook_secret, "wh");
    assert_eq!(config.claude_api_key, "key");
    assert_eq!(config.claude_model, "some-model");
    assert_eq!(config.sentry_dsn.as_deref(), Some("https://sentry.example.com/1"));
    assert!(!config.try_me_enabled);
    assert_eq!(config.demo_ttl_secs, 60);
    assert_eq!(config.demo_max_insight_calls, i32::MIN);
    assert_eq!(config.listen_addr(), "127.0.0.1:65535");
}

#[test]
fn lenient_settings_ignore_what_they_cannot_read() {
    let mut given = source();
    given.sentry_dsn = text("");
    given.try_me_enabled = text("no");
    given.demo_ttl_secs = text("two hours");
    given.demo_max_insight_calls = text("2147483648");
    let config = Config::from_values(given).unwrap();
    assert_eq!(config.sentry_dsn, None);
    assert!(config.try_me_enabled);
    assert_eq!(config.demo_ttl_secs, 7200);
    assert_eq!(config.demo_max_insight_calls, 2);
    let mut given = source();
    given.try_me_enabled = text("true");
    assert!(Config::from_values(given).unwrap().try_me_enabled);
}

#[test]
fn strict_settings_are_faults_in_their_order() {
    let fault = |s: ConfigSource| Config::from_values(s).unwrap_err();
    let mut given = source();
    given.database_url = None;
    given.port = text("x");
    given.jwt_secret = None;
    assert_eq!(fault(given), "DATABASE_URL must be set");
    let mut given = source();
    given.port = text("65536");
    given.jwt_secret = None;
    assert_eq!(fault(given), "PORT must be a number");
    for bad in ["", "-1", "80 ", "0x50", "8080.0"] {
        let mut given = source();
        given.port = text(bad);
        assert_eq!(fault(given), "PORT must be a number");
    }
    let mut given = source();
    given.jwt_secret = None;
    given.jwt_access_ttl_secs = text("x");
    assert_eq!(fault(given), "JWT_SECRET must be set");
    let mut given = source();
    given.jwt_access_ttl_secs = text("9223372036854775808");
    given.jwt_refresh_ttl_secs = text("x");
    assert_eq!(fault(given), "JWT_ACCESS_TTL_SECS must be a number");
    let mut given = source();
    given.jwt_refresh_ttl_secs = text("-9223372036854775809");
    assert_eq!(fault(given), "JWT_REFRESH_TTL_SECS must be a number");
    let mut given = source();
    given.jwt_refresh_ttl_secs = text("-9223372036854775808");
    assert_eq!(Config::from_values(given).unwrap().jwt_refresh_ttl_secs, i64::MIN);
    let mut given = source();
    given.port = text("0");
    assert_eq!(Config::from_values(given).unwrap().port, 0);
}

#[test]
fn failures_and_how_they_are_shown() {
    let cases: Vec<(AppError, u16, &str, &str)> = vec![
        (AppError::Unauthorized, 401, "Authentication required", "Authentication required"),
        (AppError::Forbidden, 403, "Forbidden", "Forbidden"),
        (AppError::NotFound("Habit not found".into()), 404, "Habit not found", "Not found: Habit not found"),
        (AppError::Validation("bad".into()), 422, "bad", "Validation error: bad"),
        (AppError::Conflict("taken".into()), 409, "taken", "Conflict: taken"),
        (AppError::RateLimited(42), 429, "Rate limited", "Rate limited"),
        (AppError::Database("pool timed out".into()), 500, "Internal server error", "Database error: pool timed out"),
        (AppError::Internal("boom".into()), 500, "Internal server error", "Internal error: boom"),
    ];
    for (error, status, message, description) in cases {
        assert_eq!(error.status_code(), status);
        assert_eq!(error.message(), message);
        assert_eq!(error.to_string(), description);
    }
}

#[test]
fn numbers_in_decimal_and_bytes_in_hexadecimal() {
    assert_eq!(decimal_u64(0), "0");
    assert_eq!(decimal_u64(7), "7");
    assert_eq!(decimal_u64(10), "10");
    assert_eq!(decimal_u64(65535), "65535");
    assert_eq!(decimal_u64(u64::MAX), "18446744073709551615");
    assert_eq!(decimal_u128(0), "0");
    assert_eq!(decimal_u128(u128::MAX), "340282366920938463463374607431768211455");
    assert_eq!(decimal_i64(0), "0");
    assert_eq!(decimal_i64(-1), "-1");
    assert_eq!(decimal_i64(i64::MIN), "-9223372036854775808");
    assert_eq!(decimal_i64(i64::MAX), "9223372036854775807");
    assert_eq!(hex_encode(&[]), "");
    assert_eq!(hex_encode(&[0x00, 0x0f, 0xa0, 0xff]), "000fa0ff");
    assert_eq!(hex_encode(&[1, 2, 3, 15, 16]), "0102030f10");
    assert_eq!(hex_encode(b"Hello world!"), "48656c6c6f20776f726c6421");
    let every_byte: Vec<u8> = (0..=255).collect();
    assert_eq!(hex_encode(&every_byte), hex::encode(&every_byte));
}

#[test]
fn texts_are_cut_and_read() {
    assert_eq!(chars_of("aé😀"), vec!['a', 'é', '😀']);
    assert!(chars_of("").is_empty());
    assert!(same_text("abc", "abc"));
    assert!(!same_text("abc", "abd"));
    assert!(same_chars(&vec!['a'], &vec!['a']));
    assert!(!same_chars(&vec!['a'], &vec!['a', 'b']));
    assert!(!same_chars(&vec!['a', 'c'], &vec!['a', 'b']));
    assert_eq!(strip_prefix("Bearer abc", "Bearer "), Some("abc"));
    assert_eq!(strip_prefix("Bearer ", "Bearer "), Some(""));
    assert_eq!(strip_prefix("bearer abc", "Bearer "), None);
    assert_eq!(strip_prefix("Bear", "Bearer "), None);
    assert_eq!(strip_prefix("éa", "é"), Some("a"));
    assert_eq!(strip_prefix("abc", ""), Some("abc"));
    let chars = chars_of("a=b,c");
    assert!(contains_char(&chars, ','));
    assert!(!contains_char(&chars, '@'));
    assert_eq!(index_of(&chars, 0, 5, '='), 1);
    assert_eq!(index_of(&chars, 2, 5, '='), 5);
    assert_eq!(index_of(&chars, 0, 3, ','), 3);
    assert_eq!(index_of(&chars, 3, 3, ','), 3);
    assert_eq!(sub_chars(&chars, 2, 4), vec!['b', ',']);
    assert!(sub_chars(&chars, 5, 5).is_empty());
    assert_eq!(read_number(&chars_of("x123"), 1, 1000), Some(123));
    assert_eq!(read_number(&chars_of("x123"), 1, 122), None);
    assert_eq!(read_number(&chars_of("x123"), 0, 1000), None);
    assert_eq!(read_number(&chars_of("x"), 1, 1000), None);
    assert_eq!(read_number(&chars_of("0000"), 0, 0), Some(0));
    assert_eq!(read_unsigned(&chars_of("+5"), 5), Some(5));
    assert_eq!(read_unsigned(&chars_of("-5"), 5), None);
    assert_eq!(read_unsigned(&chars_of("+"), 5), None);
    assert_eq!(read_unsigned(&chars_of("++5"), 5), None);
    assert_eq!(read_signed(&chars_of("-6"), 5), Some(-6));
    assert_eq!(read_signed(&chars_of("-7"), 5), None);
    assert_eq!(read_signed(&chars_of("6"), 5), None);
    assert_eq!(read_signed(&chars_of("-"), 5), None);
    assert_eq!(read_signed(&chars_of("-+1"), 5), None);
    assert_eq!(read_signed(&chars_of("-0"), 5), Some(0));
}
