use habitarc_api::auth::jwt::{create_access_token_at, hash_token, verify_token_at, TokenType};
use habitarc_api::auth::ledger::RefreshLedger;
use habitarc_api::config::Config;
use habitarc_api::error::AppError;
use habitarc_api::handlers::auth::{
    issue_token_pair, issue_token_pair_at, logout, logout_at, refresh, refresh_at,
    revoke_all_user_tokens, store_refresh_token_pub, RefreshRequest,
};

const U1: u128 = 0x11111111_1111_4111_8111_111111111111;
const U2: u128 = 0x22222222_2222_4222_8222_222222222222;
const NOW: i64 = 1_700_000_000;

fn config() -> Config {
    Config {
        database_url: String::new(),
        host: "0.0.0.0".to_string(),
        port: 8080,
        frontend_url: String::new(),
        jwt_secret: "test-secret".to_string(),
        jwt_access_ttl_secs: 900,
        jwt_refresh_ttl_secs: 604800,
        stripe_secret_key: String::new(),
        stripe_webhook_secret: String::new(),
        claude_api_key: String::new(),
        claude_model: String::new(),
        sentry_dsn: None,
        try_me_enabled: true,
        demo_ttl_secs: 7200,
        demo_max_insight_calls: 2,
    }
}

fn body(token: &str) -> RefreshRequest {
    RefreshRequest { refresh_token: token.to_string() }
}

#[test]
fn issuing_files_the_digest_and_never_the_token() {
    let cfg = config();
    let mut ledger = RefreshLedger::new();
    let pair = issue_token_pair_at(&mut ledger, U1, "u1@example.com", &cfg, None, NOW, 7, 100).unwrap();
    assert_eq!(ledger.len(), 1);
    let record = ledger.record_at(0).unwrap();
    assert_eq!(record.id, 100);
    assert_eq!(record.user_id, U1);
    assert_eq!(record.token_hash, hash_token(&pair.refresh_token));
    assert_ne!(record.token_hash, pair.refresh_token);
    assert_eq!(record.expires_at, NOW + 604800);
    assert_eq!(record.created_at, NOW);
    assert!(!record.revoked);
    assert_eq!(record.revoked_at, None);
    assert_eq!(record.parent_token_id, None);
    assert_eq!(ledger.lookup(&pair.refresh_token).unwrap().id, 100);
    assert!(ledger.lookup(&pair.access_token).is_none());
}

#[test]
fn rotation_revokes_the_old_record_and_chains_the_new_one() {
    let cfg = config();
    let mut ledger = RefreshLedger::new();
    let first = issue_token_pair_at(&mut ledger, U1, "u1@example.com", &cfg, None, NOW, 7, 100).unwrap();
    let second = refresh_at(&mut ledger, &body(&first.refresh_token), &cfg, NOW + 10, 8, 101).unwrap();
    assert_eq!(ledger.len(), 2);
    let old = ledger.get(100).unwrap();
    assert!(old.revoked);
    assert_eq!(old.revoked_at, Some(NOW + 10));
    let new = ledger.get(101).unwrap();
    assert!(!new.revoked);
    assert_eq!(new.user_id, U1);
    assert_eq!(new.parent_token_id, Some(100));
    assert_eq!(new.token_hash, hash_token(&second.refresh_token));
    assert_eq!(second.expires_in, 900);
    let claims = verify_token_at(&second.refresh_token, &cfg, NOW + 10).unwrap();
    assert_eq!(claims.sub, U1);
    assert_eq!(claims.email, "u1@example.com");
    assert_eq!(claims.jti, Some(8));
    assert_eq!(claims.token_type, TokenType::Refresh);
    let access = verify_token_at(&second.access_token, &cfg, NOW + 10).unwrap();
    assert_eq!(access.token_type, TokenType::Access);
    assert_eq!(access.sub, U1);
}

#[test]
fn presenting_a_token_twice_revokes_the_family() {
    let cfg = config();
    let mut ledger = RefreshLedger::new();
    let first = issue_token_pair_at(&mut ledger, U1, "u1@example.com", &cfg, None, NOW, 7, 100).unwrap();
    let other_device = issue_token_pair_at(&mut ledger, U1, "u1@example.com", &cfg, None, NOW, 9, 200).unwrap();
    let stranger = issue_token_pair_at(&mut ledger, U2, "u2@example.com", &cfg, None, NOW, 10, 300).unwrap();
    assert!(refresh_at(&mut ledger, &body(&first.refresh_token), &cfg, NOW + 10, 8, 101).is_ok());
    let replay = refresh_at(&mut ledger, &body(&first.refresh_token), &cfg, NOW + 20, 11, 102);
    assert!(matches!(replay, Err(AppError::Unauthorized)));
    assert_eq!(ledger.len(), 4);
    for id in [100u128, 101, 200] {
        assert!(ledger.get(id).unwrap().revoked);
    }
    assert_eq!(ledger.get(100).unwrap().revoked_at, Some(NOW + 10));
    assert_eq!(ledger.get(101).unwrap().revoked_at, Some(NOW + 20));
    assert_eq!(ledger.get(200).unwrap().revoked_at, Some(NOW + 20));
    assert!(!ledger.get(300).unwrap().revoked);
    assert!(ledger.get(102).is_none());

    // none of the subject's other tokens rotates any more
    let attempt = refresh_at(&mut ledger, &body(&other_device.refresh_token), &cfg, NOW + 30, 12, 103);
    assert!(matches!(attempt, Err(AppError::Unauthorized)));
    assert_eq!(ledger.len(), 4);
    // another subject is unaffected
    assert!(refresh_at(&mut ledger, &body(&stranger.refresh_token), &cfg, NOW + 30, 13, 301).is_ok());
}

#[test]
fn replaying_the_first_token_after_two_rotations_revokes_both_children() {
    let cfg = config();
    let mut ledger = RefreshLedger::new();
    let first = issue_token_pair_at(&mut ledger, U1, "u1@example.com", &cfg, None, NOW, 1, 10).unwrap();
    let r1 = refresh_at(&mut ledger, &body(&first.refresh_token), &cfg, NOW + 1, 2, 11).unwrap();
    assert_eq!(ledger.get(11).unwrap().parent_token_id, Some(10));
    let r2 = refresh_at(&mut ledger, &body(&r1.refresh_token), &cfg, NOW + 2, 3, 12).unwrap();
    assert_eq!(ledger.get(12).unwrap().parent_token_id, Some(11));
    assert!(ledger.get(10).unwrap().revoked);
    assert!(ledger.get(11).unwrap().revoked);
    assert!(!ledger.get(12).unwrap().revoked);

    let replay = refresh_at(&mut ledger, &body(&first.refresh_token), &cfg, NOW + 3, 4, 13);
    assert!(matches!(replay, Err(AppError::Unauthorized)));
    assert!(ledger.get(11).unwrap().revoked);
    assert!(ledger.get(12).unwrap().revoked);
    assert_eq!(ledger.get(12).unwrap().revoked_at, Some(NOW + 3));
    assert_eq!(ledger.get(11).unwrap().revoked_at, Some(NOW + 2));
    assert_eq!(ledger.len(), 3);
    assert!(matches!(
        refresh_at(&mut ledger, &body(&r2.refresh_token), &cfg, NOW + 4, 5, 14),
        Err(AppError::Unauthorized)
    ));
}

#[test]
fn access_token_is_refused_as_refresh_token() {
    let cfg = config();
    let mut ledger = RefreshLedger::new();
    let pair = issue_token_pair_at(&mut ledger, U1, "u1@example.com", &cfg, None, NOW, 7, 100).unwrap();
    let outcome = refresh_at(&mut ledger, &body(&pair.access_token), &cfg, NOW, 8, 101);
    assert!(matches!(outcome, Err(AppError::Unauthorized)));
    assert_eq!(ledger.len(), 1);
    assert!(!ledger.get(100).unwrap().revoked);
    // even when its digest is on file
    let access = create_access_token_at(U1, "u1@example.com", &cfg, NOW + 1).unwrap();
    assert!(ledger.store_at(U1, &access, 900, None, 500, NOW).is_ok());
    let outcome = refresh_at(&mut ledger, &body(&access), &cfg, NOW + 2, 8, 101);
    assert!(matches!(outcome, Err(AppError::Unauthorized)));
    assert!(!ledger.get(500).unwrap().revoked);
}

#[test]
fn expired_refresh_token_fails_before_the_ledger_is_consulted() {
    let cfg = config();
    let mut ledger = RefreshLedger::new();
    let first = issue_token_pair_at(&mut ledger, U1, "u1@example.com", &cfg, None, NOW, 7, 100).unwrap();
    let second = issue_token_pair_at(&mut ledger, U1, "u1@example.com", &cfg, None, NOW + 5, 9, 200).unwrap();
    let outcome = refresh_at(&mut ledger, &body(&first.refresh_token), &cfg, NOW + 604800, 8, 101);
    assert!(matches!(outcome, Err(AppError::Unauthorized)));
    assert!(!ledger.get(100).unwrap().revoked);
    // a revoked and expired token does not trigger the guard either
    ledger.revoke(100, NOW + 6);
    let outcome = refresh_at(&mut ledger, &body(&first.refresh_token), &cfg, NOW + 604800, 8, 101);
    assert!(matches!(outcome, Err(AppError::Unauthorized)));
    assert!(!ledger.get(200).unwrap().revoked);
    assert!(refresh_at(&mut ledger, &body(&second.refresh_token), &cfg, NOW + 604800, 8, 101).is_ok());
}

#[test]
fn unknown_and_foreign_refresh_tokens_are_refused() {
    let cfg = config();
    let mut ledger = RefreshLedger::new();
    let mut elsewhere = RefreshLedger::new();
    let unfiled = issue_token_pair_at(&mut elsewhere, U1, "u1@example.com", &cfg, None, NOW, 7, 100).unwrap();
    let outcome = refresh_at(&mut ledger, &body(&unfiled.refresh_token), &cfg, NOW, 8, 101);
    assert!(matches!(outcome, Err(AppError::Unauthorized)));
    assert_eq!(ledger.len(), 0);

    // the record filed under the digest belongs to another subject
    assert_eq!(
        ledger.store_at(U2, &unfiled.refresh_token, 604800, None, 300, NOW).unwrap(),
        300
    );
    let outcome = refresh_at(&mut ledger, &body(&unfiled.refresh_token), &cfg, NOW, 8, 101);
    assert!(matches!(outcome, Err(AppError::Unauthorized)));
    assert_eq!(ledger.len(), 1);
    assert!(!ledger.get(300).unwrap().revoked);
}

#[test]
fn logout_ends_every_session_of_the_subject() {
    let cfg = config();
    let mut ledger = RefreshLedger::new();
    let a = issue_token_pair_at(&mut ledger, U1, "", &cfg, None, NOW, 1, 10).unwrap();
    let b = issue_token_pair_at(&mut ledger, U1, "", &cfg, None, NOW, 2, 20).unwrap();
    let c = issue_token_pair_at(&mut ledger, U2, "", &cfg, None, NOW, 3, 30).unwrap();
    assert_eq!(logout_at(&mut ledger, U1, NOW + 1), "Logged out successfully");
    assert!(ledger.get(10).unwrap().revoked);
    assert!(ledger.get(20).unwrap().revoked);
    assert!(!ledger.get(30).unwrap().revoked);
    assert_eq!(ledger.len(), 3);
    for token in [&a.refresh_token, &b.refresh_token] {
        assert!(matches!(
            refresh_at(&mut ledger, &body(token), &cfg, NOW + 2, 4, 40),
            Err(AppError::Unauthorized)
        ));
    }
    assert!(refresh_at(&mut ledger, &body(&c.refresh_token), &cfg, NOW + 2, 4, 40).is_ok());
}

#[test]
fn revocation_is_idempotent() {
    let mut ledger = RefreshLedger::new();
    assert_eq!(ledger.store_at(U1, "raw-one", 60, None, 1, NOW).unwrap(), 1);
    ledger.revoke(1, NOW + 1);
    ledger.revoke(1, NOW + 2);
    ledger.revoke(99, NOW + 3);
    let record = ledger.get(1).unwrap();
    assert!(record.revoked);
    assert_eq!(record.revoked_at, Some(NOW + 1));
    ledger.revoke_all_for_subject(U1, NOW + 4);
    assert_eq!(ledger.get(1).unwrap().revoked_at, Some(NOW + 1));
    assert_eq!(ledger.len(), 1);
}

#[test]
fn store_refuses_duplicates_and_overflow() {
    let mut ledger = RefreshLedger::new();
    assert_eq!(ledger.store_at(U1, "raw-one", 60, None, 1, NOW).unwrap(), 1);
    assert!(matches!(ledger.store_at(U1, "raw-two", 60, None, 1, NOW), Err(AppError::Database(_))));
    assert!(matches!(ledger.store_at(U2, "raw-one", 60, None, 2, NOW), Err(AppError::Database(_))));
    assert!(matches!(
        ledger.store_at(U1, "raw-three", i64::MAX, None, 3, NOW),
        Err(AppError::Database(_))
    ));
    assert_eq!(ledger.len(), 1);
    assert_eq!(ledger.store_at(U1, "raw-two", 60, Some(1), 2, NOW).unwrap(), 2);
    assert_eq!(ledger.record_at(1).unwrap().parent_token_id, Some(1));
    assert!(ledger.record_at(2).is_none());
    assert!(ledger.lookup("raw-zero").is_none());
    assert_eq!(ledger.lookup_digest(&hash_token("raw-two")).unwrap().id, 2);
}

#[test]
fn sessions_against_the_clock() {
    let cfg = config();
    let mut ledger = RefreshLedger::new();
    let first = issue_token_pair(&mut ledger, U1, "u1@example.com", &cfg, None).unwrap();
    assert_eq!(ledger.len(), 1);
    let second = refresh(&mut ledger, &body(&first.refresh_token), &cfg).unwrap();
    assert_eq!(ledger.len(), 2);
    let parent = ledger.record_at(0).unwrap();
    let child = ledger.record_at(1).unwrap();
    assert!(parent.revoked);
    assert_eq!(child.parent_token_id, Some(parent.id));
    assert_eq!(child.token_hash, hash_token(&second.refresh_token));
    assert!(matches!(
        refresh(&mut ledger, &body(&first.refresh_token), &cfg),
        Err(AppError::Unauthorized)
    ));
    assert!(ledger.record_at(1).unwrap().revoked);
    assert!(matches!(refresh(&mut ledger, &body("junk"), &cfg), Err(AppError::Unauthorized)));

    let third = issue_token_pair(&mut ledger, U2, "", &cfg, None).unwrap();
    assert_eq!(logout(&mut ledger, U2), "Logged out successfully");
    assert!(ledger.lookup(&third.refresh_token).unwrap().revoked);
    let id = store_refresh_token_pub(&mut ledger, U2, "some-raw-token", 60, None).unwrap();
    assert!(!ledger.get(id).unwrap().revoked);
    revoke_all_user_tokens(&mut ledger, U2);
    assert!(ledger.get(id).unwrap().revoked);
    let stored = ledger.store(U2, "another-raw-token", 60, Some(id)).unwrap();
    assert_eq!(ledger.get(stored).unwrap().parent_token_id, Some(id));
}
