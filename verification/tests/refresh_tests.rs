use picoauth::{
    issue_access_token, issue_refresh_token, refresh, register, validate_access,
    verify_access_token, verify_refresh_token, RefreshOutcome, RegisterOutcome, RegisterUserDto,
    Store,
};

const NOW: u64 = 1_700_000_000;
const HOUR: u64 = 3_600;
const DAY: u64 = 86_400;
const WEEK: u64 = 604_800;

fn pepper() -> Vec<u8> {
    Vec::new()
}

fn key() -> Vec<u8> {
    b"an hmac key for the tests".to_vec()
}

fn store_with_alice() -> Store {
    let mut store = Store::new();
    let outcome = register(
        &mut store,
        RegisterUserDto {
            username: String::from("alice"),
            password: String::from("Sup3rSecret!"),
            email: None,
            display_name: None,
        },
        &pepper(),
    );
    assert_eq!(outcome, RegisterOutcome::Registered);
    store
}

#[test]
fn plenty_of_lifetime_left_renews_access_only() {
    let store = store_with_alice();
    let uid = store.users[0].id;
    let token = issue_refresh_token(&key(), uid, Some(NOW), NOW);
    // Refreshing right away leaves almost the whole week of lifetime: no
    // rotation, only a fresh access token.
    match refresh(&store, &token, &key(), NOW + 1) {
        RefreshOutcome::Renewed { access_token, refresh_token } => {
            assert!(refresh_token.is_none());
            let access = verify_access_token(&key(), &access_token, NOW + 1).expect("fresh");
            assert_eq!(access.auth_time, NOW);
            assert_eq!(access.preferred_username, "alice");
        },
        RefreshOutcome::Unauthorized => panic!("expected a renewal"),
    }
}

#[test]
fn ten_days_of_lifetime_left_renews_access_only() {
    let store = store_with_alice();
    let uid = store.users[0].id;
    // A well-signed refresh token expiring in ten days — longer-lived than
    // the codec itself issues, built directly with the signing crate.
    let mut claims = serde_json::Map::new();
    claims.insert("typ".to_string(), serde_json::Value::String("Refresh".to_string()));
    claims.insert("auth_time".to_string(), serde_json::Value::from(NOW));
    claims.insert("iat".to_string(), serde_json::Value::from(NOW));
    claims.insert("exp".to_string(), serde_json::Value::from(NOW + 10 * DAY));
    claims.insert("iss".to_string(), serde_json::Value::String("picoauth".to_string()));
    claims.insert("sub".to_string(), serde_json::Value::String(uid.to_string()));
    let token = jsonwebtoken::encode(
        &jsonwebtoken::Header::default(),
        &serde_json::Value::Object(claims),
        &jsonwebtoken::EncodingKey::from_secret(&key()),
    )
    .unwrap();
    match refresh(&store, &token, &key(), NOW) {
        RefreshOutcome::Renewed { refresh_token, .. } => assert!(refresh_token.is_none()),
        RefreshOutcome::Unauthorized => panic!("expected a renewal"),
    }
}

#[test]
fn under_a_day_left_rotates_the_refresh_token() {
    let store = store_with_alice();
    let uid = store.users[0].id;
    let token = issue_refresh_token(&key(), uid, Some(NOW), NOW);
    // 23 hours of lifetime left.
    let later = NOW + WEEK - 23 * HOUR;
    match refresh(&store, &token, &key(), later) {
        RefreshOutcome::Renewed { access_token, refresh_token } => {
            let access = verify_access_token(&key(), &access_token, later).expect("fresh");
            // The original authentication time is kept across rotation.
            assert_eq!(access.auth_time, NOW);
            let rotated = refresh_token.expect("rotation is due under one day");
            let claims = verify_refresh_token(&key(), &rotated, later).expect("fresh");
            assert_eq!(claims.auth_time, NOW);
            assert_eq!(claims.iat, later);
            assert_eq!(claims.exp, later + WEEK);
        },
        RefreshOutcome::Unauthorized => panic!("expected a renewal"),
    }
}

#[test]
fn exactly_a_day_left_does_not_rotate() {
    let store = store_with_alice();
    let uid = store.users[0].id;
    let token = issue_refresh_token(&key(), uid, Some(NOW), NOW);
    let later = NOW + WEEK - DAY;
    match refresh(&store, &token, &key(), later) {
        RefreshOutcome::Renewed { refresh_token, .. } => assert!(refresh_token.is_none()),
        RefreshOutcome::Unauthorized => panic!("expected a renewal"),
    }
}

#[test]
fn revoked_but_signature_valid_token_is_rejected() {
    let mut store = store_with_alice();
    let uid = store.users[0].id;
    let token = issue_refresh_token(&key(), uid, Some(NOW), NOW);
    store.revoke(token.clone(), NOW);
    // The signature still verifies; revocation alone refuses it.
    assert!(verify_refresh_token(&key(), &token, NOW).is_some());
    assert!(matches!(refresh(&store, &token, &key(), NOW), RefreshOutcome::Unauthorized));
}

#[test]
fn revocation_is_idempotent() {
    let mut store = store_with_alice();
    let token = issue_refresh_token(&key(), 1, Some(NOW), NOW);
    store.revoke(token.clone(), NOW);
    let after_first = store.revoked.len();
    store.revoke(token.clone(), NOW + 5);
    assert_eq!(store.revoked.len(), after_first);
}

#[test]
fn expired_or_foreign_tokens_are_rejected() {
    let store = store_with_alice();
    let uid = store.users[0].id;
    let token = issue_refresh_token(&key(), uid, Some(NOW), NOW);
    assert!(matches!(
        refresh(&store, &token, &key(), NOW + WEEK + 1),
        RefreshOutcome::Unauthorized
    ));
    let foreign_key: Vec<u8> = b"another key".to_vec();
    let foreign = issue_refresh_token(&foreign_key, uid, Some(NOW), NOW);
    assert!(matches!(refresh(&store, &foreign, &key(), NOW), RefreshOutcome::Unauthorized));
    let garbage = String::from("not.a.token");
    assert!(matches!(refresh(&store, &garbage, &key(), NOW), RefreshOutcome::Unauthorized));
}

#[test]
fn access_token_is_not_a_refresh_token() {
    let store = store_with_alice();
    let uid = store.users[0].id;
    let access = issue_access_token(&key(), uid, "alice", None, None, None, NOW, NOW);
    assert!(matches!(refresh(&store, &access, &key(), NOW), RefreshOutcome::Unauthorized));
}

#[test]
fn signed_token_with_foreign_subject_is_rejected() {
    let store = store_with_alice();
    // A correctly signed refresh token whose subject is not an account id —
    // built directly with the signing crate, as a compromised client would.
    let mut claims = serde_json::Map::new();
    claims.insert("typ".to_string(), serde_json::Value::String("Refresh".to_string()));
    claims.insert("auth_time".to_string(), serde_json::Value::from(NOW));
    claims.insert("iat".to_string(), serde_json::Value::from(NOW));
    claims.insert("exp".to_string(), serde_json::Value::from(NOW + WEEK));
    claims.insert("iss".to_string(), serde_json::Value::String("picoauth".to_string()));
    claims.insert("sub".to_string(), serde_json::Value::String("not-a-number".to_string()));
    let token = jsonwebtoken::encode(
        &jsonwebtoken::Header::default(),
        &serde_json::Value::Object(claims),
        &jsonwebtoken::EncodingKey::from_secret(&key()),
    )
    .unwrap();
    // The decode stage accepts it — the shape is right...
    let decoded = verify_refresh_token(&key(), &token, NOW).expect("well-signed, well-shaped");
    assert_eq!(decoded.sub, "not-a-number");
    // ...but the orchestrator refuses the subject.
    assert!(matches!(refresh(&store, &token, &key(), NOW), RefreshOutcome::Unauthorized));
}

#[test]
fn vanished_account_is_rejected() {
    let store = Store::new();
    let token = issue_refresh_token(&key(), 42, Some(NOW), NOW);
    assert!(matches!(refresh(&store, &token, &key(), NOW), RefreshOutcome::Unauthorized));
}

#[test]
fn validate_checks_revocation_and_expiry() {
    let mut store = store_with_alice();
    let uid = store.users[0].id;
    let access = issue_access_token(&key(), uid, "alice", None, None, None, NOW, NOW);
    assert!(validate_access(&store, &access, &key(), NOW));
    assert!(validate_access(&store, &access, &key(), NOW + HOUR));
    assert!(!validate_access(&store, &access, &key(), NOW + HOUR + 1));
    store.revoke(access.clone(), NOW);
    assert!(!validate_access(&store, &access, &key(), NOW));
}
