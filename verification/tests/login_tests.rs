use picoauth::{
    hash, login, register, verify_access_token, verify_refresh_token, Account, LoginOutcome,
    RegisterOutcome, RegisterUserDto, Store, UserLoginDto,
};

const NOW: u64 = 1_700_000_000;

fn pepper() -> Vec<u8> {
    Vec::new()
}

fn key() -> Vec<u8> {
    b"an hmac key for the tests".to_vec()
}

fn dto(username: &str, password: &str, totp: Option<&str>) -> UserLoginDto {
    UserLoginDto {
        username: String::from(username),
        password: String::from(password),
        totp: totp.map(String::from),
    }
}

fn store_with_alice() -> Store {
    let mut store = Store::new();
    let outcome = register(
        &mut store,
        RegisterUserDto {
            username: String::from("alice"),
            password: String::from("Sup3rSecret!"),
            email: Some(String::from("alice@example.org")),
            display_name: Some(String::from("Alice Wonder")),
        },
        &pepper(),
    );
    assert_eq!(outcome, RegisterOutcome::Registered);
    store
}

#[test]
fn correct_password_yields_both_tokens() {
    let store = store_with_alice();
    let outcome = login(&store, &dto("alice", "Sup3rSecret!", None), &pepper(), &key(), NOW);
    match outcome {
        LoginOutcome::Success { access_token, refresh_token } => {
            let access = verify_access_token(&key(), &access_token, NOW).expect("fresh token");
            assert_eq!(access.preferred_username, "alice");
            assert_eq!(access.nickname, "Alice Wonder");
            assert_eq!(access.email.as_deref(), Some("alice@example.org"));
            // Email on file but never verified.
            assert_eq!(access.email_verified, Some(false));
            assert_eq!(access.auth_time, NOW);
            let refresh = verify_refresh_token(&key(), &refresh_token, NOW).expect("fresh token");
            assert_eq!(refresh.auth_time, NOW);
            assert_eq!(refresh.sub, access.sub);
        },
        other => panic!("expected tokens, got {:?}", outcome_name(&other)),
    }
}

fn outcome_name(o: &LoginOutcome) -> &'static str {
    match o {
        LoginOutcome::Success { .. } => "Success",
        LoginOutcome::WrongCredentials => "WrongCredentials",
        LoginOutcome::SecondFactorRequired => "SecondFactorRequired",
        LoginOutcome::SecondFactorNotApplicable => "SecondFactorNotApplicable",
    }
}

#[test]
fn wrong_password_and_unknown_user_look_the_same() {
    let store = store_with_alice();
    let wrong_pw = login(&store, &dto("alice", "WrongPass1!", None), &pepper(), &key(), NOW);
    let unknown = login(&store, &dto("mallory", "Sup3rSecret!", None), &pepper(), &key(), NOW);
    assert!(matches!(wrong_pw, LoginOutcome::WrongCredentials));
    assert!(matches!(unknown, LoginOutcome::WrongCredentials));
}

#[test]
fn username_lookup_is_case_insensitive() {
    let store = store_with_alice();
    let outcome = login(&store, &dto("ALICE", "Sup3rSecret!", None), &pepper(), &key(), NOW);
    assert!(matches!(outcome, LoginOutcome::Success { .. }));
}

#[test]
fn ambiguous_username_folds_into_wrong_credentials() {
    let mut store = store_with_alice();
    store.users.push(Account {
        id: 999,
        username: String::from("Alice"),
        password_hash: hash(&pepper(), "Sup3rSecret!"),
        display_name: None,
        email: None,
        email_verified_at: None,
        requires_second_factor: false,
        totp_secret: None,
    });
    let outcome = login(&store, &dto("alice", "Sup3rSecret!", None), &pepper(), &key(), NOW);
    assert!(matches!(outcome, LoginOutcome::WrongCredentials));
}

fn store_with_second_factor(secret: &[u8]) -> Store {
    let mut store = Store::new();
    store.users.push(Account {
        id: 1,
        username: String::from("carol"),
        password_hash: hash(&pepper(), "Sup3rSecret!"),
        display_name: None,
        email: None,
        email_verified_at: None,
        requires_second_factor: true,
        totp_secret: Some(secret.to_vec()),
    });
    store
}

fn reference_code(secret: &[u8], time: u64) -> String {
    let rfc = totp_rs::Rfc6238::with_defaults(secret.to_vec()).unwrap();
    let totp = totp_rs::TOTP::from_rfc6238(rfc).unwrap();
    totp.generate(time)
}

#[test]
fn second_factor_flow() {
    let secret = b"0123456789abcdefghij";
    let store = store_with_second_factor(secret);
    let code = reference_code(secret, NOW);

    // No code: a distinct prompt, safe to surface.
    let missing = login(&store, &dto("carol", "Sup3rSecret!", None), &pepper(), &key(), NOW);
    assert!(matches!(missing, LoginOutcome::SecondFactorRequired));

    // Wrong code with the right password: same signal as a wrong password.
    let wrong_code = if code == "000000" { "111111" } else { "000000" };
    let wrong = login(
        &store,
        &dto("carol", "Sup3rSecret!", Some(wrong_code)),
        &pepper(),
        &key(),
        NOW,
    );
    assert!(matches!(wrong, LoginOutcome::WrongCredentials));
    let wrong_pw = login(&store, &dto("carol", "WrongPass1!", None), &pepper(), &key(), NOW);
    assert_eq!(outcome_name(&wrong), outcome_name(&wrong_pw));

    // Right password and the current step's code: tokens.
    let ok = login(&store, &dto("carol", "Sup3rSecret!", Some(&code)), &pepper(), &key(), NOW);
    assert!(matches!(ok, LoginOutcome::Success { .. }));
}

#[test]
fn code_without_second_factor_is_its_own_signal() {
    let store = store_with_alice();
    let outcome = login(
        &store,
        &dto("alice", "Sup3rSecret!", Some("123456")),
        &pepper(),
        &key(),
        NOW,
    );
    assert!(matches!(outcome, LoginOutcome::SecondFactorNotApplicable));
}

#[test]
fn registration_guards() {
    let mut store = store_with_alice();
    let taken = register(
        &mut store,
        RegisterUserDto {
            username: String::from("ALICE"),
            password: String::from("GoodPass1!"),
            email: None,
            display_name: None,
        },
        &pepper(),
    );
    assert_eq!(taken, RegisterOutcome::UsernameTaken);
    let invalid = register(
        &mut store,
        RegisterUserDto {
            username: String::from("a b"),
            password: String::from("GoodPass1!"),
            email: None,
            display_name: None,
        },
        &pepper(),
    );
    assert_eq!(invalid, RegisterOutcome::InvalidUsername);
    let short = register(
        &mut store,
        RegisterUserDto {
            username: String::from("bobby"),
            password: String::from("short1!"),
            email: None,
            display_name: None,
        },
        &pepper(),
    );
    assert_eq!(short, RegisterOutcome::InsecurePassword);
    assert_eq!(store.users.len(), 1);
}
