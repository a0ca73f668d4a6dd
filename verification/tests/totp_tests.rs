use picoauth::{check_current, generate_secret_bytes};

fn reference_code(secret: &[u8], time: u64) -> String {
    let rfc = totp_rs::Rfc6238::with_defaults(secret.to_vec()).unwrap();
    let totp = totp_rs::TOTP::from_rfc6238(rfc).unwrap();
    totp.generate(time)
}

#[test]
fn current_step_code_is_accepted() {
    let secret: Vec<u8> = b"0123456789abcdefghij".to_vec();
    let t: u64 = 1_700_000_000;
    let code = reference_code(&secret, t);
    assert!(check_current(&secret, &code, t));
    // Any instant of the same 30-second step accepts the same code.
    assert!(check_current(&secret, &code, t - (t % 30)));
    assert!(check_current(&secret, &code, t - (t % 30) + 29));
}

#[test]
fn adjacent_step_codes_are_rejected() {
    let secret: Vec<u8> = b"0123456789abcdefghij".to_vec();
    let t: u64 = 1_700_000_000;
    let code = reference_code(&secret, t);
    let previous = reference_code(&secret, t - 30);
    let next = reference_code(&secret, t + 30);
    if previous != code {
        assert!(!check_current(&secret, &previous, t));
    }
    if next != code {
        assert!(!check_current(&secret, &next, t));
    }
}

#[test]
fn wrong_code_is_rejected() {
    let secret: Vec<u8> = b"0123456789abcdefghij".to_vec();
    let t: u64 = 1_700_000_000;
    let code = reference_code(&secret, t);
    let wrong = if code == "000000" { "111111" } else { "000000" };
    assert!(!check_current(&secret, wrong, t));
    assert!(!check_current(&secret, "", t));
    assert!(!check_current(&secret, "not-a-code", t));
}

#[test]
fn generated_secrets_are_twenty_bytes_and_vary() {
    let a = generate_secret_bytes();
    let b = generate_secret_bytes();
    assert_eq!(a.len(), 20);
    assert_eq!(b.len(), 20);
    assert_ne!(a, b);
}
