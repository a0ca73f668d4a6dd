use picoauth::{hash, verify};
use picoauth::password::try_verify;

#[test]
fn fresh_hash_verifies_and_rejects_others() {
    let pepper: Vec<u8> = Vec::new();
    let digest = hash(&pepper, "Sup3rSecret!");
    assert!(verify(&pepper, "Sup3rSecret!", &digest));
    assert!(!verify(&pepper, "Sup3rSecret", &digest));
    assert!(!verify(&pepper, "Sup3rSecret!!", &digest));
    assert!(!verify(&pepper, "sup3rsecret!", &digest));
    assert!(!verify(&pepper, "", &digest));
}

#[test]
fn two_hashes_of_one_password_differ_but_both_verify() {
    let pepper: Vec<u8> = Vec::new();
    let d1 = hash(&pepper, "hunter42");
    let d2 = hash(&pepper, "hunter42");
    assert_ne!(d1, d2);
    assert!(verify(&pepper, "hunter42", &d1));
    assert!(verify(&pepper, "hunter42", &d2));
}

#[test]
fn pepper_is_part_of_the_match() {
    let pepper: Vec<u8> = b"process-wide seasoning".to_vec();
    let digest = hash(&pepper, "hunter42");
    assert!(verify(&pepper, "hunter42", &digest));
    let other_pepper: Vec<u8> = b"some other seasoning".to_vec();
    assert!(!verify(&other_pepper, "hunter42", &digest));
    let no_pepper: Vec<u8> = Vec::new();
    assert!(!verify(&no_pepper, "hunter42", &digest));
}

#[test]
fn malformed_digest_is_reported_not_matched() {
    let pepper: Vec<u8> = Vec::new();
    assert_eq!(try_verify(&pepper, "hunter42", "not a digest"), None);
    assert_eq!(try_verify(&pepper, "hunter42", ""), None);
    let digest = hash(&pepper, "hunter42");
    assert_eq!(try_verify(&pepper, "hunter42", &digest), Some(true));
    assert_eq!(try_verify(&pepper, "hunter43", &digest), Some(false));
}
