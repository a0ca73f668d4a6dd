//! Password hashing and verification, backed by Argon2id.
//!
//! A digest is a PHC-format string produced by `hash`. Whether a password
//! matches a digest is a pure function of the password, the digest (which
//! embeds its salt and parameters) and the process-wide pepper; that function
//! is named `digest_matches` and both `hash` and `verify` speak of it. A
//! digest is only ever produced by `hash`, so a malformed one means internal
//! corruption: `verify` excludes it by contract, and `try_verify` stands in
//! front for callers that must test first.

use vstd::prelude::*;

use argon2::password_hash::SaltString;
use argon2::{Argon2, PasswordHash, PasswordHasher, PasswordVerifier};
use rand::rngs::StdRng;
use rand::{Rng, SeedableRng};

verus! {

/// Whether `digest` parses as a well-formed PHC password-hash string.
/// Names the success of `argon2::PasswordHash::new` on `digest`.
pub uninterp spec fn digest_wf(digest: Seq<char>) -> bool;

/// Whether `password` matches `digest` under `pepper`.
/// Names the outcome of `argon2::Argon2::verify_password`, which recomputes
/// the hash with the salt and parameters embedded in `digest` and the given
/// pepper, and compares in constant time.
pub uninterp spec fn digest_matches(pepper: Seq<u8>, password: Seq<char>, digest: Seq<char>) -> bool;

/// The byte-length limits Argon2 itself imposes on its inputs.
pub open spec fn fits_argon2(pepper: Seq<u8>, password: Seq<char>) -> bool {
    pepper.len() <= 0xFFFFFFFF && vstd::utf8::encode_utf8(password).len() <= 0xFFFFFFFF
}

/// Relies on `argon2::Argon2::hash_password` (Argon2id v19, default
/// parameters, the pepper as the secret, a fresh random 16-byte salt drawn
/// from the operating system): the digest it returns parses back
/// (`PasswordHash::new` round-trips its own output) and verifies against
/// exactly the password it was made from, under exactly the pepper it was
/// made with — `verify_password` recomputes the hash, and a match for any
/// other password or any other pepper would be an Argon2 collision. The two
/// universal clauses are that collision-freeness taken as an idealization:
/// collisions exist mathematically but none can be exhibited.
#[verifier::external_body]
fn argon2_hash(pepper: &Vec<u8>, password: &str) -> (r: String)
    requires
        fits_argon2(pepper@, password@),
    ensures
        digest_wf(r@),
        digest_matches(pepper@, password@, r@),
        forall|other: Seq<char>| other != password@ ==> !digest_matches(pepper@, other, r@),
        forall|other_pepper: Seq<u8>, any_password: Seq<char>|
            other_pepper != pepper@ ==> !digest_matches(other_pepper, any_password, r@),
{
    let hasher = Argon2::new_with_secret(
        pepper.as_slice(),
        argon2::Algorithm::Argon2id,
        argon2::Version::V0x13,
        argon2::Params::DEFAULT,
    )
    .expect("pepper within Argon2 secret length limit");
    let salt_bytes: [u8; 16] = StdRng::from_os_rng().random();
    let salt = SaltString::encode_b64(&salt_bytes).expect("16 bytes fit in a salt string");
    let digest = hasher
        .hash_password(password.as_bytes(), salt.as_salt())
        .expect("Argon2 accepts every password up to its length limit");
    digest.to_string()
}

/// Relies on `argon2::PasswordHash::new`: returns whether `digest` parses as
/// a PHC string.
#[verifier::external_body]
fn digest_parses(digest: &str) -> (r: bool)
    ensures
        r == digest_wf(digest@),
{
    PasswordHash::new(digest).is_ok()
}

/// Relies on `argon2::Argon2::verify_password` with the pepper as the
/// secret: returns whether `password` matches the well-formed `digest`.
#[verifier::external_body]
fn argon2_verify(pepper: &Vec<u8>, password: &str, digest: &str) -> (r: bool)
    requires
        digest_wf(digest@),
        fits_argon2(pepper@, password@),
    ensures
        r == digest_matches(pepper@, password@, digest@),
{
    let hasher = Argon2::new_with_secret(
        pepper.as_slice(),
        argon2::Algorithm::Argon2id,
        argon2::Version::V0x13,
        argon2::Params::DEFAULT,
    )
    .expect("pepper within Argon2 secret length limit");
    let parsed = PasswordHash::new(digest).expect("digest is well-formed");
    hasher.verify_password(password.as_bytes(), &parsed).is_ok()
}

/// Hashes `password` into a self-describing digest with a fresh random salt.
/// The digest matches `password` and no other password, and matches nothing
/// at all under any other pepper: a leaked digest is useless without the
/// process-wide secret.
pub fn hash(pepper: &Vec<u8>, password: &str) -> (r: String)
    requires
        fits_argon2(pepper@, password@),
    ensures
        digest_wf(r@),
        digest_matches(pepper@, password@, r@),
        forall|other: Seq<char>| other != password@ ==> !digest_matches(pepper@, other, r@),
        forall|other_pepper: Seq<u8>, any_password: Seq<char>|
            other_pepper != pepper@ ==> !digest_matches(other_pepper, any_password, r@),
{
    argon2_hash(pepper, password)
}

/// Checks `password` against `digest`. A malformed digest is a local, fatal
/// condition — digests are self-produced, so it can only mean internal
/// corruption — and is excluded here by contract; `try_verify` is the door
/// for digests of unknown provenance.
pub fn verify(pepper: &Vec<u8>, password: &str, digest: &str) -> (r: bool)
    requires
        digest_wf(digest@),
        fits_argon2(pepper@, password@),
    ensures
        r == digest_matches(pepper@, password@, digest@),
{
    argon2_verify(pepper, password, digest)
}

/// Checks `password` against a digest that may not be well-formed: parses it
/// first, answers the match for a well-formed digest, and reports a malformed
/// one as `None` instead of reaching `verify` at all.
pub fn try_verify(pepper: &Vec<u8>, password: &str, digest: &str) -> (r: Option<bool>)
    requires
        fits_argon2(pepper@, password@),
    ensures
        digest_wf(digest@) ==> r == Some(digest_matches(pepper@, password@, digest@)),
        !digest_wf(digest@) ==> r is None,
{
    if digest_parses(digest) {
        Some(verify(pepper, password, digest))
    } else {
        None
    }
}

/// A freshly hashed password verifies; every other password — prefix-sharing
/// or not — is rejected against that digest, and so is every password under a
/// different pepper.
pub proof fn lemma_hash_verify_exact(
    pepper: Seq<u8>,
    password: Seq<char>,
    other: Seq<char>,
    other_pepper: Seq<u8>,
    digest: Seq<char>,
)
    requires
        digest_wf(digest),
        digest_matches(pepper, password, digest),
        forall|o: Seq<char>| o != password ==> !digest_matches(pepper, o, digest),
        forall|p2: Seq<u8>, q: Seq<char>| p2 != pepper ==> !digest_matches(p2, q, digest),
    ensures
        digest_matches(pepper, password, digest),
        other != password ==> !digest_matches(pepper, other, digest),
        other_pepper != pepper ==> !digest_matches(other_pepper, password, digest),
{
}

} // verus!
