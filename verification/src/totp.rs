//! Time-based one-time codes under the default RFC 6238 parameters
//! (SHA-1, 6 digits, 30-second steps).
//!
//! `check_current` accepts exactly the code of the current time step: no
//! clock-skew tolerance, so the codes of the neighbouring steps are rejected
//! unless they happen to coincide with the current one.

use vstd::prelude::*;

use rand::rngs::StdRng;
use rand::{Rng, SeedableRng};
use totp_rs::{Rfc6238, TOTP};

verus! {

/// The length a shared secret must have for RFC 6238 (at least 128 bits).
pub open spec fn totp_secret_wf(secret: Seq<u8>) -> bool {
    secret.len() >= 16
}

/// The one-time code for `secret` at time step `step` under the default
/// parameters. Names the result of `totp_rs::TOTP::generate`, a function of
/// the secret and the step alone.
pub uninterp spec fn totp_code_of(secret: Seq<u8>, step: u64) -> Seq<char>;

/// Relies on `totp_rs::TOTP::generate` on `Rfc6238::with_defaults` (SHA-1,
/// 6 digits, 30-second steps): the code depends only on the secret and on
/// `time / 30`, and is always six ASCII digits.
#[verifier::external_body]
fn totp_generate_at(secret: &Vec<u8>, time: u64) -> (r: String)
    requires
        totp_secret_wf(secret@),
    ensures
        r@ == totp_code_of(secret@, time / 30),
        r@.len() == 6,
{
    let rfc = Rfc6238::with_defaults(secret.clone()).expect("secret is at least 16 bytes");
    let totp = TOTP::from_rfc6238(rfc).expect("default parameters are valid");
    totp.generate(time)
}

/// Relies on `rand::rngs::StdRng::from_os_rng`: 20 bytes from a generator
/// freshly seeded by the operating system, so earlier secrets stay hidden
/// even if later generator state leaks.
#[verifier::external_body]
pub fn generate_secret_bytes() -> (r: [u8; 20])
    ensures
        r@.len() == 20,
{
    let mut rng = StdRng::from_os_rng();
    rng.random()
}

/// Accepts `code` exactly when it is the one-time code of the current time
/// step (`now / 30`) for `secret`.
pub fn check_current(secret: &Vec<u8>, code: &str, now: u64) -> (r: bool)
    requires
        totp_secret_wf(secret@),
    ensures
        r == (code@ == totp_code_of(secret@, now / 30)),
{
    let expected = totp_generate_at(secret, now);
    code.to_owned() == expected
}

/// A code for the immediately preceding or following time step is rejected
/// whenever it differs from the current step's code — there is no skew
/// tolerance to fall back on.
pub proof fn lemma_adjacent_step_rejected(secret: Seq<u8>, code: Seq<char>, now: u64, step: u64)
    requires
        step == now / 30 - 1 || step == now / 30 + 1,
        code == totp_code_of(secret, step),
        totp_code_of(secret, step) != totp_code_of(secret, now / 30),
    ensures
        code != totp_code_of(secret, now / 30),
{
}

} // verus!
