//! Credential verification and token lifecycle for a small authentication
//! service: password hashing, time-based second-factor codes, signed access
//! and refresh tokens with rotation and revocation, and single-use
//! password-reset tokens.
//!
//! The store, the orchestrators and every decision they take are verified;
//! the cryptography and the JSON handling are called through trusted wrappers
//! whose contracts name what the outside crates compute.

use vstd::prelude::*;

pub mod common;
pub mod digits;
pub mod jwt;
pub mod login;
pub mod password;
pub mod refresh;
pub mod register;
pub mod reset;
pub mod store;
pub mod totp;

pub use common::RequestIdCounter;
pub use jwt::{
    issue_access_token, issue_refresh_token, verify_access_token, verify_refresh_token, Claims,
    RefreshClaims,
};
pub use login::{login, LoginOutcome, UserLoginDto};
pub use password::{hash, try_verify, verify};
pub use refresh::{refresh, validate_access, RefreshOutcome};
pub use register::{register, RegisterOutcome, RegisterUserDto};
pub use reset::{
    consume, create_reset_token, forgot_password_submit, probe, response_deadline, ConsumeOutcome,
    ProbeOutcome, SubmitOutcome,
};
pub use store::{Account, ResetToken, RevokedRecord, Store};
pub use totp::{check_current, generate_secret_bytes};

verus! {

} // verus!
