//! The login orchestrator: one account, one password, optionally one
//! second-factor code, and a closed set of outcomes.
//!
//! Every rejection that could reveal whether a username exists or whether the
//! password was right folds into the one `WrongCredentials` outcome: an
//! unknown username, an ambiguous username (a data anomaly), a wrong
//! password, and a wrong second-factor code all look the same. Only the two
//! second-factor prompts are distinct, and they reveal nothing secret.

use vstd::prelude::*;

use crate::jwt::{
    issue_access_token, issue_refresh_token, access_result_of, refresh_result_of, ClaimsView,
    RefreshClaimsView, ACCESS_TOKEN_EXPIRATION, REFRESH_TOKEN_EXPIRATION,
};
use crate::password::{digest_matches, digest_wf, fits_argon2, verify};
use crate::store::{first_match, match_count, store_wf, Account, Store};
use crate::totp::{check_current, totp_code_of};
use crate::digits::u64_dec;

verus! {

/// A login request: username, password, and the second-factor code when the
/// client supplies one.
pub struct UserLoginDto {
    pub username: String,
    pub password: String,
    pub totp: Option<String>,
}

/// How a login ends.
pub enum LoginOutcome {
    /// Both tokens, freshly issued with the authentication time anchored now.
    Success { access_token: String, refresh_token: String },
    /// Unknown or ambiguous username, wrong password, or wrong second-factor
    /// code — deliberately one and the same signal.
    WrongCredentials,
    /// The account requires a second factor and no code came along; safe to
    /// tell, so the client can prompt.
    SecondFactorRequired,
    /// A code came along but the account has no second factor; safe to tell.
    SecondFactorNotApplicable,
}

/// The outcome of a login, without the tokens.
pub ghost enum LoginKind {
    Success,
    WrongCredentials,
    SecondFactorRequired,
    SecondFactorNotApplicable,
}

/// The email-verified marker an account's tokens carry: true once a
/// verification time exists, false while an email waits unverified, absent
/// without an email on file.
pub open spec fn email_verified_of(a: Account) -> Option<bool> {
    match a.email_verified_at {
        Some(_) => Some(true),
        None => if a.email is Some {
            Some(false)
        } else {
            None
        },
    }
}

/// The login decision, step by step: exactly one case-insensitive username
/// match, then the password, then the second-factor rules.
pub open spec fn login_kind(s: Store, dto: UserLoginDto, pepper: Seq<u8>, now: u64) -> LoginKind {
    if match_count(s.users@, dto.username@) != 1 {
        LoginKind::WrongCredentials
    } else {
        let a = s.users@[first_match(s.users@, dto.username@)];
        if !(digest_wf(a.password_hash@) && digest_matches(pepper, dto.password@, a.password_hash@)) {
            LoginKind::WrongCredentials
        } else if !a.requires_second_factor && dto.totp is Some {
            LoginKind::SecondFactorNotApplicable
        } else if a.requires_second_factor {
            match dto.totp {
                None => LoginKind::SecondFactorRequired,
                Some(code) => match a.totp_secret {
                    Some(sec) => if code@ == totp_code_of(sec@, now / 30) {
                        LoginKind::Success
                    } else {
                        LoginKind::WrongCredentials
                    },
                    None => LoginKind::WrongCredentials,
                },
            }
        } else {
            LoginKind::Success
        }
    }
}

/// Handles a login request against the store as it stands at `now`,
/// issuing both tokens on success and nothing otherwise.
pub fn login(store: &Store, dto: &UserLoginDto, pepper: &Vec<u8>, key: &Vec<u8>, now: u64) -> (r:
    LoginOutcome)
    requires
        store_wf(*store),
        fits_argon2(pepper@, dto.password@),
        now + REFRESH_TOKEN_EXPIRATION <= u64::MAX,
    ensures
        match r {
            LoginOutcome::Success { access_token, refresh_token } => ({
                let a = store.users@[first_match(store.users@, dto.username@)];
                &&& login_kind(*store, *dto, pepper@, now) == LoginKind::Success
                &&& access_result_of(key@, access_token@) == Some(
                    ClaimsView {
                        typ: "Access"@,
                        auth_time: now,
                        iat: now,
                        exp: (now + ACCESS_TOKEN_EXPIRATION) as u64,
                        iss: "picoauth"@,
                        sub: u64_dec(a.id),
                        preferred_username: a.username@,
                        nickname: match a.display_name {
                            Some(d) => d@,
                            None => a.username@,
                        },
                        email: match a.email {
                            Some(e) => Some(e@),
                            None => None,
                        },
                        email_verified: email_verified_of(a),
                    },
                )
                &&& refresh_result_of(key@, refresh_token@) == Some(
                    RefreshClaimsView {
                        typ: "Refresh"@,
                        auth_time: now,
                        iat: now,
                        exp: (now + REFRESH_TOKEN_EXPIRATION) as u64,
                        iss: "picoauth"@,
                        sub: u64_dec(a.id),
                    },
                )
            }),
            LoginOutcome::WrongCredentials => login_kind(*store, *dto, pepper@, now)
                == LoginKind::WrongCredentials,
            LoginOutcome::SecondFactorRequired => login_kind(*store, *dto, pepper@, now)
                == LoginKind::SecondFactorRequired,
            LoginOutcome::SecondFactorNotApplicable => login_kind(*store, *dto, pepper@, now)
                == LoginKind::SecondFactorNotApplicable,
        },
{
    let idx = match store.lookup_username(dto.username.as_str()) {
        Some(i) => i,
        None => {
            return LoginOutcome::WrongCredentials;
        },
    };
    let account = &store.users[idx];
    let password_ok = verify(pepper, dto.password.as_str(), account.password_hash.as_str());
    if !password_ok {
        return LoginOutcome::WrongCredentials;
    }
    if !account.requires_second_factor && dto.totp.is_some() {
        return LoginOutcome::SecondFactorNotApplicable;
    }
    if account.requires_second_factor {
        let code = match &dto.totp {
            Some(c) => c,
            None => {
                return LoginOutcome::SecondFactorRequired;
            },
        };
        match &account.totp_secret {
            Some(sec) => {
                if !check_current(sec, code.as_str(), now) {
                    return LoginOutcome::WrongCredentials;
                }
            },
            None => {
                return LoginOutcome::WrongCredentials;
            },
        }
    }
    let email_verified = match account.email_verified_at {
        Some(_) => Some(true),
        None => if account.email.is_some() {
            Some(false)
        } else {
            None
        },
    };
    let access_token = issue_access_token(
        key,
        account.id,
        account.username.as_str(),
        account.display_name.as_ref(),
        account.email.as_ref(),
        email_verified,
        now,
        now,
    );
    let refresh_token = issue_refresh_token(key, account.id, Some(now), now);
    LoginOutcome::Success { access_token, refresh_token }
}

/// A correct password with a wrong second-factor code ends in the same
/// `WrongCredentials` outcome a wrong password would: success never leaks
/// through the second factor, and the rejection is indistinguishable from a
/// wrong password.
pub proof fn lemma_wrong_second_factor_folds_into_wrong_credentials(
    s: Store,
    dto: UserLoginDto,
    pepper: Seq<u8>,
    now: u64,
    code: String,
    sec: Vec<u8>,
)
    requires
        match_count(s.users@, dto.username@) == 1,
        ({
            let a = s.users@[first_match(s.users@, dto.username@)];
            &&& digest_wf(a.password_hash@)
            &&& digest_matches(pepper, dto.password@, a.password_hash@)
            &&& a.requires_second_factor
            &&& a.totp_secret == Some(sec)
        }),
        dto.totp == Some(code),
        code@ != totp_code_of(sec@, now / 30),
    ensures
        login_kind(s, dto, pepper, now) == LoginKind::WrongCredentials,
{
}

} // verus!
