//! The refresh orchestrator: rotate a session from a bearer refresh token.
//!
//! The literal token string is checked against the revocation registry before
//! its signature is even looked at; the subject must parse as an account id;
//! the profile is re-read from the store, never taken from the stale claims.
//! The new access token keeps the original authentication time. A new refresh
//! token is issued only when the old one has less than a day left.

use vstd::prelude::*;

use crate::digits::{parse_u64, parse_u64_spec};
use crate::jwt::{
    issue_access_token, issue_refresh_token, verify_access_token, verify_refresh_token,
    access_result_of, refresh_result_of, verify_access_spec, verify_refresh_spec, ClaimsView,
    RefreshClaimsView, ACCESS_TOKEN_EXPIRATION, REFRESH_TOKEN_EXPIRATION,
};
use crate::digits::u64_dec;
use crate::login::email_verified_of;
use crate::store::{first_id_match, revoked_spec, Store};

verus! {

/// Seconds of remaining refresh-token lifetime under which a fresh refresh
/// token is issued alongside the access token: one day.
pub const ROTATION_THRESHOLD: u64 = 86400;

/// How a refresh ends.
pub enum RefreshOutcome {
    /// A fresh access token, and a fresh refresh token exactly when the old
    /// one had less than a day left.
    Renewed { access_token: String, refresh_token: Option<String> },
    /// Revoked, invalid, expired, foreign subject, or vanished account — one
    /// undifferentiated signal.
    Unauthorized,
}

/// Why a refresh is refused: the token string is revoked, or it does not
/// verify as an unexpired refresh token, or its subject is not an account id,
/// or no account has that id any more.
pub open spec fn refresh_refused(s: Store, token: Seq<char>, key: Seq<u8>, now: u64) -> bool {
    ||| revoked_spec(s.revoked@, token)
    ||| verify_refresh_spec(key, token, now) is None
    ||| parse_u64_spec(verify_refresh_spec(key, token, now)->Some_0.sub) is None
    ||| first_id_match(
        s.users@,
        parse_u64_spec(verify_refresh_spec(key, token, now)->Some_0.sub)->Some_0,
    ) == -1
}

/// Refreshes a session: checks revocation, verifies the refresh token,
/// re-reads the account, and issues a new access token anchored at the
/// original authentication time — plus a new refresh token when rotation is
/// due.
pub fn refresh(store: &Store, token: &String, key: &Vec<u8>, now: u64) -> (r: RefreshOutcome)
    requires
        now + REFRESH_TOKEN_EXPIRATION <= u64::MAX,
    ensures
        match r {
            RefreshOutcome::Unauthorized => refresh_refused(*store, token@, key@, now),
            RefreshOutcome::Renewed { access_token, refresh_token } => ({
                let claims = verify_refresh_spec(key@, token@, now)->Some_0;
                let uid = parse_u64_spec(claims.sub)->Some_0;
                let a = store.users@[first_id_match(store.users@, uid)];
                &&& !refresh_refused(*store, token@, key@, now)
                &&& access_result_of(key@, access_token@) == Some(
                    ClaimsView {
                        typ: "Access"@,
                        auth_time: claims.auth_time,
                        iat: now,
                        exp: (now + ACCESS_TOKEN_EXPIRATION) as u64,
                        iss: "picoauth"@,
                        sub: u64_dec(uid),
                        preferred_username: a.username@,
                        nickname: match a.display_name {
                            Some(d) => d@,
                            None => a.username@,
                        },
                        email: match a.email {
                            Some(e) => Some(e@),
                            None => None,
                        },
                        email_verified: email_verified_of(a),
                    },
                )
                &&& match refresh_token {
                    Some(rt) => now + ROTATION_THRESHOLD > claims.exp && refresh_result_of(
                        key@,
                        rt@,
                    ) == Some(
                        RefreshClaimsView {
                            typ: "Refresh"@,
                            auth_time: claims.auth_time,
                            iat: now,
                            exp: (now + REFRESH_TOKEN_EXPIRATION) as u64,
                            iss: "picoauth"@,
                            sub: u64_dec(uid),
                        },
                    ),
                    None => now + ROTATION_THRESHOLD <= claims.exp,
                }
            }),
        },
{
    if store.is_revoked(token.as_str()) {
        return RefreshOutcome::Unauthorized;
    }
    let claims = match verify_refresh_token(key, token.as_str(), now) {
        Some(c) => c,
        None => {
            return RefreshOutcome::Unauthorized;
        },
    };
    let uid = match parse_u64(claims.sub.as_str()) {
        Some(u) => u,
        None => {
            return RefreshOutcome::Unauthorized;
        },
    };
    let idx = match store.lookup_id(uid) {
        Some(i) => i,
        None => {
            return RefreshOutcome::Unauthorized;
        },
    };
    let account = &store.users[idx];
    let email_verified = match account.email_verified_at {
        Some(_) => Some(true),
        None => if account.email.is_some() {
            Some(false)
        } else {
            None
        },
    };
    let access_token = issue_access_token(
        key,
        account.id,
        account.username.as_str(),
        account.display_name.as_ref(),
        account.email.as_ref(),
        email_verified,
        claims.auth_time,
        now,
    );
    let refresh_token = if claims.exp < now + ROTATION_THRESHOLD {
        Some(issue_refresh_token(key, account.id, Some(claims.auth_time), now))
    } else {
        None
    };
    RefreshOutcome::Renewed { access_token, refresh_token }
}

/// Whether an access token is currently good: not revoked, well-signed, of
/// the access shape, and unexpired.
pub fn validate_access(store: &Store, token: &String, key: &Vec<u8>, now: u64) -> (r: bool)
    ensures
        r == (!revoked_spec(store.revoked@, token@) && verify_access_spec(key@, token@, now)
            is Some),
{
    if store.is_revoked(token.as_str()) {
        return false;
    }
    match verify_access_token(key, token.as_str(), now) {
        Some(_) => true,
        None => false,
    }
}

/// A revoked refresh token is refused even though its signature still
/// verifies: revocation alone decides.
pub proof fn lemma_revoked_token_refused(s: Store, token: Seq<char>, key: Seq<u8>, now: u64)
    requires
        revoked_spec(s.revoked@, token),
    ensures
        refresh_refused(s, token, key, now),
{
}

} // verus!
