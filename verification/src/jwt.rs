//! The token codec: signed access and refresh tokens.
//!
//! Tokens are JSON Web Tokens signed with HMAC-SHA256 under one symmetric
//! key. The signing and the JSON handling are done by `jsonwebtoken` and
//! `serde_json` behind trusted wrappers; everything decided about a token —
//! which claim shape it must have, whether it is expired, what the caller
//! gets back — is verified code in this module.
//!
//! The contracts are phrased over three named decode stages: what payload a
//! token yields under a key (`jwt_payload_of`), and what core and profile
//! claims a payload yields (`core_claims_of_json`, `profile_of_json`). The
//! issue functions promise what those stages recover from their output, so
//! issuing and verifying compose by contract alone.

use vstd::prelude::*;

use crate::digits::{parse_u64_spec, u64_dec};

verus! {

/// Seconds until a refresh token expires: one week.
pub const REFRESH_TOKEN_EXPIRATION: u64 = 604800;

/// Seconds until an access token expires: one hour.
pub const ACCESS_TOKEN_EXPIRATION: u64 = 3600;

/// The claims of a refresh token; also the core claims shared by every token.
pub struct RefreshClaims {
    /// Claim type tag; `"Refresh"` on tokens this module issues as refresh.
    pub typ: String,
    /// When the session originally authenticated (UTC seconds).
    pub auth_time: u64,
    /// Issued at (UTC seconds).
    pub iat: u64,
    /// Expiry (UTC seconds).
    pub exp: u64,
    /// Issuer tag.
    pub iss: String,
    /// Subject: the account id, in decimal.
    pub sub: String,
}

/// The claims of an access token: the core claims plus a profile snapshot.
pub struct Claims {
    /// Claim type tag; `"Access"` on tokens this module issues as access.
    pub typ: String,
    /// When the session originally authenticated (UTC seconds).
    pub auth_time: u64,
    /// Issued at (UTC seconds).
    pub iat: u64,
    /// Expiry (UTC seconds).
    pub exp: u64,
    /// Issuer tag.
    pub iss: String,
    /// Subject: the account id, in decimal.
    pub sub: String,
    /// The account's username.
    pub preferred_username: String,
    /// Display name, defaulted to the username where none is on file.
    pub nickname: String,
    /// Email on file, if any.
    pub email: Option<String>,
    /// Whether the email is verified; absent when no email is on file.
    pub email_verified: Option<bool>,
}

/// Mathematical image of `RefreshClaims`.
pub ghost struct RefreshClaimsView {
    pub typ: Seq<char>,
    pub auth_time: u64,
    pub iat: u64,
    pub exp: u64,
    pub iss: Seq<char>,
    pub sub: Seq<char>,
}

/// Mathematical image of `Claims`.
pub ghost struct ClaimsView {
    pub typ: Seq<char>,
    pub auth_time: u64,
    pub iat: u64,
    pub exp: u64,
    pub iss: Seq<char>,
    pub sub: Seq<char>,
    pub preferred_username: Seq<char>,
    pub nickname: Seq<char>,
    pub email: Option<Seq<char>>,
    pub email_verified: Option<bool>,
}

/// The profile part of an access token's claims.
pub ghost struct ProfileView {
    pub preferred_username: Seq<char>,
    pub nickname: Seq<char>,
    pub email: Option<Seq<char>>,
    pub email_verified: Option<bool>,
}

impl View for RefreshClaims {
    type V = RefreshClaimsView;

    open spec fn view(&self) -> RefreshClaimsView {
        RefreshClaimsView {
            typ: self.typ@,
            auth_time: self.auth_time,
            iat: self.iat,
            exp: self.exp,
            iss: self.iss@,
            sub: self.sub@,
        }
    }
}

impl View for Claims {
    type V = ClaimsView;

    open spec fn view(&self) -> ClaimsView {
        ClaimsView {
            typ: self.typ@,
            auth_time: self.auth_time,
            iat: self.iat,
            exp: self.exp,
            iss: self.iss@,
            sub: self.sub@,
            preferred_username: self.preferred_username@,
            nickname: self.nickname@,
            email: match self.email {
                Some(ref e) => Some(e@),
                None => None,
            },
            email_verified: self.email_verified,
        }
    }
}

/// The claims payload a token yields under `key`: signature checked, claim
/// text put in `serde_json`'s canonical form. Names the composite of
/// `jsonwebtoken::decode` (HS256, expiry not yet checked) and
/// `serde_json::Value::to_string`, a function of key and token alone.
pub uninterp spec fn jwt_payload_of(key: Seq<u8>, token: Seq<char>) -> Option<Seq<char>>;

/// The core claims a payload yields. Names what `serde_json` field lookup
/// extracts for `typ`, `auth_time`, `iat`, `exp`, `iss` and `sub`.
pub uninterp spec fn core_claims_of_json(payload: Seq<char>) -> Option<RefreshClaimsView>;

/// The profile claims a payload yields. Names what `serde_json` field lookup
/// extracts for `preferred_username`, `nickname`, `email`, `email_verified`.
pub uninterp spec fn profile_of_json(payload: Seq<char>) -> Option<ProfileView>;

/// What decoding `token` as refresh claims yields under `key`.
pub open spec fn refresh_result_of(key: Seq<u8>, token: Seq<char>) -> Option<RefreshClaimsView> {
    match jwt_payload_of(key, token) {
        Some(payload) => core_claims_of_json(payload),
        None => None,
    }
}

/// What decoding `token` as access claims yields under `key`.
pub open spec fn access_result_of(key: Seq<u8>, token: Seq<char>) -> Option<ClaimsView> {
    match jwt_payload_of(key, token) {
        Some(payload) => match (core_claims_of_json(payload), profile_of_json(payload)) {
            (Some(core), Some(profile)) => Some(
                ClaimsView {
                    typ: core.typ,
                    auth_time: core.auth_time,
                    iat: core.iat,
                    exp: core.exp,
                    iss: core.iss,
                    sub: core.sub,
                    preferred_username: profile.preferred_username,
                    nickname: profile.nickname,
                    email: profile.email,
                    email_verified: profile.email_verified,
                },
            ),
            _ => None,
        },
        None => None,
    }
}

/// Relies on `jsonwebtoken::encode` with HMAC-SHA256 over a claims object
/// built from the arguments: decoding the result under the same key yields
/// back exactly these core claims (the subject as the account id in decimal),
/// and no profile claims are present. Guaranteed only for the fixed tag
/// values, which need no JSON escaping.
#[verifier::external_body]
fn encode_refresh_raw(
    key: &Vec<u8>,
    typ: &str,
    auth_time: u64,
    iat: u64,
    exp: u64,
    iss: &str,
    user_id: u64,
) -> (r: String)
    requires
        typ@ == "Refresh"@,
        iss@ == "picoauth"@,
    ensures
        refresh_result_of(key@, r@) == Some(
            RefreshClaimsView { typ: typ@, auth_time, iat, exp, iss: iss@, sub: u64_dec(user_id) },
        ),
        access_result_of(key@, r@) is None,
{
    let s = format!(
        "{{\"typ\":\"{typ}\",\"auth_time\":{auth_time},\"iat\":{iat},\"exp\":{exp},\"iss\":\"{iss}\",\"sub\":\"{user_id}\"}}"
    );
    let v: serde_json::Value = serde_json::from_str(&s).expect("claims text is valid JSON");
    let k = jsonwebtoken::EncodingKey::from_secret(key.as_slice());
    jsonwebtoken::encode(&jsonwebtoken::Header::default(), &v, &k).expect("HMAC cannot fail")
}

/// Relies on `jsonwebtoken::encode` with HMAC-SHA256, with the free-form
/// strings JSON-escaped by `serde_json::to_string`: decoding the result under
/// the same key yields back exactly these claims — the core ones also under
/// the refresh shape, since that shape is a subset of this one.
#[verifier::external_body]
fn encode_access_raw(
    key: &Vec<u8>,
    typ: &str,
    auth_time: u64,
    iat: u64,
    exp: u64,
    iss: &str,
    user_id: u64,
    username: &str,
    nickname: &str,
    email: Option<&String>,
    email_verified: Option<bool>,
) -> (r: String)
    requires
        typ@ == "Access"@,
        iss@ == "picoauth"@,
    ensures
        access_result_of(key@, r@) == Some(
            ClaimsView {
                typ: typ@,
                auth_time,
                iat,
                exp,
                iss: iss@,
                sub: u64_dec(user_id),
                preferred_username: username@,
                nickname: nickname@,
                email: match email {
                    Some(e) => Some(e@),
                    None => None,
                },
                email_verified,
            },
        ),
        refresh_result_of(key@, r@) == Some(
            RefreshClaimsView { typ: typ@, auth_time, iat, exp, iss: iss@, sub: u64_dec(user_id) },
        ),
{
    let user = serde_json::to_string(username).expect("strings serialize");
    let nick = serde_json::to_string(nickname).expect("strings serialize");
    let mail = match email { Some(e) => serde_json::to_string(e).expect("strings serialize"), None => "null".to_string() };
    let ver = match email_verified { Some(true) => "true", Some(false) => "false", None => "null" };
    let s = format!(
        "{{\"typ\":\"{typ}\",\"auth_time\":{auth_time},\"iat\":{iat},\"exp\":{exp},\"iss\":\"{iss}\",\"sub\":\"{user_id}\",\"preferred_username\":{user},\"nickname\":{nick},\"email\":{mail},\"email_verified\":{ver}}}"
    );
    let v: serde_json::Value = serde_json::from_str(&s).expect("claims text is valid JSON");
    let k = jsonwebtoken::EncodingKey::from_secret(key.as_slice());
    jsonwebtoken::encode(&jsonwebtoken::Header::default(), &v, &k).expect("HMAC cannot fail")
}

/// Relies on `jsonwebtoken::decode` (HS256 only, signature checked, expiry
/// left to the caller) and `serde_json::Value::to_string`: returns the
/// canonical claims payload of `token` under `key`, or nothing when the token
/// is malformed, signed with another key, or not HS256.
#[verifier::external_body]
fn decode_jwt_payload(key: &Vec<u8>, token: &str) -> (r: Option<String>)
    ensures
        match r {
            Some(p) => jwt_payload_of(key@, token@) == Some(p@),
            None => jwt_payload_of(key@, token@) is None,
        },
{
    let mut validation = jsonwebtoken::Validation::new(jsonwebtoken::Algorithm::HS256);
    validation.validate_exp = false;
    let dkey = jsonwebtoken::DecodingKey::from_secret(key.as_slice());
    match jsonwebtoken::decode::<serde_json::Value>(token, &dkey, &validation) {
        Ok(data) => Some(data.claims.to_string()),
        Err(_) => None,
    }
}

/// Relies on `serde_json` parsing and field lookup: extracts the six core
/// claims from a payload, or nothing when one is missing or of the wrong
/// kind.
#[verifier::external_body]
fn payload_to_core(payload: &str) -> (r: Option<RefreshClaims>)
    ensures
        match r {
            Some(c) => core_claims_of_json(payload@) == Some(c@),
            None => core_claims_of_json(payload@) is None,
        },
{
    let v: serde_json::Value = serde_json::from_str(payload).ok()?;
    Some(RefreshClaims {
        typ: v.get("typ")?.as_str()?.to_string(),
        auth_time: v.get("auth_time")?.as_u64()?,
        iat: v.get("iat")?.as_u64()?,
        exp: v.get("exp")?.as_u64()?,
        iss: v.get("iss")?.as_str()?.to_string(),
        sub: v.get("sub")?.as_str()?.to_string(),
    })
}

/// Relies on `serde_json` parsing and field lookup: extracts the profile
/// claims from a payload — username, nickname, email (string or null),
/// email-verified (boolean or null) — or nothing when one is missing or of
/// the wrong kind.
#[verifier::external_body]
fn payload_to_profile(payload: &str) -> (r: Option<(String, String, Option<String>, Option<bool>)>)
    ensures
        match r {
            Some(p) => profile_of_json(payload@) == Some(
                ProfileView {
                    preferred_username: p.0@,
                    nickname: p.1@,
                    email: match p.2 {
                        Some(ref e) => Some(e@),
                        None => None,
                    },
                    email_verified: p.3,
                },
            ),
            None => profile_of_json(payload@) is None,
        },
{
    let v: serde_json::Value = serde_json::from_str(payload).ok()?;
    let username = v.get("preferred_username")?.as_str()?.to_string();
    let nickname = v.get("nickname")?.as_str()?.to_string();
    let email = match v.get("email")? {
        serde_json::Value::Null => None,
        e => Some(e.as_str()?.to_string()),
    };
    let verified = match v.get("email_verified")? {
        serde_json::Value::Null => None,
        b => Some(b.as_bool()?),
    };
    Some((username, nickname, email, verified))
}

/// Issues a refresh token for `user_id`, expiring one week from `now`, with
/// `auth_time` defaulting to `now`. Decoding it under the same key recovers
/// exactly these claims; it does not pass for an access token.
pub fn issue_refresh_token(key: &Vec<u8>, user_id: u64, auth_time: Option<u64>, now: u64) -> (r:
    String)
    requires
        now + REFRESH_TOKEN_EXPIRATION <= u64::MAX,
    ensures
        refresh_result_of(key@, r@) == Some(
            RefreshClaimsView {
                typ: "Refresh"@,
                auth_time: match auth_time {
                    Some(t) => t,
                    None => now,
                },
                iat: now,
                exp: (now + REFRESH_TOKEN_EXPIRATION) as u64,
                iss: "picoauth"@,
                sub: u64_dec(user_id),
            },
        ),
        access_result_of(key@, r@) is None,
{
    let at = match auth_time {
        Some(t) => t,
        None => now,
    };
    encode_refresh_raw(key, "Refresh", at, now, now + REFRESH_TOKEN_EXPIRATION, "picoauth", user_id)
}

/// Issues an access token for `user_id`, expiring one hour from `now`,
/// carrying the given profile snapshot with the nickname defaulted to the
/// username. Decoding it under the same key recovers exactly these claims.
pub fn issue_access_token(
    key: &Vec<u8>,
    user_id: u64,
    username: &str,
    display_name: Option<&String>,
    email: Option<&String>,
    email_verified: Option<bool>,
    auth_time: u64,
    now: u64,
) -> (r: String)
    requires
        now + ACCESS_TOKEN_EXPIRATION <= u64::MAX,
    ensures
        access_result_of(key@, r@) == Some(
            ClaimsView {
                typ: "Access"@,
                auth_time,
                iat: now,
                exp: (now + ACCESS_TOKEN_EXPIRATION) as u64,
                iss: "picoauth"@,
                sub: u64_dec(user_id),
                preferred_username: username@,
                nickname: match display_name {
                    Some(d) => d@,
                    None => username@,
                },
                email: match email {
                    Some(e) => Some(e@),
                    None => None,
                },
                email_verified,
            },
        ),
        refresh_result_of(key@, r@) == Some(
            RefreshClaimsView {
                typ: "Access"@,
                auth_time,
                iat: now,
                exp: (now + ACCESS_TOKEN_EXPIRATION) as u64,
                iss: "picoauth"@,
                sub: u64_dec(user_id),
            },
        ),
{
    let nickname: &str = match display_name {
        Some(d) => d.as_str(),
        None => username,
    };
    encode_access_raw(
        key,
        "Access",
        auth_time,
        now,
        now + ACCESS_TOKEN_EXPIRATION,
        "picoauth",
        user_id,
        username,
        nickname,
        email,
        email_verified,
    )
}

/// What verifying a refresh token yields: its claims, provided the token
/// decodes under the key, carries the refresh claim shape, and has not
/// expired — a token is good through its expiry instant and fails only once
/// that instant lies in the past.
pub open spec fn verify_refresh_spec(key: Seq<u8>, token: Seq<char>, now: u64) -> Option<
    RefreshClaimsView,
> {
    match refresh_result_of(key, token) {
        Some(c) => if c.typ == "Refresh"@ && c.exp >= now {
            Some(c)
        } else {
            None
        },
        None => None,
    }
}

/// What verifying an access token yields: its claims, provided the token
/// decodes under the key, carries the access claim shape, and has not
/// expired — good through its expiry instant, like the refresh shape.
pub open spec fn verify_access_spec(key: Seq<u8>, token: Seq<char>, now: u64) -> Option<
    ClaimsView,
> {
    match access_result_of(key, token) {
        Some(c) => if c.typ == "Access"@ && c.exp >= now {
            Some(c)
        } else {
            None
        },
        None => None,
    }
}

/// Verifies `token` as a refresh token: signature, refresh claim shape, and
/// expiry against `now`.
pub fn verify_refresh_token(key: &Vec<u8>, token: &str, now: u64) -> (r: Option<RefreshClaims>)
    ensures
        match r {
            Some(c) => verify_refresh_spec(key@, token@, now) == Some(c@),
            None => verify_refresh_spec(key@, token@, now) is None,
        },
{
    let payload = match decode_jwt_payload(key, token) {
        Some(p) => p,
        None => {
            return None;
        },
    };
    let claims = match payload_to_core(payload.as_str()) {
        Some(c) => c,
        None => {
            return None;
        },
    };
    if claims.typ == "Refresh".to_owned() && claims.exp >= now {
        Some(claims)
    } else {
        None
    }
}

/// Verifies `token` as an access token: signature, access claim shape, and
/// expiry against `now`.
pub fn verify_access_token(key: &Vec<u8>, token: &str, now: u64) -> (r: Option<Claims>)
    ensures
        match r {
            Some(c) => verify_access_spec(key@, token@, now) == Some(c@),
            None => verify_access_spec(key@, token@, now) is None,
        },
{
    let payload = match decode_jwt_payload(key, token) {
        Some(p) => p,
        None => {
            return None;
        },
    };
    let core = match payload_to_core(payload.as_str()) {
        Some(c) => c,
        None => {
            return None;
        },
    };
    let profile = match payload_to_profile(payload.as_str()) {
        Some(p) => p,
        None => {
            return None;
        },
    };
    if core.typ == "Access".to_owned() && core.exp >= now {
        Some(
            Claims {
                typ: core.typ,
                auth_time: core.auth_time,
                iat: core.iat,
                exp: core.exp,
                iss: core.iss,
                sub: core.sub,
                preferred_username: profile.0,
                nickname: profile.1,
                email: profile.2,
                email_verified: profile.3,
            },
        )
    } else {
        None
    }
}

/// Verifying a refresh token the codec issued recovers exactly the claims it
/// was issued with — in particular the original `auth_time` — and its subject
/// parses back to the account id it was issued for.
pub proof fn lemma_refresh_round_trip(
    key: Seq<u8>,
    token: Seq<char>,
    user_id: u64,
    auth_time: u64,
    iat: u64,
    exp: u64,
    now: u64,
)
    requires
        refresh_result_of(key, token) == Some(
            RefreshClaimsView {
                typ: "Refresh"@,
                auth_time,
                iat,
                exp,
                iss: "picoauth"@,
                sub: u64_dec(user_id),
            },
        ),
        now <= exp,
    ensures
        verify_refresh_spec(key, token, now) == Some(
            RefreshClaimsView {
                typ: "Refresh"@,
                auth_time,
                iat,
                exp,
                iss: "picoauth"@,
                sub: u64_dec(user_id),
            },
        ),
        parse_u64_spec(u64_dec(user_id)) == Some(user_id),
{
    crate::digits::lemma_parse_u64_dec(user_id);
}

/// Verifying an access token the codec issued recovers exactly the subject,
/// username and profile fields it was issued with.
pub proof fn lemma_access_round_trip(key: Seq<u8>, token: Seq<char>, claims: ClaimsView, now: u64)
    requires
        access_result_of(key, token) == Some(claims),
        claims.typ == "Access"@,
        now <= claims.exp,
    ensures
        verify_access_spec(key, token, now) == Some(claims),
{
}

/// A token of the access shape never passes refresh verification: the claim
/// type tag it decodes to is `"Access"`, not `"Refresh"`.
pub proof fn lemma_wrong_shape_rejected(key: Seq<u8>, token: Seq<char>, claims: ClaimsView, now: u64)
    requires
        access_result_of(key, token) == Some(claims),
        claims.typ == "Access"@,
    ensures
        verify_refresh_spec(key, token, now) is None,
{
    let payload = jwt_payload_of(key, token);
    assert(payload is Some);
    let core = core_claims_of_json(payload->Some_0);
    assert(core is Some);
    assert(core->Some_0.typ == "Access"@);
    assert("Access"@ != "Refresh"@) by {
        reveal_strlit("Access");
        reveal_strlit("Refresh");
    }
}

} // verus!
