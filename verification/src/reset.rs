//! The password-reset lifecycle: create, probe, consume.
//!
//! A reset token moves from Unused to Used at most once; Used and Expired are
//! both terminal and look the same to callers (`Gone`). Consumption re-checks
//! the token, rehashes the password and marks the token used in one step on
//! the exclusively borrowed store, so two consumptions of one token cannot
//! both succeed, whatever order racing callers are serialized in.

use vstd::prelude::*;

use rand::rngs::StdRng;
use rand::{Rng, SeedableRng};

use crate::password::{digest_matches, digest_wf, fits_argon2, hash};
use crate::store::{account_with_digest, store_wf, ResetToken, Store};

verus! {

/// Seconds until a reset token expires: 24 hours.
pub const RESET_TOKEN_EXPIRATION: u64 = 86400;

/// What probing a reset token reports.
#[derive(Clone, Copy, PartialEq, Eq, Structural, Debug)]
pub enum ProbeOutcome {
    /// No such token.
    NotFound,
    /// Used or expired; the two are indistinguishable.
    Gone,
    /// Unused and not yet expired.
    Valid,
}

/// What consuming a reset token reports.
#[derive(Clone, Copy, PartialEq, Eq, Structural, Debug)]
pub enum ConsumeOutcome {
    /// No such token.
    NotFound,
    /// Used or expired; nothing changed.
    Gone,
    /// The password was rotated and the token is now used.
    Consumed,
}

/// The first reset-token row with this token string, or -1.
pub open spec fn token_index(tokens: Seq<ResetToken>, t: Seq<char>) -> int
    decreases tokens.len(),
{
    if tokens.len() == 0 {
        -1
    } else {
        let prev = token_index(tokens.drop_last(), t);
        if prev >= 0 {
            prev
        } else if tokens.last().token@ == t {
            tokens.len() - 1
        } else {
            -1
        }
    }
}

/// What probing yields: `NotFound` without a row, `Gone` once used or past
/// expiry, `Valid` otherwise.
pub open spec fn probe_spec(tokens: Seq<ResetToken>, t: Seq<char>, now: u64) -> ProbeOutcome {
    let i = token_index(tokens, t);
    if i < 0 {
        ProbeOutcome::NotFound
    } else if tokens[i].used_at is Some || now > tokens[i].expires_at {
        ProbeOutcome::Gone
    } else {
        ProbeOutcome::Valid
    }
}

/// What consuming yields: the probe outcome, with `Valid` meaning the
/// consumption goes through.
pub open spec fn consume_outcome_spec(s: Store, t: Seq<char>, now: u64) -> ConsumeOutcome {
    match probe_spec(s.reset_tokens@, t, now) {
        ProbeOutcome::NotFound => ConsumeOutcome::NotFound,
        ProbeOutcome::Gone => ConsumeOutcome::Gone,
        ProbeOutcome::Valid => ConsumeOutcome::Consumed,
    }
}

/// `u` is `t` stamped used at `now`, otherwise unchanged.
pub open spec fn token_marked_used(t: ResetToken, u: ResetToken, now: u64) -> bool {
    u.token == t.token && u.user_id == t.user_id && u.expires_at == t.expires_at && u.used_at
        == Some(now)
}

/// Every account with `uid` carries the new digest; every other account is
/// untouched.
pub open spec fn password_rotated(
    old_users: Seq<crate::store::Account>,
    new_users: Seq<crate::store::Account>,
    uid: u64,
    digest: Seq<char>,
) -> bool {
    new_users.len() == old_users.len() && forall|j: int|
        0 <= j < old_users.len() ==> if old_users[j].id == uid {
            account_with_digest(old_users[j], #[trigger] new_users[j], digest)
        } else {
            new_users[j] == old_users[j]
        }
}

/// A character a reset token may consist of.
pub open spec fn is_alnum_char(c: char) -> bool {
    ('a' <= c && c <= 'z') || ('A' <= c && c <= 'Z') || ('0' <= c && c <= '9')
}

/// Relies on rand's `Alphanumeric` distribution over a generator freshly
/// seeded from the operating system (so earlier tokens stay hidden even if
/// later generator state leaks): 64 characters, each from [A-Za-z0-9].
#[verifier::external_body]
fn random_alphanumeric_token() -> (r: String)
    ensures
        r@.len() == 64,
        forall|i: int| 0 <= i < r@.len() ==> is_alnum_char(r@[i]),
{
    let rng = StdRng::from_os_rng();
    rng.sample_iter(rand::distr::Alphanumeric).take(64).map(char::from).collect()
}

/// The first row holding this token string, if any.
fn find_reset(store: &Store, token: &str) -> (r: Option<usize>)
    ensures
        match r {
            Some(i) => i == token_index(store.reset_tokens@, token@) && i
                < store.reset_tokens@.len() && store.reset_tokens@[i as int].token@ == token@,
            None => token_index(store.reset_tokens@, token@) == -1,
        },
{
    let len = store.reset_tokens.len();
    let mut i: usize = 0;
    while i < len
        invariant
            i <= len,
            len == store.reset_tokens@.len(),
            token_index(store.reset_tokens@.take(i as int), token@) == -1,
        decreases len - i,
    {
        proof {
            assert(store.reset_tokens@.take(i as int + 1).drop_last() =~= store.reset_tokens@.take(
                i as int,
            ));
            assert(store.reset_tokens@.take(i as int + 1).last() == store.reset_tokens@[i as int]);
        }
        if store.reset_tokens[i].token == token.to_owned() {
            proof {
                lemma_token_index_extends(store.reset_tokens@, token@, i as int);
            }
            return Some(i);
        }
        i = i + 1;
    }
    proof {
        assert(store.reset_tokens@.take(len as int) =~= store.reset_tokens@);
    }
    None
}

proof fn lemma_token_index_extends(tokens: Seq<ResetToken>, t: Seq<char>, i: int)
    requires
        0 <= i < tokens.len(),
        token_index(tokens.take(i), t) == -1,
        tokens[i].token@ == t,
    ensures
        token_index(tokens, t) == i,
    decreases tokens.len() - i,
{
    if i == tokens.len() - 1 {
        assert(tokens.take(i) =~= tokens.drop_last());
    } else {
        assert(tokens.drop_last().take(i) =~= tokens.take(i));
        lemma_token_index_extends(tokens.drop_last(), t, i);
    }
}

/// Reports the state of a reset token; read-only and safe to call without
/// authentication, since the token itself is unguessable.
pub fn probe(store: &Store, token: &str, now: u64) -> (r: ProbeOutcome)
    ensures
        r == probe_spec(store.reset_tokens@, token@, now),
{
    let idx = match find_reset(store, token) {
        Some(i) => i,
        None => {
            return ProbeOutcome::NotFound;
        },
    };
    if store.reset_tokens[idx].used_at.is_some() {
        return ProbeOutcome::Gone;
    }
    if now > store.reset_tokens[idx].expires_at {
        return ProbeOutcome::Gone;
    }
    ProbeOutcome::Valid
}

/// Consumes a reset token: re-checks that it is still valid, rotates the
/// owning account's password to a fresh digest of `new_password`, and stamps
/// the token used — all on the exclusively held store, so the whole step is
/// atomic. On `NotFound` and `Gone` the store is untouched.
pub fn consume(
    store: &mut Store,
    token: &str,
    new_password: &str,
    pepper: &Vec<u8>,
    now: u64,
) -> (r: ConsumeOutcome)
    requires
        fits_argon2(pepper@, new_password@),
    ensures
        r == consume_outcome_spec(*old(store), token@, now),
        store_wf(*old(store)) ==> store_wf(*final(store)),
        r != ConsumeOutcome::Consumed ==> *final(store) == *old(store),
        r == ConsumeOutcome::Consumed ==> ({
            let i = token_index(old(store).reset_tokens@, token@);
            let uid = old(store).reset_tokens@[i].user_id;
            &&& final(store).revoked@ == old(store).revoked@
            &&& final(store).reset_tokens@.len() == old(store).reset_tokens@.len()
            &&& token_marked_used(
                old(store).reset_tokens@[i],
                final(store).reset_tokens@[i],
                now,
            )
            &&& forall|j: int|
                0 <= j < old(store).reset_tokens@.len() && j != i
                    ==> final(store).reset_tokens@[j] == old(store).reset_tokens@[j]
            &&& exists|digest: Seq<char>|
                {
                    &&& #[trigger] digest_wf(digest)
                    &&& digest_matches(pepper@, new_password@, digest)
                    &&& forall|other: Seq<char>|
                        other != new_password@ ==> !digest_matches(pepper@, other, digest)
                    &&& password_rotated(old(store).users@, final(store).users@, uid, digest)
                }
        }),
{
    let idx = match find_reset(store, token) {
        Some(i) => i,
        None => {
            return ConsumeOutcome::NotFound;
        },
    };
    if store.reset_tokens[idx].used_at.is_some() {
        return ConsumeOutcome::Gone;
    }
    if now > store.reset_tokens[idx].expires_at {
        return ConsumeOutcome::Gone;
    }
    let uid = store.reset_tokens[idx].user_id;
    let digest = hash(pepper, new_password);
    let ghost gdigest = digest@;
    let ghost old_users = store.users@;
    let ulen = store.users.len();
    let mut j: usize = 0;
    while j < ulen
        invariant
            j <= ulen,
            ulen == store.users@.len(),
            old_users.len() == ulen,
            digest@ == gdigest,
            store.reset_tokens@ == old(store).reset_tokens@,
            store.revoked@ == old(store).revoked@,
            forall|k: int|
                0 <= k < j ==> if old_users[k].id == uid {
                    account_with_digest(old_users[k], #[trigger] store.users@[k], gdigest)
                } else {
                    store.users@[k] == old_users[k]
                },
            forall|k: int| j <= k < ulen ==> store.users@[k] == old_users[k],
        decreases ulen - j,
    {
        if store.users[j].id == uid {
            store.users[j].password_hash = digest.clone();
        }
        j = j + 1;
    }
    store.reset_tokens[idx].used_at = Some(now);
    ConsumeOutcome::Consumed
}

/// Creates a reset token for `user_id`, expiring 24 hours from `now`, unused.
/// The one failure is a collision with an existing token string — vanishingly
/// unlikely for a fresh 64-character random token, and impossible while the
/// token table is empty — reported as `None` with the store untouched, as a
/// failed insert would be.
pub fn create_reset_token(store: &mut Store, user_id: u64, now: u64) -> (r: Option<String>)
    requires
        now + RESET_TOKEN_EXPIRATION <= u64::MAX,
    ensures
        match r {
            Some(t) => {
                &&& t@.len() == 64
                &&& forall|i: int| 0 <= i < t@.len() ==> is_alnum_char(t@[i])
                &&& token_index(old(store).reset_tokens@, t@) == -1
                &&& final(store).reset_tokens@.len() == old(store).reset_tokens@.len() + 1
                &&& final(store).reset_tokens@.last().token@ == t@
                &&& final(store).reset_tokens@.last().user_id == user_id
                &&& final(store).reset_tokens@.last().expires_at == now + RESET_TOKEN_EXPIRATION
                &&& final(store).reset_tokens@.last().used_at is None
                &&& forall|j: int|
                    0 <= j < old(store).reset_tokens@.len() ==> final(store).reset_tokens@[j]
                        == old(store).reset_tokens@[j]
                &&& final(store).users == old(store).users
                &&& final(store).revoked == old(store).revoked
            },
            None => *final(store) == *old(store) && old(store).reset_tokens@.len() > 0,
        },
{
    let token = random_alphanumeric_token();
    if find_reset(store, token.as_str()).is_some() {
        return None;
    }
    let row = ResetToken {
        token: token.clone(),
        user_id,
        expires_at: now + RESET_TOKEN_EXPIRATION,
        used_at: None,
    };
    store.reset_tokens.push(row);
    Some(token)
}

/// How a forgot-password submission ends. It says nothing about whether the
/// account exists: an unknown username is accepted all the same.
#[derive(Clone, Copy, PartialEq, Eq, Structural, Debug)]
pub enum SubmitOutcome {
    /// The request was taken; a token now awaits the side channel if the
    /// account exists.
    Accepted,
    /// The store could not take the token; safe to retry.
    StoreBusy,
}

/// Handles a forgot-password submission: if exactly one account answers to
/// the username under the case-insensitive collation, a fresh reset token is
/// stored for it; an unknown — or, as everywhere else, ambiguous — username
/// is accepted all the same with nothing stored, so the caller learns nothing
/// about whether the account exists. On an empty token table the submission
/// is always accepted; the surrounding transport must additionally hold the
/// response until a fixed deadline (see `response_deadline`).
pub fn forgot_password_submit(store: &mut Store, username: &str, now: u64) -> (r: SubmitOutcome)
    requires
        now + RESET_TOKEN_EXPIRATION <= u64::MAX,
    ensures
        old(store).reset_tokens@.len() == 0 ==> r == SubmitOutcome::Accepted,
        crate::store::match_count(old(store).users@, username@) != 1 ==> r
            == SubmitOutcome::Accepted && *final(store) == *old(store),
        crate::store::match_count(old(store).users@, username@) == 1 ==> ({
            let uid = old(store).users@[crate::store::first_match(
                old(store).users@,
                username@,
            )].id;
            match r {
                SubmitOutcome::Accepted => {
                    &&& final(store).reset_tokens@.len() == old(store).reset_tokens@.len() + 1
                    &&& final(store).reset_tokens@.last().user_id == uid
                    &&& final(store).reset_tokens@.last().expires_at == now
                        + RESET_TOKEN_EXPIRATION
                    &&& final(store).reset_tokens@.last().used_at is None
                    &&& final(store).reset_tokens@.last().token@.len() == 64
                    &&& forall|i: int|
                        0 <= i < final(store).reset_tokens@.last().token@.len() ==> is_alnum_char(
                            final(store).reset_tokens@.last().token@[i],
                        )
                    &&& token_index(
                        old(store).reset_tokens@,
                        final(store).reset_tokens@.last().token@,
                    ) == -1
                    &&& forall|j: int|
                        0 <= j < old(store).reset_tokens@.len() ==> final(store).reset_tokens@[j]
                            == old(store).reset_tokens@[j]
                    &&& final(store).users == old(store).users
                    &&& final(store).revoked == old(store).revoked
                },
                SubmitOutcome::StoreBusy => *final(store) == *old(store)
                    && old(store).reset_tokens@.len() > 0,
            }
        }),
{
    let idx = match store.lookup_username(username) {
        Some(i) => i,
        None => {
            return SubmitOutcome::Accepted;
        },
    };
    let uid = store.users[idx].id;
    match create_reset_token(store, uid, now) {
        Some(_) => SubmitOutcome::Accepted,
        None => SubmitOutcome::StoreBusy,
    }
}

/// The absolute instant before which a forgot-password response must not be
/// sent: the request's start plus the configured minimum latency, computed up
/// front so the wait does not depend on which branch ran.
pub fn response_deadline(start: u64, minimum: u64) -> (r: u64)
    ensures
        r == if start + minimum <= u64::MAX {
            (start + minimum) as u64
        } else {
            u64::MAX
        },
{
    if minimum <= u64::MAX - start {
        start + minimum
    } else {
        u64::MAX
    }
}

proof fn lemma_token_index_same_tokens(a: Seq<ResetToken>, b: Seq<ResetToken>, t: Seq<char>)
    requires
        a.len() == b.len(),
        forall|i: int| 0 <= i < a.len() ==> a[i].token@ == b[i].token@,
    ensures
        token_index(a, t) == token_index(b, t),
    decreases a.len(),
{
    if a.len() > 0 {
        assert(forall|i: int|
            0 <= i < a.drop_last().len() ==> a.drop_last()[i].token@ == b.drop_last()[i].token@);
        lemma_token_index_same_tokens(a.drop_last(), b.drop_last(), t);
    }
}

/// A used token and an expired never-used token probe the same: both are
/// `Gone`, with nothing to tell them apart.
pub proof fn lemma_used_and_expired_indistinguishable(
    tokens: Seq<ResetToken>,
    used: Seq<char>,
    expired: Seq<char>,
    now: u64,
)
    requires
        0 <= token_index(tokens, used) && tokens[token_index(tokens, used)].used_at is Some,
        0 <= token_index(tokens, expired) && tokens[token_index(tokens, expired)].used_at is None
            && now > tokens[token_index(tokens, expired)].expires_at,
    ensures
        probe_spec(tokens, used, now) == probe_spec(tokens, expired, now),
        probe_spec(tokens, used, now) == ProbeOutcome::Gone,
{
}

/// Once one consume of a token has returned `Ok`, every later consume of the
/// same token returns `Gone`, whatever the clock says: with the store handed
/// from caller to caller exclusively, at most one of any number of racing
/// consumes succeeds.
pub proof fn lemma_consume_single_use(s0: Store, s1: Store, t: Seq<char>, now1: u64, now2: u64)
    requires
        consume_outcome_spec(s0, t, now1) == ConsumeOutcome::Consumed,
        s1.reset_tokens@.len() == s0.reset_tokens@.len(),
        token_marked_used(
            s0.reset_tokens@[token_index(s0.reset_tokens@, t)],
            s1.reset_tokens@[token_index(s0.reset_tokens@, t)],
            now1,
        ),
        forall|j: int|
            0 <= j < s0.reset_tokens@.len() && j != token_index(s0.reset_tokens@, t)
                ==> s1.reset_tokens@[j] == s0.reset_tokens@[j],
    ensures
        consume_outcome_spec(s1, t, now2) == ConsumeOutcome::Gone,
{
    let i = token_index(s0.reset_tokens@, t);
    assert(forall|j: int|
        0 <= j < s0.reset_tokens@.len() ==> s0.reset_tokens@[j].token@
            == s1.reset_tokens@[j].token@);
    lemma_token_index_same_tokens(s0.reset_tokens@, s1.reset_tokens@, t);
    assert(token_index(s1.reset_tokens@, t) == i);
    assert(s1.reset_tokens@[i].used_at is Some);
}

} // verus!
