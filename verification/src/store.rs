//! The persisted state the orchestrators decide over: accounts, the
//! revocation registry, and password-reset tokens.
//!
//! Usernames are compared ASCII-case-insensitively, the collation the account
//! table is looked up under. Lookups return the first match and report
//! whether it is unique; the revocation registry is an append-only set of
//! literal token strings.

use vstd::prelude::*;

use crate::password::digest_wf;

verus! {

/// One account row.
#[derive(Clone)]
pub struct Account {
    pub id: u64,
    pub username: String,
    /// PHC digest of the password (see `crate::password`).
    pub password_hash: String,
    pub display_name: Option<String>,
    pub email: Option<String>,
    /// When the email was verified, if it ever was.
    pub email_verified_at: Option<u64>,
    pub requires_second_factor: bool,
    /// Shared secret for the second factor, where one is enrolled.
    pub totp_secret: Option<Vec<u8>>,
}

/// One revoked-token row: the literal token string and when it was revoked.
#[derive(Clone)]
pub struct RevokedRecord {
    pub token: String,
    pub revoked_at: u64,
}

/// One password-reset-token row.
#[derive(Clone)]
pub struct ResetToken {
    pub token: String,
    pub user_id: u64,
    pub expires_at: u64,
    /// Set exactly once, when the token is consumed.
    pub used_at: Option<u64>,
}

/// The whole store.
#[derive(Clone)]
pub struct Store {
    pub users: Vec<Account>,
    pub revoked: Vec<RevokedRecord>,
    pub reset_tokens: Vec<ResetToken>,
}

/// ASCII-case-insensitive character equality.
pub open spec fn char_eq_nocase(a: char, b: char) -> bool {
    a == b || ('A' <= a && a <= 'Z' && b as int == a as int + 32) || ('a' <= a && a <= 'z'
        && b as int == a as int - 32)
}

/// ASCII-case-insensitive string equality — the collation usernames are
/// compared under.
pub open spec fn eq_nocase(a: Seq<char>, b: Seq<char>) -> bool {
    a.len() == b.len() && forall|i: int| 0 <= i < a.len() ==> char_eq_nocase(a[i], b[i])
}

/// Compares two strings ASCII-case-insensitively.
pub fn str_eq_nocase(a: &str, b: &str) -> (r: bool)
    ensures
        r == eq_nocase(a@, b@),
{
    let alen = a.unicode_len();
    let blen = b.unicode_len();
    if alen != blen {
        return false;
    }
    let mut i: usize = 0;
    while i < alen
        invariant
            i <= alen,
            alen == a@.len(),
            alen == b@.len(),
            forall|j: int| 0 <= j < i ==> char_eq_nocase(a@[j], b@[j]),
        decreases alen - i,
    {
        let ca = a.get_char(i);
        let cb = b.get_char(i);
        let ok = ca == cb || ('A' <= ca && ca <= 'Z' && cb as u32 == ca as u32 + 32) || ('a' <= ca
            && ca <= 'z' && cb as u32 + 32 == ca as u32);
        if !ok {
            assert(!char_eq_nocase(a@[i as int], b@[i as int]));
            return false;
        }
        i = i + 1;
    }
    true
}

/// Whether an account answers to `name`.
pub open spec fn account_matches(a: Account, name: Seq<char>) -> bool {
    eq_nocase(a.username@, name)
}

/// `b` is `a` with its password digest replaced by `digest` and everything
/// else kept.
pub open spec fn account_with_digest(a: Account, b: Account, digest: Seq<char>) -> bool {
    b.id == a.id && b.username == a.username && b.password_hash@ == digest && b.display_name
        == a.display_name && b.email == a.email && b.email_verified_at == a.email_verified_at
        && b.requires_second_factor == a.requires_second_factor && b.totp_secret == a.totp_secret
}

/// How many accounts answer to `name`.
pub open spec fn match_count(users: Seq<Account>, name: Seq<char>) -> nat
    decreases users.len(),
{
    if users.len() == 0 {
        0
    } else {
        match_count(users.drop_last(), name) + if account_matches(users.last(), name) {
            1nat
        } else {
            0nat
        }
    }
}

/// The first account answering to `name`, or -1.
pub open spec fn first_match(users: Seq<Account>, name: Seq<char>) -> int
    decreases users.len(),
{
    if users.len() == 0 {
        -1
    } else {
        let prev = first_match(users.drop_last(), name);
        if prev >= 0 {
            prev
        } else if account_matches(users.last(), name) {
            users.len() - 1
        } else {
            -1
        }
    }
}

/// The first account with the given id, or -1: id lookups take the first row.
pub open spec fn first_id_match(users: Seq<Account>, id: u64) -> int
    decreases users.len(),
{
    if users.len() == 0 {
        -1
    } else {
        let prev = first_id_match(users.drop_last(), id);
        if prev >= 0 {
            prev
        } else if users.last().id == id {
            users.len() - 1
        } else {
            -1
        }
    }
}

/// The greatest account id in use, 0 where there are no accounts.
pub open spec fn max_id(users: Seq<Account>) -> u64
    decreases users.len(),
{
    if users.len() == 0 {
        0
    } else {
        let m = max_id(users.drop_last());
        if users.last().id > m {
            users.last().id
        } else {
            m
        }
    }
}

/// Whether `token` is in the revocation registry.
pub open spec fn revoked_spec(revoked: Seq<RevokedRecord>, token: Seq<char>) -> bool {
    exists|i: int| 0 <= i < revoked.len() && revoked[i].token@ == token
}

/// What the store promises of its rows: every stored password digest is
/// well-formed (digests are only ever written by the hasher, so anything else
/// is internal corruption), and every enrolled second-factor secret is long
/// enough to derive codes from.
pub open spec fn store_wf(s: Store) -> bool {
    forall|i: int|
        0 <= i < s.users@.len() ==> digest_wf((#[trigger] s.users@[i]).password_hash@) && match s.users@[i].totp_secret {
            Some(sec) => sec@.len() >= 16,
            None => true,
        }
}

impl Store {
    /// An empty store.
    pub fn new() -> (r: Store)
        ensures
            r.users@.len() == 0,
            r.revoked@.len() == 0,
            r.reset_tokens@.len() == 0,
            store_wf(r),
    {
        Store { users: Vec::new(), revoked: Vec::new(), reset_tokens: Vec::new() }
    }

    /// Looks `name` up case-insensitively; an index comes back only when
    /// exactly one account answers to it.
    pub fn lookup_username(&self, name: &str) -> (r: Option<usize>)
        ensures
            match r {
                Some(i) => match_count(self.users@, name@) == 1 && i == first_match(
                    self.users@,
                    name@,
                ) && i < self.users@.len() && account_matches(self.users@[i as int], name@),
                None => match_count(self.users@, name@) != 1,
            },
    {
        let len = self.users.len();
        let mut i: usize = 0;
        let mut count: usize = 0;
        let mut found: usize = 0;
        while i < len
            invariant
                i <= len,
                len == self.users@.len(),
                count == match_count(self.users@.take(i as int), name@),
                count <= i,
                count > 0 ==> found == first_match(self.users@.take(i as int), name@) && found < i
                    && account_matches(self.users@[found as int], name@),
                count == 0 ==> first_match(self.users@.take(i as int), name@) == -1,
            decreases len - i,
        {
            proof {
                assert(self.users@.take(i as int + 1).drop_last() =~= self.users@.take(i as int));
                assert(self.users@.take(i as int + 1).last() == self.users@[i as int]);
            }
            if str_eq_nocase(self.users[i].username.as_str(), name) {
                if count == 0 {
                    found = i;
                }
                count = count + 1;
            }
            i = i + 1;
        }
        proof {
            assert(self.users@.take(len as int) =~= self.users@);
        }
        if count == 1 {
            Some(found)
        } else {
            None
        }
    }

    /// Looks an account up by id; the first row with that id answers.
    pub fn lookup_id(&self, id: u64) -> (r: Option<usize>)
        ensures
            match r {
                Some(i) => i == first_id_match(self.users@, id) && i < self.users@.len()
                    && self.users@[i as int].id == id,
                None => first_id_match(self.users@, id) == -1,
            },
    {
        let len = self.users.len();
        let mut i: usize = 0;
        while i < len
            invariant
                i <= len,
                len == self.users@.len(),
                first_id_match(self.users@.take(i as int), id) == -1,
            decreases len - i,
        {
            proof {
                assert(self.users@.take(i as int + 1).drop_last() =~= self.users@.take(i as int));
                assert(self.users@.take(i as int + 1).last() == self.users@[i as int]);
            }
            if self.users[i].id == id {
                proof {
                    lemma_first_id_match_extends(self.users@, id, i as int);
                }
                return Some(i);
            }
            i = i + 1;
        }
        proof {
            assert(self.users@.take(len as int) =~= self.users@);
        }
        None
    }

    /// How many accounts answer to `name` case-insensitively.
    pub fn count_username_matches(&self, name: &str) -> (r: usize)
        ensures
            r == match_count(self.users@, name@),
    {
        let len = self.users.len();
        let mut i: usize = 0;
        let mut count: usize = 0;
        while i < len
            invariant
                i <= len,
                len == self.users@.len(),
                count == match_count(self.users@.take(i as int), name@),
                count <= i,
            decreases len - i,
        {
            proof {
                assert(self.users@.take(i as int + 1).drop_last() =~= self.users@.take(i as int));
                assert(self.users@.take(i as int + 1).last() == self.users@[i as int]);
            }
            if str_eq_nocase(self.users[i].username.as_str(), name) {
                count = count + 1;
            }
            i = i + 1;
        }
        proof {
            assert(self.users@.take(len as int) =~= self.users@);
        }
        count
    }

    /// The greatest account id in use.
    pub fn max_account_id(&self) -> (r: u64)
        ensures
            r == max_id(self.users@),
    {
        let len = self.users.len();
        let mut i: usize = 0;
        let mut top: u64 = 0;
        while i < len
            invariant
                i <= len,
                len == self.users@.len(),
                top == max_id(self.users@.take(i as int)),
            decreases len - i,
        {
            proof {
                assert(self.users@.take(i as int + 1).drop_last() =~= self.users@.take(i as int));
                assert(self.users@.take(i as int + 1).last() == self.users@[i as int]);
            }
            if self.users[i].id > top {
                top = self.users[i].id;
            }
            i = i + 1;
        }
        proof {
            assert(self.users@.take(len as int) =~= self.users@);
        }
        top
    }

    /// Whether `token` has been revoked: an exact-string membership test.
    pub fn is_revoked(&self, token: &str) -> (r: bool)
        ensures
            r == revoked_spec(self.revoked@, token@),
    {
        let len = self.revoked.len();
        let mut i: usize = 0;
        while i < len
            invariant
                i <= len,
                len == self.revoked@.len(),
                forall|j: int| 0 <= j < i ==> self.revoked@[j].token@ != token@,
            decreases len - i,
        {
            if self.revoked[i].token == token.to_owned() {
                return true;
            }
            i = i + 1;
        }
        false
    }

    /// Puts `token` into the revocation registry; inserting an already
    /// revoked token changes nothing.
    pub fn revoke(&mut self, token: String, now: u64)
        ensures
            revoked_spec(final(self).revoked@, token@),
            final(self).revoked@ == if revoked_spec(old(self).revoked@, token@) {
                old(self).revoked@
            } else {
                old(self).revoked@.push((RevokedRecord { token: token, revoked_at: now }))
            },
            final(self).users == old(self).users,
            final(self).reset_tokens == old(self).reset_tokens,
    {
        if !self.is_revoked(token.as_str()) {
            let ghost pre = self.revoked@;
            self.revoked.push(RevokedRecord { token, revoked_at: now });
            proof {
                assert(self.revoked@[pre.len() as int].token@ == token@);
            }
        }
    }
}

proof fn lemma_first_id_match_extends(users: Seq<Account>, id: u64, i: int)
    requires
        0 <= i < users.len(),
        first_id_match(users.take(i), id) == -1,
        users[i].id == id,
    ensures
        first_id_match(users, id) == i,
    decreases users.len() - i,
{
    if i == users.len() - 1 {
        assert(users.take(i) =~= users.drop_last());
        assert(users.last().id == id);
    } else {
        assert(users.drop_last().take(i) =~= users.take(i));
        lemma_first_id_match_extends(users.drop_last(), id, i);
    }
}

} // verus!
