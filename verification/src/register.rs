//! Account registration: username rule, password floor, uniqueness.

use vstd::prelude::*;

use crate::common::valid_username;
use crate::password::{digest_matches, digest_wf, fits_argon2, hash};
use crate::store::{match_count, max_id, store_wf, Account, Store};

verus! {

/// The fewest bytes a password may have.
pub const MIN_PASSWORD_LEN: usize = 8;

/// A registration request.
pub struct RegisterUserDto {
    pub username: String,
    pub password: String,
    pub email: Option<String>,
    pub display_name: Option<String>,
}

/// How a registration ends.
#[derive(Clone, Copy, PartialEq, Eq, Structural, Debug)]
pub enum RegisterOutcome {
    /// The account exists now.
    Registered,
    /// The username breaks the 3-to-32 letters-digits-underscores rule.
    InvalidUsername,
    /// The password is shorter than the floor.
    InsecurePassword,
    /// Another account already answers to that username.
    UsernameTaken,
    /// The store cannot mint a fresh account id; safe to retry later.
    StoreBusy,
}

/// The registration decision: the username rule, then the password floor,
/// then case-insensitive uniqueness, then a fresh id must exist.
pub open spec fn register_kind(s: Store, dto: RegisterUserDto) -> RegisterOutcome {
    if !valid_username(dto.username@) {
        RegisterOutcome::InvalidUsername
    } else if vstd::utf8::encode_utf8(dto.password@).len() < MIN_PASSWORD_LEN {
        RegisterOutcome::InsecurePassword
    } else if match_count(s.users@, dto.username@) > 0 {
        RegisterOutcome::UsernameTaken
    } else if max_id(s.users@) == u64::MAX {
        RegisterOutcome::StoreBusy
    } else {
        RegisterOutcome::Registered
    }
}

/// Registers an account: on `Registered` one new account stands at the end of
/// the user list, carrying a fresh id, the given profile, a digest of the
/// given password, no second factor, and no verified email; on every other
/// outcome the store is untouched.
pub fn register(store: &mut Store, dto: RegisterUserDto, pepper: &Vec<u8>) -> (r: RegisterOutcome)
    requires
        store_wf(*old(store)),
        fits_argon2(pepper@, dto.password@),
    ensures
        store_wf(*final(store)),
        r == register_kind(*old(store), dto),
        !(r == RegisterOutcome::Registered) ==> *final(store) == *old(store),
        r == RegisterOutcome::Registered ==> ({
            let a = final(store).users@.last();
            &&& final(store).users@.len() == old(store).users@.len() + 1
            &&& forall|j: int|
                0 <= j < old(store).users@.len() ==> final(store).users@[j] == old(store).users@[j]
            &&& a.id == max_id(old(store).users@) + 1
            &&& a.username == dto.username
            &&& digest_wf(a.password_hash@)
            &&& digest_matches(pepper@, dto.password@, a.password_hash@)
            &&& forall|other: Seq<char>|
                other != dto.password@ ==> !digest_matches(pepper@, other, a.password_hash@)
            &&& a.display_name == dto.display_name
            &&& a.email == dto.email
            &&& a.email_verified_at is None
            &&& a.requires_second_factor == false
            &&& a.totp_secret is None
            &&& final(store).revoked == old(store).revoked
            &&& final(store).reset_tokens == old(store).reset_tokens
        }),
{
    if !crate::common::is_valid_username(dto.username.as_str()) {
        return RegisterOutcome::InvalidUsername;
    }
    if dto.password.as_str().as_bytes().len() < MIN_PASSWORD_LEN {
        return RegisterOutcome::InsecurePassword;
    }
    if store.count_username_matches(dto.username.as_str()) > 0 {
        return RegisterOutcome::UsernameTaken;
    }
    let top = store.max_account_id();
    if top == u64::MAX {
        return RegisterOutcome::StoreBusy;
    }
    let password_hash = hash(pepper, dto.password.as_str());
    let account = Account {
        id: top + 1,
        username: dto.username,
        password_hash,
        display_name: dto.display_name,
        email: dto.email,
        email_verified_at: None,
        requires_second_factor: false,
        totp_secret: None,
    };
    store.users.push(account);
    RegisterOutcome::Registered
}

} // verus!
