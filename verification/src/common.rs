//! Small shared pieces: the per-process request-id counter and the
//! username well-formedness rule.

use vstd::prelude::*;

verus! {

/// Hands out one fresh request id after another, wrapping around at the
/// integer limit.
pub struct RequestIdCounter {
    inner: u64,
}

impl RequestIdCounter {
    /// The id the next call to `make_request_id` will hand out.
    pub closed spec fn count(&self) -> u64 {
        self.inner
    }

    /// A counter that starts at zero.
    pub fn new() -> (r: RequestIdCounter)
        ensures
            r.count() == 0,
    {
        RequestIdCounter { inner: 0 }
    }

    /// Returns the current id and steps the counter, wrapping on overflow.
    pub fn make_request_id(&mut self) -> (r: u64)
        ensures
            r == old(self).count(),
            final(self).count() == if old(self).count() == u64::MAX {
                0u64
            } else {
                (old(self).count() + 1) as u64
            },
    {
        let id = self.inner;
        if self.inner == u64::MAX {
            self.inner = 0;
        } else {
            self.inner = self.inner + 1;
        }
        id
    }
}

/// A username is 3 to 32 characters, each an ASCII letter, digit or underscore.
pub open spec fn valid_username_char(c: char) -> bool {
    ('a' <= c && c <= 'z') || ('A' <= c && c <= 'Z') || ('0' <= c && c <= '9') || c == '_'
}

/// The rule usernames must meet at registration.
pub open spec fn valid_username(s: Seq<char>) -> bool {
    3 <= s.len() <= 32 && forall|i: int| 0 <= i < s.len() ==> valid_username_char(s[i])
}

/// Checks a username against the registration rule.
pub fn is_valid_username(s: &str) -> (r: bool)
    ensures
        r == valid_username(s@),
{
    let len = s.unicode_len();
    if len < 3 || len > 32 {
        return false;
    }
    let mut i: usize = 0;
    while i < len
        invariant
            i <= len,
            len == s@.len(),
            3 <= len <= 32,
            forall|j: int| 0 <= j < i ==> valid_username_char(s@[j]),
        decreases len - i,
    {
        let c = s.get_char(i);
        let ok = ('a' <= c && c <= 'z') || ('A' <= c && c <= 'Z') || ('0' <= c && c <= '9') || c
            == '_';
        if !ok {
            return false;
        }
        i = i + 1;
    }
    true
}

} // verus!
