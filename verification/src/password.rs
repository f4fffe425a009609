//! Passwords: which ones are accepted, and how they are hashed and verified.
//!
//! Hashing is salted and slow, and is done by the `password-auth` crate. The
//! core stores the hash strings that it returns and never a password.

use vstd::prelude::*;
use vstd::string::StrSliceExecFns;
use vstd::string::StringSliceAdditionalSpecFns;
use vstd::utf8::encode_utf8;
use crate::error::AuthError;

verus! {

/// Whether `password` verifies against the hash string `hash`.
///
/// This names the outcome of `password_auth::verify_password`, which depends on
/// nothing but its two arguments.
pub uninterp spec fn password_matches(password: Seq<char>, hash: Seq<char>) -> bool;

/// The shortest password that an account can be created with, in UTF-8 bytes.
pub const MIN_PASSWORD_BYTES: usize = 8;

/// The longest password that an account can be created with, in UTF-8 bytes.
pub const MAX_PASSWORD_BYTES: usize = 128;

/// The longest password that the hash function takes, in UTF-8 bytes.
pub const MAX_HASHABLE_BYTES: usize = 0xFFFF_FFFF;

/// White space, as Unicode defines it.
pub open spec fn is_blank(c: char) -> bool {
    let code = c as u32;
    ||| 0x09 <= code <= 0x0d
    ||| code == 0x20
    ||| code == 0x85
    ||| code == 0xa0
    ||| code == 0x1680
    ||| 0x2000 <= code <= 0x200a
    ||| code == 0x2028
    ||| code == 0x2029
    ||| code == 0x202f
    ||| code == 0x205f
    ||| code == 0x3000
}

/// A password is weak when it is shorter than [`MIN_PASSWORD_BYTES`], longer
/// than [`MAX_PASSWORD_BYTES`], or made of white space alone.
pub open spec fn weak_password(password: Seq<char>) -> bool {
    ||| encode_utf8(password).len() < MIN_PASSWORD_BYTES
    ||| encode_utf8(password).len() > MAX_PASSWORD_BYTES
    ||| forall|i: int| 0 <= i < password.len() ==> is_blank(#[trigger] password[i])
}

fn blank(c: char) -> (b: bool)
    ensures
        b == is_blank(c),
{
    let code: u32 = c as u32;
    (0x09 <= code && code <= 0x0d) || code == 0x20 || code == 0x85 || code == 0xa0 || code
        == 0x1680 || (0x2000 <= code && code <= 0x200a) || code == 0x2028 || code == 0x2029
        || code == 0x202f || code == 0x205f || code == 0x3000
}

/// Decides [`weak_password`].
pub fn is_weak_password(password: &str) -> (weak: bool)
    ensures
        weak == weak_password(password@),
{
    let bytes = password.as_bytes().len();
    if bytes < MIN_PASSWORD_BYTES || bytes > MAX_PASSWORD_BYTES {
        return true;
    }
    let n = password.unicode_len();
    let mut i: usize = 0;
    while i < n
        invariant
            n == password@.len(),
            i <= n,
            MIN_PASSWORD_BYTES <= encode_utf8(password@).len() <= MAX_PASSWORD_BYTES,
            forall|j: int| 0 <= j < i ==> is_blank(#[trigger] password@[j]),
        decreases n - i,
    {
        if !blank(password.get_char(i)) {
            assert(!is_blank(password@[i as int]));
            return false;
        }
        i = i + 1;
    }
    true
}

/// Calls `password_auth::generate_hash`, which salts the password with fresh
/// randomness and hashes it with Argon2. The call panics on a password that
/// Argon2 refuses as too long, so such a password is not handed to it.
///
/// Trusted: the returned hash verifies against the password it was made from.
/// Nothing else is claimed of it; two calls on one password give different
/// strings.
#[verifier::external_body]
pub(crate) fn hash_password(password: &str) -> (hash: String)
    requires
        password.spec_bytes().len() <= MAX_HASHABLE_BYTES,
    ensures
        password_matches(password@, hash@),
{
    password_auth::generate_hash(password)
}

/// Checks a new password against the policy and hashes it: a weak password
/// is refused, any other is hashed with a fresh salt. This takes the time of
/// one hashing and touches no store, so it can be done before a store is
/// borrowed.
pub fn digest(password: &str) -> (result: Result<String, AuthError>)
    ensures
        match result {
            Ok(hash) => !weak_password(password@) && password_matches(password@, hash@),
            Err(e) => e == AuthError::WeakPassword && weak_password(password@),
        },
{
    if is_weak_password(password) {
        Err(AuthError::WeakPassword)
    } else {
        Ok(hash_password(password))
    }
}

/// Calls `password_auth::verify_password`, which parses `hash`, recomputes it
/// from `password` and compares the two digests in constant time.
///
/// Trusted: the answer is a function of the two strings alone. A hash that
/// does not parse verifies for no password.
#[verifier::external_body]
pub(crate) fn verify_password(password: &str, hash: &str) -> (ok: bool)
    ensures
        ok == password_matches(password@, hash@),
{
    password_auth::verify_password(password, hash).is_ok()
}

} // verus!
