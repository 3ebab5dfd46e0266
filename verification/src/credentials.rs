//! Credential hashing: a slow, salted, one-way transform of a plaintext
//! secret into a storable 60-character hash, and verification of a
//! plaintext against a stored hash.

use vstd::prelude::*;
use crate::errors::UserError;

verus! {

/// The outcome of checking a plaintext against a stored hash: `None` where
/// the stored hash is malformed (or its embedded cost is out of range),
/// and `Some(b)` where the check ran, with `b` true exactly when the
/// plaintext matches.
pub uninterp spec fn bcrypt_check(plain: Seq<char>, hash: Seq<char>) -> Option<bool>;

/// The checking outcome, as the spec value of an executable result.
pub open spec fn check_view(r: Result<bool, bcrypt::BcryptError>) -> Option<bool> {
    match r {
        Ok(b) => Some(b),
        Err(_) => None,
    }
}

#[verifier::external_type_specification]
#[verifier::external_body]
pub struct ExBcryptError(bcrypt::BcryptError);

/// Relies on bcrypt's `hash` with the crate's default cost: the only
/// failure at an in-range cost is the operating system's randomness
/// source; a produced hash is always exactly 60 characters in the
/// modular-crypt form `$2b$12$...` — the fixed, documented work factor —
/// and holds the cost and salt under which `verify` recomputes the same
/// digest, so `verify` accepts the plaintext against it.
#[verifier::external_body]
fn bcrypt_hash(plain: &str) -> (r: Result<String, bcrypt::BcryptError>)
    ensures
        r matches Ok(h) ==> h@.len() == 60
            && h@[0] == '$' && h@[1] == '2' && h@[2] == 'b' && h@[3] == '$'
            && h@[4] == '1' && h@[5] == '2' && h@[6] == '$'
            && bcrypt_check(plain@, h@) == Some(true),
{
    bcrypt::hash(plain, bcrypt::DEFAULT_COST)
}

/// Relies on bcrypt's `verify`: it extracts cost and salt from the stored
/// hash and recomputes the digest, so its whole result is a function of
/// the plaintext and the stored hash alone.
#[verifier::external_body]
fn bcrypt_verify(plain: &str, hash: &str) -> (r: Result<bool, bcrypt::BcryptError>)
    ensures
        bcrypt_check(plain@, hash@) == check_view(r),
{
    bcrypt::verify(plain, hash)
}

/// Hashes a plaintext credential into its storable form.
///
/// The plaintext is unconstrained: no length or charset policy applies
/// here. On success the hash is 60 characters, begins with the `$`-led
/// work-factor prefix — so it differs from every plaintext of another
/// length or shape — and verifies against the plaintext; the only
/// failure is a catastrophic internal fault, reported as `InternalError`.
pub fn hash_credential(plain: &str) -> (r: Result<String, UserError>)
    ensures
        r matches Ok(h) ==> h@.len() == 60
            && h@[0] == '$'
            && bcrypt_check(plain@, h@) == Some(true),
        r matches Err(e) ==> e == UserError::InternalError,
{
    match bcrypt_hash(plain) {
        Ok(h) => Ok(h),
        Err(_) => Err(UserError::InternalError),
    }
}

/// Checks a plaintext credential against a stored hash, treating a
/// malformed stored hash as a mismatch.
pub fn credential_matches(plain: &str, hash: &str) -> (r: bool)
    ensures
        r == (bcrypt_check(plain@, hash@) == Some(true)),
{
    match bcrypt_verify(plain, hash) {
        Ok(b) => b,
        Err(_) => false,
    }
}

} // verus!
