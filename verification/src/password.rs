//! The credential codec: hashing a plaintext password into a storable
//! digest and verifying a plaintext candidate against a stored digest.
//!
//! The digest is produced by bcrypt with its default cost. Hashing draws a
//! random salt, so two digests of the same password differ; whether a
//! digest matches a password is decided only through verification, never by
//! comparing digest strings.

use vstd::prelude::*;
use crate::error::LockerError;

verus! {

/// What verifying `password` against `digest` yields: `Some(b)` when the
/// digest is structurally sound and the match result is `b`, `None` when
/// the digest is malformed. Verification recomputes the hash from the salt
/// and cost stored in the digest, so the outcome is a function of the two
/// strings alone.
pub uninterp spec fn verify_outcome(password: Seq<char>, digest: Seq<char>) -> Option<bool>;

/// Relies on bcrypt::hash with bcrypt::DEFAULT_COST: every digest it
/// returns is a 60-character hash string that bcrypt::verify accepts and
/// matches against the same plaintext (verification re-derives the hash
/// from the salt and cost embedded in the digest). Because the digest is
/// structurally sound and its cost is in range, verifying any candidate
/// against it yields a definite true or false, never an error.
#[verifier::external_body]
fn bcrypt_hash(password: &str) -> (r: Option<String>)
    ensures
        r matches Some(digest) ==> verify_outcome(password@, digest@) == Some(true)
            && digest@.len() == 60 && (forall|candidate: Seq<char>|
            verify_outcome(candidate, digest@) is Some),
{
    bcrypt::hash(password, bcrypt::DEFAULT_COST).ok()
}

/// Relies on bcrypt::verify: its result is a function of the plaintext and
/// the stored digest alone; it errors exactly when the digest is not a
/// well-formed bcrypt hash string, which `None` stands for here.
#[verifier::external_body]
fn bcrypt_verify(password: &str, digest: &str) -> (r: Option<bool>)
    ensures
        r == verify_outcome(password@, digest@),
{
    bcrypt::verify(password, digest).ok()
}

/// Hashes a plaintext password into a storable digest.
///
/// On success the digest verifies as a match for `password`, and verifying
/// any other candidate against it yields a definite answer rather than an
/// error; on a hashing failure the error names the failed operation.
pub fn hash_password(password: &str) -> (r: Result<String, LockerError>)
    ensures
        r matches Ok(digest) ==> verify_outcome(password@, digest@) == Some(true)
            && digest@.len() == 60 && (forall|candidate: Seq<char>|
            verify_outcome(candidate, digest@) is Some),
        r matches Err(e) ==> (e matches LockerError::PasswordOperationFailed {
            operation,
            reason,
        } && operation@ == "hash"@ && reason@ == "Encryption error"@),
{
    match bcrypt_hash(password) {
        Some(digest) => Ok(digest),
        None => Err(LockerError::PasswordOperationFailed {
            operation: String::from_str("hash"),
            reason: String::from_str("Encryption error"),
        }),
    }
}

/// Verifies a plaintext candidate against a stored digest.
///
/// A wrong password yields `Ok(false)`, not an error; an error is returned
/// exactly when the stored digest is structurally malformed.
pub fn verify_password(input: &str, stored_password: &str) -> (r: Result<bool, LockerError>)
    ensures
        verify_outcome(input@, stored_password@) matches Some(b) ==> r matches Ok(v) && v == b,
        verify_outcome(input@, stored_password@) is None ==> (r matches Err(e)
            && e matches LockerError::PasswordOperationFailed { operation, reason }
            && operation@ == "verify"@ && reason@ == "Authentication error"@),
{
    match bcrypt_verify(input, stored_password) {
        Some(matched) => Ok(matched),
        None => Err(LockerError::PasswordOperationFailed {
            operation: String::from_str("verify"),
            reason: String::from_str("Authentication error"),
        }),
    }
}

} // verus!
