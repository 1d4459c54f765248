use vstd::prelude::*;

use argon2::password_hash::{PasswordHash, PasswordHasher, PasswordVerifier, Salt};
use argon2::Argon2;

verus! {

/// What argon2 with its default parameters produces for a password and a
/// B64 salt: the PHC string, or nothing where the salt or password is refused.
pub uninterp spec fn argon2_phc(password: Seq<char>, salt: Seq<char>) -> Option<Seq<char>>;

/// Whether a stored text is a well-formed PHC password hash string.
pub uninterp spec fn phc_parses(phc: Seq<char>) -> bool;

/// Whether argon2 recomputes the stored hash from the password.
pub uninterp spec fn argon2_accepts(password: Seq<char>, phc: Seq<char>) -> bool;

/// Relies on argon2's `PasswordHasher::hash_password` (default `Argon2`), with
/// `Salt::from_b64` reading the salt: the outcome depends on the password and
/// salt alone.
#[verifier::external_body]
fn argon2_hash(password: &str, salt: &str) -> (r: Option<String>)
    ensures
        match r {
            Some(h) => argon2_phc(password@, salt@) == Some(h@),
            None => argon2_phc(password@, salt@) is None,
        },
{
    match Salt::from_b64(salt) {
        Ok(s) => match Argon2::default().hash_password(password.as_bytes(), s) {
            Ok(h) => Some(h.to_string()),
            Err(_) => None,
        },
        Err(_) => None,
    }
}

/// Relies on password-hash's `PasswordHash::new` to read the stored PHC
/// string, and on argon2's `PasswordVerifier::verify_password` to check the
/// password against it.
#[verifier::external_body]
fn argon2_verify(password: &str, phc: &str) -> (r: Option<bool>)
    ensures
        r is None <==> !phc_parses(phc@),
        r matches Some(b) ==> b == argon2_accepts(password@, phc@),
{
    match PasswordHash::new(phc) {
        Ok(parsed) => Some(Argon2::default().verify_password(password.as_bytes(), &parsed).is_ok()),
        Err(_) => None,
    }
}

/// Why a local password check or setup did not succeed.
#[derive(Clone, Copy, Debug, PartialEq, Eq, Structural)]
pub enum PasswordError {
    /// The stored hash is not a readable PHC string: the store is corrupt.
    CorruptHash,
    /// The password does not match the stored hash.
    Mismatch,
    /// The new password and its confirmation differ.
    ConfirmationMismatch,
    /// Hashing refused the password or the salt.
    HashingFailed,
}

/// The verdict of a local password check against a stored hash.
pub open spec fn check_outcome(password: Seq<char>, phc: Seq<char>) -> Result<(), PasswordError> {
    if !phc_parses(phc) {
        Err(PasswordError::CorruptHash)
    } else if argon2_accepts(password, phc) {
        Ok(())
    } else {
        Err(PasswordError::Mismatch)
    }
}

/// The outcome of setting a new password from two entries and a fresh salt.
pub open spec fn setup_outcome(password: Seq<char>, confirmation: Seq<char>, salt: Seq<char>) -> Result<Seq<char>, PasswordError> {
    if password != confirmation {
        Err(PasswordError::ConfirmationMismatch)
    } else {
        match argon2_phc(password, salt) {
            Some(h) => Ok(h),
            None => Err(PasswordError::HashingFailed),
        }
    }
}

/// Checks an operator-supplied password against the stored hash.
pub fn verify_password(password: &str, password_hash: &str) -> (r: Result<(), PasswordError>)
    ensures
        r == check_outcome(password@, password_hash@),
{
    match argon2_verify(password, password_hash) {
        None => Err(PasswordError::CorruptHash),
        Some(true) => Ok(()),
        Some(false) => Err(PasswordError::Mismatch),
    }
}

/// Turns a new password, typed twice, into the hash to store, salted with `salt`
/// (B64, drawn fresh by the caller for every record).
pub fn hash_new_password(password: &str, confirmation: &str, salt: &str) -> (r: Result<String, PasswordError>)
    ensures
        match r {
            Ok(h) => setup_outcome(password@, confirmation@, salt@) == Ok::<Seq<char>, PasswordError>(h@),
            Err(e) => setup_outcome(password@, confirmation@, salt@) == Err::<Seq<char>, PasswordError>(e),
        },
{
    if !str_eq(password, confirmation) {
        return Err(PasswordError::ConfirmationMismatch);
    }
    match argon2_hash(password, salt) {
        Some(h) => Ok(h),
        None => Err(PasswordError::HashingFailed),
    }
}

/// Character-wise equality of two strings.
fn str_eq(a: &str, b: &str) -> (r: bool)
    ensures
        r == (a@ == b@),
{
    let sa = a.to_owned();
    let sb = b.to_owned();
    sa == sb
}

} // verus!
