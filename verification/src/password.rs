//! Password hashing and verification on top of the Argon2id memory-hard KDF.
//!
//! `hash` salts the password with a fresh random salt and returns a
//! self-describing PHC string (algorithm, parameters, salt and digest in
//! one). `verify` re-derives the digest with the parameters embedded in the
//! stored string and compares in constant time. A malformed stored string is
//! a distinct error, never reported as a failed match.

use vstd::prelude::*;

use argon2::password_hash::Error as PhcError;
use argon2::{Argon2, PasswordHasher, PasswordVerifier};

verus! {

/// Longest password, in characters, that the hashing functions accept. Keeps
/// the UTF-8 encoding of the password within the KDF's supported password
/// length (`2^32 - 1` bytes), since a character encodes to at most 4 bytes.
pub const MAX_PASSWORD_LEN: usize = 0x3FFF_FFFF;

/// Why hashing or verification failed, as opposed to a failed match.
#[derive(Clone, Copy, Debug, PartialEq, Eq, Structural)]
pub enum HashError {
    /// The stored hash string could not be parsed or names parameters the
    /// KDF does not support; distinct from a wrong password.
    Malformed,
    /// A resource failure (random salt generation, working memory) outside
    /// the caller's control.
    Unexpected,
}

/// The outcome of checking a password against a stored PHC hash string:
/// `None` when the stored string is unusable (malformed or unsupported),
/// `Some(b)` when it is usable and the match outcome is `b`. The outcome is
/// a function of the password and the stored string alone.
pub uninterp spec fn pwd_check(pwd: Seq<char>, hash: Seq<char>) -> Option<bool>;

/// What a freshly computed hash `h` for password `pwd` satisfies: checking
/// `pwd` against `h` succeeds, and checking any other password fails.
pub open spec fn hash_of(h: Seq<char>, pwd: Seq<char>) -> bool {
    &&& pwd_check(pwd, h) == Some(true)
    &&& forall|q: Seq<char>|
        q != pwd && q.len() <= MAX_PASSWORD_LEN ==> #[trigger] pwd_check(q, h) == Some(false)
}

/// Relies on `argon2::PasswordHasher::hash_password`: generates a fresh
/// random 16-byte salt, applies Argon2id with the default cost parameters,
/// and encodes algorithm, parameters, salt and digest into one PHC string.
/// Verification of that string succeeds exactly on the hashed password
/// (Argon2's collision resistance assumed). Fails only on a resource
/// failure, never on a well-sized password.
#[verifier::external_body]
pub fn hash(pwd: &str) -> (r: Result<String, HashError>)
    requires
        pwd@.len() <= MAX_PASSWORD_LEN,
    ensures
        r matches Ok(h) ==> hash_of(h@, pwd@),
        r matches Err(e) ==> e == HashError::Unexpected,
{
    match Argon2::default().hash_password(pwd.as_bytes()) {
        Ok(h) => Ok(h.to_string()),
        Err(_) => Err(HashError::Unexpected),
    }
}

/// Relies on `argon2::PasswordVerifier::verify_password`: parses the PHC
/// string, re-derives the digest with the algorithm, parameters and salt
/// embedded in it, and compares in constant time. A parse or parameter
/// failure is reported before any derivation work, so `Malformed` is
/// returned exactly when the stored string is unusable.
#[verifier::external_body]
pub fn verify(pwd: &str, hash: &str) -> (r: Result<bool, HashError>)
    requires
        pwd@.len() <= MAX_PASSWORD_LEN,
    ensures
        r matches Ok(b) ==> pwd_check(pwd@, hash@) == Some(b),
        (r matches Err(e) && e == HashError::Malformed) <==> pwd_check(pwd@, hash@) is None,
{
    match Argon2::default().verify_password(pwd.as_bytes(), hash) {
        Ok(()) => Ok(true),
        Err(PhcError::PasswordInvalid) => Ok(false),
        Err(
            PhcError::Algorithm
            | PhcError::EncodingInvalid
            | PhcError::OutputSize
            | PhcError::ParamInvalid { .. }
            | PhcError::ParamsInvalid
            | PhcError::SaltInvalid
            | PhcError::Version,
        ) => Err(HashError::Malformed),
        Err(_) => Err(HashError::Unexpected),
    }
}

/// For every password, a hash computed for it verifies against it, and
/// against no other password of accepted length.
pub proof fn lemma_hash_verifies_only_its_password(p1: Seq<char>, p2: Seq<char>, h: Seq<char>)
    requires
        hash_of(h, p1),
        p2.len() <= MAX_PASSWORD_LEN,
    ensures
        pwd_check(p1, h) == Some(true),
        p2 != p1 ==> pwd_check(p2, h) == Some(false),
{
}

} // verus!
