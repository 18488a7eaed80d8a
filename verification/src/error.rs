//! Error taxonomy of the authentication core.
//!
//! Validation and conflict errors carry field-level detail, safe to expose to
//! a client. Authentication failures are deliberately coarse: a login that
//! fails because the user does not exist and one that fails because the
//! password is wrong both surface as `WrongCredentials`, so that the error
//! cannot be used to enumerate accounts. Storage or codec failures that the
//! caller cannot act on are collapsed into `Internal`.

use vstd::prelude::*;

verus! {

/// A form field that failed validation.
#[derive(Clone, Copy, Debug, PartialEq, Eq, Structural)]
pub enum Field {
    Username,
    Email,
    Password,
    Age,
    About,
}

/// The unique column that an insert collided on.
#[derive(Clone, Copy, Debug, PartialEq, Eq, Structural)]
pub enum UniqueField {
    Email,
    Username,
}

/// Why a bearer token was rejected.
#[derive(Clone, Copy, Debug, PartialEq, Eq, Structural)]
pub enum TokenFault {
    /// The authorization header is absent or does not carry a bearer token.
    MissingBearer,
    /// The token is malformed or its signature does not check out.
    Invalid,
    /// The token was well formed and correctly signed, but its expiry has
    /// passed.
    Expired,
}

/// The error type shared by the whole authentication core.
#[derive(Clone, Copy, Debug, PartialEq, Eq, Structural)]
pub enum Error {
    /// A field of a request body broke a format or length rule.
    Validation(Field),
    /// A uniqueness constraint was violated; names the conflicting field.
    Conflict(UniqueField),
    /// Unknown user or wrong password, deliberately not distinguished.
    WrongCredentials,
    /// A point lookup found no record.
    NotFound,
    /// A bearer token was missing, unusable or expired.
    Unauthorized(TokenFault),
    /// A failure of the store or of a cryptographic primitive that the
    /// client cannot act on.
    Internal,
}

impl Error {
    /// A client-safe description of the error.
    pub fn message(&self) -> (r: &'static str)
        ensures
            r@.len() > 0,
    {
        let m: &'static str = match self {
            Error::Validation(_) => "A field failed validation.",
            Error::Conflict(UniqueField::Username) => "This username is already taken.",
            Error::Conflict(UniqueField::Email) => "This email is already taken.",
            Error::WrongCredentials => "Wrong credentials.",
            Error::NotFound => "The requested resource was not found.",
            Error::Unauthorized(_) => "Unauthorized.",
            Error::Internal => "Unexpected error happened.",
        };
        proof {
            reveal_strlit("A field failed validation.");
            reveal_strlit("This username is already taken.");
            reveal_strlit("This email is already taken.");
            reveal_strlit("Wrong credentials.");
            reveal_strlit("The requested resource was not found.");
            reveal_strlit("Unauthorized.");
            reveal_strlit("Unexpected error happened.");
        }
        m
    }

    /// The HTTP status code the error maps to at the edge of the system.
    pub fn status_code(&self) -> (r: u16)
        ensures
            r == self.spec_status_code(),
    {
        match self {
            Error::Validation(_) => 400,
            Error::Conflict(_) => 409,
            Error::WrongCredentials => 401,
            Error::NotFound => 404,
            Error::Unauthorized(_) => 401,
            Error::Internal => 500,
        }
    }

    /// What `status_code` returns for each variant.
    pub open spec fn spec_status_code(&self) -> u16 {
        match self {
            Error::Validation(_) => 400,
            Error::Conflict(_) => 409,
            Error::WrongCredentials => 401,
            Error::NotFound => 404,
            Error::Unauthorized(_) => 401,
            Error::Internal => 500,
        }
    }
}

} // verus!
