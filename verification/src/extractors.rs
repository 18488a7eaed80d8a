//! The request authenticator: from an authorization header value to the
//! authenticated user.
//!
//! Extracts the bearer token from the header, verifies it with the token
//! codec, and resolves the subject to a live record in the credential
//! store. Every failure short-circuits: a missing or non-bearer header, a
//! bad or expired token, and a subject whose record no longer exists are
//! each rejected before any handler could run.

use vstd::prelude::*;

use crate::error::{Error, TokenFault};
use crate::store::{has_id, User, UserStore};
use crate::token::{verify_outcome, Claims};

verus! {

/// The authenticated user yielded to a downstream handler.
#[derive(Debug)]
pub struct LoggedInUser(pub User);

/// Just the authenticated identity, for flows that only need the id.
#[derive(Debug)]
pub struct LoggedInUserId(pub u128);

/// The bearer token of an authorization header value: what follows the
/// `"Bearer "` scheme prefix, if the value carries it.
pub open spec fn bearer_token_of(header: Seq<char>) -> Option<Seq<char>> {
    if header.len() >= 7 && header.subrange(0, 7) == "Bearer "@ {
        Some(header.skip(7))
    } else {
        None
    }
}

/// Extract the bearer token from an authorization header value, if the
/// value is the `Bearer` scheme followed by a token.
pub fn parse_bearer(header: &str) -> (r: Option<&str>)
    ensures
        match r {
            Some(t) => bearer_token_of(header@) == Some(t@),
            None => bearer_token_of(header@) is None,
        },
{
    proof {
        reveal_strlit("Bearer ");
    }
    let prefix = "Bearer ";
    let len = header.unicode_len();
    if len < 7 {
        return None;
    }
    let mut i: usize = 0;
    while i < 7
        invariant
            i <= 7,
            len == header@.len(),
            len >= 7,
            prefix@ == "Bearer "@,
            prefix@.len() == 7,
            forall|j: int| 0 <= j < i ==> header@[j] == prefix@[j],
        decreases 7 - i,
    {
        if header.get_char(i) != prefix.get_char(i) {
            proof {
                assert(header@.subrange(0, 7)[i as int] == header@[i as int]);
            }
            return None;
        }
        i += 1;
    }
    proof {
        assert(header@.subrange(0, 7) =~= "Bearer "@);
        assert(header@.subrange(7, len as int) =~= header@.skip(7));
    }
    Some(header.substring_char(7, len))
}

/// Everything `authenticate` ensures: the bearer token is extracted, the
/// codec's verdict is passed through unchanged, and a valid claim is then
/// resolved against the store — yielding the record the subject names, or
/// the coarse credentials error when that record no longer exists.
pub open spec fn authenticate_post(
    s: Seq<User>,
    header: Seq<char>,
    secret: Seq<char>,
    now: u64,
    r: Result<LoggedInUser, Error>,
) -> bool {
    match bearer_token_of(header) {
        None => r == Err::<LoggedInUser, Error>(Error::Unauthorized(TokenFault::MissingBearer)),
        Some(tok) => match verify_outcome(tok, secret, now) {
            Err(e) => r == Err::<LoggedInUser, Error>(e),
            Ok(claims) => if !has_id(s, claims.sub) {
                r == Err::<LoggedInUser, Error>(Error::WrongCredentials)
            } else {
                r matches Ok(lu) && exists|i: int|
                    0 <= i < s.len() && (#[trigger] s[i]) == lu.0 && lu.0.id == claims.sub
            },
        },
    }
}

/// Authenticate a request from its authorization header value: extract the
/// bearer token, verify it, and resolve the subject to a live user.
pub fn authenticate(store: &UserStore, secret: &str, header: &str, now: u64) -> (r: Result<
    LoggedInUser,
    Error,
>)
    ensures
        authenticate_post(store@, header@, secret@, now, r),
{
    let token = match parse_bearer(header) {
        Some(t) => t,
        None => { return Err(Error::Unauthorized(TokenFault::MissingBearer)) },
    };
    let claims = match Claims::verify(token, secret, now) {
        Ok(c) => c,
        Err(e) => { return Err(e) },
    };
    match store.get_by_id(claims.sub) {
        Ok(u) => Ok(LoggedInUser(u)),
        Err(_) => Err(Error::WrongCredentials),
    }
}

/// Authenticate a request down to the identity only, without touching the
/// store: extract the bearer token, verify it, and yield the subject.
pub fn authenticate_id(secret: &str, header: &str, now: u64) -> (r: Result<LoggedInUserId, Error>)
    ensures
        match bearer_token_of(header@) {
            None => r == Err::<LoggedInUserId, Error>(
                Error::Unauthorized(TokenFault::MissingBearer),
            ),
            Some(tok) => match verify_outcome(tok, secret@, now) {
                Err(e) => r == Err::<LoggedInUserId, Error>(e),
                Ok(claims) => r matches Ok(lid) && lid.0 == claims.sub,
            },
        },
{
    let token = match parse_bearer(header) {
        Some(t) => t,
        None => { return Err(Error::Unauthorized(TokenFault::MissingBearer)) },
    };
    match Claims::verify(token, secret, now) {
        Ok(c) => Ok(LoggedInUserId(c.sub)),
        Err(e) => Err(e),
    }
}

} // verus!
