//! Signed, expiring identity tokens.
//!
//! A claim binds a user identifier (`sub`) to an absolute expiry timestamp
//! (`exp`, seconds). Claims are signed into compact tokens with a
//! server-wide secret under HMAC-SHA256; verification accepts exactly the
//! tokens signed with the configured secret and algorithm, and a claim is
//! valid strictly before its expiry. Validity is stateless: signature and
//! expiry only, no revocation list.

use vstd::prelude::*;

use crate::error::{Error, TokenFault};
use jsonwebtoken::{Algorithm, DecodingKey, EncodingKey, Header, Validation};

verus! {

/// How long a freshly issued claim lives, in seconds (24 hours, fixed at
/// issuance, no sliding renewal).
pub const TOKEN_TTL_SECONDS: u64 = 86400;

/// An identity claim: the subject it asserts and when it stops being valid.
#[derive(Clone, Copy, Debug, PartialEq, Eq, Structural)]
pub struct Claims {
    /// The identifier of the user the claim asserts.
    pub sub: u128,
    /// Absolute expiry, in seconds; the claim is valid strictly before it.
    pub exp: u64,
}

/// The payload that decoding `token` under `secret` yields: `None` when the
/// token is malformed, not HMAC-SHA256, or its signature does not check out
/// under `secret`; `Some((sub, exp))` otherwise. A function of the token and
/// the secret alone; expiry plays no part in it.
pub uninterp spec fn token_payload(token: Seq<char>, secret: Seq<char>) -> Option<(u128, u64)>;

/// What verifying `token` under `secret` at time `now` returns.
pub open spec fn verify_outcome(token: Seq<char>, secret: Seq<char>, now: u64) -> Result<
    Claims,
    Error,
> {
    match token_payload(token, secret) {
        None => Err(Error::Unauthorized(TokenFault::Invalid)),
        Some((sub, exp)) => if now < exp {
            Ok((Claims { sub, exp }))
        } else {
            Err(Error::Unauthorized(TokenFault::Expired))
        },
    }
}

/// Relies on `jsonwebtoken::decode`: checks that the token's header names
/// the configured algorithm (HMAC-SHA256 only), verifies the signature
/// against `secret`, and deserializes the payload. Expiry validation is
/// turned off here; callers check expiry themselves, so the result depends
/// on the token and the secret alone.
#[verifier::external_body]
fn jwt_decode(token: &str, secret: &str) -> (r: Option<(u128, u64)>)
    ensures
        r == token_payload(token@, secret@),
{
    let key = DecodingKey::from_secret(secret.as_bytes());
    let mut validation = Validation::new(Algorithm::HS256);
    validation.validate_exp = false;
    validation.required_spec_claims.clear();
    let data = match jsonwebtoken::decode::<serde_json::Value>(token, &key, &validation) {
        Ok(d) => d,
        Err(_) => return None,
    };
    let sub = data.claims.get("sub")?.as_str()?.parse::<u128>().ok()?;
    let exp = data.claims.get("exp")?.as_u64()?;
    Some((sub, exp))
}

impl Claims {
    /// A claim for user `id` issued at time `now`, expiring a fixed 24 hours
    /// later.
    pub fn new(id: u128, now: u64) -> (c: Claims)
        requires
            now + TOKEN_TTL_SECONDS <= u64::MAX,
        ensures
            c.sub == id,
            c.exp == now + TOKEN_TTL_SECONDS,
    {
        Claims { sub: id, exp: now + TOKEN_TTL_SECONDS }
    }

    /// Relies on `jsonwebtoken::encode`: serializes the claim as the
    /// standard `sub` and `exp` JWT fields and signs it with `secret` under
    /// HMAC-SHA256, producing the compact token that `jsonwebtoken::decode`
    /// inverts under the same secret. That a token never checks out under
    /// any other secret is the standard unforgeability assumption on
    /// HMAC-SHA256. Fails only on a signing failure inside the codec.
    #[verifier::external_body]
    pub fn sign(&self, secret: &str) -> (r: Result<String, Error>)
        ensures
            r matches Ok(t) ==> token_payload(t@, secret@) == Some((self.sub, self.exp)),
            r matches Ok(t) ==> forall|s2: Seq<char>|
                s2 != secret@ ==> #[trigger] token_payload(t@, s2) is None,
            r matches Err(e) ==> e == Error::Internal,
    {
        let mut claims = serde_json::Map::new();
        claims.insert("sub".to_string(), serde_json::Value::String(self.sub.to_string()));
        claims.insert("exp".to_string(), serde_json::Value::from(self.exp));
        let key = EncodingKey::from_secret(secret.as_bytes());
        match jsonwebtoken::encode(&Header::default(), &serde_json::Value::Object(claims), &key) {
            Ok(t) => Ok(t),
            Err(_) => Err(Error::Internal),
        }
    }

    /// Decode and check `token` under `secret` at time `now`: rejects a
    /// malformed token, a foreign algorithm or a bad signature as `Invalid`,
    /// a correctly signed token whose expiry has passed as `Expired`, and
    /// returns the embedded claim otherwise.
    pub fn verify(token: &str, secret: &str, now: u64) -> (r: Result<Claims, Error>)
        ensures
            r == verify_outcome(token@, secret@, now),
    {
        match jwt_decode(token, secret) {
            None => Err(Error::Unauthorized(TokenFault::Invalid)),
            Some((sub, exp)) => if now < exp {
                Ok(Claims { sub, exp })
            } else {
                Err(Error::Unauthorized(TokenFault::Expired))
            },
        }
    }
}

/// Signing a claim and verifying the token under the same secret strictly
/// before its expiry yields the original subject; verifying at or after the
/// expiry fails with the expiry-specific error; verifying under any other
/// secret rejects the token outright.
pub proof fn lemma_token_round_trip(
    t: Seq<char>,
    secret: Seq<char>,
    other: Seq<char>,
    sub: u128,
    exp: u64,
    now: u64,
)
    requires
        token_payload(t, secret) == Some((sub, exp)),
        forall|s2: Seq<char>| s2 != secret ==> #[trigger] token_payload(t, s2) is None,
    ensures
        now < exp ==> verify_outcome(t, secret, now) == Ok::<Claims, Error>((Claims { sub, exp })),
        now >= exp ==> verify_outcome(t, secret, now) == Err::<Claims, Error>(
            Error::Unauthorized(TokenFault::Expired),
        ),
        other != secret ==> verify_outcome(t, other, now) == Err::<Claims, Error>(
            Error::Unauthorized(TokenFault::Invalid),
        ),
{
}

} // verus!
