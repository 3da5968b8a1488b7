//! The token service: signs and validates time-bound identity claims.
//! A token is a signed, self-contained structure carrying the user id
//! and an absolute expiry (epoch seconds); the symmetric signing secret
//! is passed in explicitly at issuance and validation time. Expiry is
//! the only liveness check; every validation failure surfaces as
//! `Unauthorized`, never as any other outcome kind.

use vstd::prelude::*;
use crate::error::{Error, TokenFault};

verus! {

/// The claims carried inside a token: the identity it was minted for
/// and its absolute expiry in epoch seconds.
#[derive(Clone, Copy, Debug, PartialEq, Eq, Structural)]
pub struct Payload {
    pub user_id: u128,
    pub expires_at: i64,
}

/// How long past its issuance instant a token stays live, in seconds.
pub const TOKEN_TTL_SECS: u64 = 86400;

/// The token minted for the given claims under the given secret: a
/// function of the three alone.
pub uninterp spec fn token_of(user_id: u128, expires_at: i64, secret: Seq<char>) -> Seq<char>;

/// The claims that decoding recovers from a token under a secret
/// (signature check and claim extraction; the time-dependent expiry
/// check is not part of this): `None` when the token does not carry
/// claims signed with that secret.
pub uninterp spec fn claims_of(token: Seq<char>, secret: Seq<char>) -> Option<(u128, i64)>;

/// A value that can mint a signed token for its own identity.
pub trait CanGenerateJwt {
    fn generate_jwt(&self, secret: &str, now: u64) -> Result<String, Error>;
}

/// A value that can be decoded as a signed token.
pub trait CanDecodeJwt {
    fn decode_jwt(&self, secret: &str) -> Result<Payload, Error>;
}

/// Relies on jsonwebtoken's `encode` with HS256 and a plain secret,
/// under the built-in crypto provider (no custom provider is installed
/// anywhere in this crate or its shell): the token is a function of
/// the claims and the secret alone; decoding it with the same secret
/// recovers exactly the claims that were signed; and signing cannot
/// fail — the HMAC signer accepts a key of any length and a map of
/// string keys always serializes.
#[verifier::external_body]
fn jwt_encode(user_id: u128, expires_at: i64, secret: &str) -> (r: Result<String, ()>)
    ensures
        r is Ok,
        r is Ok ==> r->Ok_0@ == token_of(user_id, expires_at, secret@),
        r is Ok ==> claims_of(token_of(user_id, expires_at, secret@), secret@) == Some(
            (user_id, expires_at),
        ),
{
    let mut claims = serde_json::Map::new();
    claims.insert("user_id".to_owned(), serde_json::Value::String(user_id.to_string()));
    claims.insert("exp".to_owned(), serde_json::Value::from(expires_at));
    let key = jsonwebtoken::EncodingKey::from_secret(secret.as_bytes());
    let header = jsonwebtoken::Header::default();
    jsonwebtoken::encode(&header, &serde_json::Value::Object(claims), &key).map_err(|_| ())
}

/// Relies on jsonwebtoken's `decode` with HS256 and default validation:
/// on success the returned claims are the ones the token carries under
/// this secret; the recognized failure distinctions are kept apart and
/// everything else collapses to `Other`. Success additionally needs the
/// expiry to lie in the future, which depends on the clock, so nothing
/// promises success here.
#[verifier::external_body]
fn jwt_decode(token: &str, secret: &str) -> (r: Result<Payload, TokenFault>)
    ensures
        r is Ok ==> claims_of(token@, secret@) == Some((r->Ok_0.user_id, r->Ok_0.expires_at)),
{
    let key = jsonwebtoken::DecodingKey::from_secret(secret.as_bytes());
    let v = jsonwebtoken::Validation::default();
    let data = jsonwebtoken::decode::<serde_json::Value>(token, &key, &v).map_err(|e| match e
        .kind() {
        jsonwebtoken::errors::ErrorKind::InvalidToken => TokenFault::InvalidToken,
        jsonwebtoken::errors::ErrorKind::InvalidIssuer => TokenFault::InvalidIssuer,
        _ => TokenFault::Other,
    })?;
    let uid = data.claims.get("user_id").and_then(|u| u.as_str()).and_then(|s| s.parse().ok());
    match (uid, data.claims.get("exp").and_then(|x| x.as_i64())) {
        (Some(user_id), Some(expires_at)) => Ok(Payload { user_id, expires_at }),
        _ => Err(TokenFault::Other),
    }
}

/// The expiry of a token issued at instant `now`: the issuance instant
/// plus the time-to-live, clamped into the signed epoch range.
pub open spec fn spec_token_expiry(now: u64) -> i64 {
    if now + TOKEN_TTL_SECS <= i64::MAX {
        (now + TOKEN_TTL_SECS) as i64
    } else {
        i64::MAX
    }
}

/// The expiry of a token issued now: the issuance instant plus the
/// time-to-live, clamped into the signed epoch range.
pub fn token_expiry(now: u64) -> (r: i64)
    ensures
        r == spec_token_expiry(now),
{
    if now >= (i64::MAX as u64) - TOKEN_TTL_SECS {
        i64::MAX
    } else {
        (now + TOKEN_TTL_SECS) as i64
    }
}

/// Mints a token for the given claims: exactly the one for these
/// claims under this secret, and decoding it with the same secret
/// yields them back. Signing a symmetric token cannot fail, so success
/// is owed; the `Result` stands because issuance is specified to treat
/// an internal signing failure as `InternalServerError`.
pub fn issue_token(user_id: u128, expires_at: i64, secret: &str) -> (r: Result<String, Error>)
    ensures
        r is Ok,
        r->Ok_0@ == token_of(user_id, expires_at, secret@),
        claims_of(r->Ok_0@, secret@) == Some((user_id, expires_at)),
{
    match jwt_encode(user_id, expires_at, secret) {
        Ok(t) => Ok(t),
        Err(_) => Err(Error::InternalServerError),
    }
}

/// Validates a token against a secret: on success the returned claims
/// are the ones the token carries under this secret; every failure —
/// bad signature, wrong structure, expired, anything else — surfaces as
/// `Unauthorized` and never as any other outcome kind.
pub fn validate_token(token: &str, secret: &str) -> (r: Result<Payload, Error>)
    ensures
        r is Ok ==> claims_of(token@, secret@) == Some((r->Ok_0.user_id, r->Ok_0.expires_at)),
        r is Err ==> r->Err_0 is Unauthorized,
        r is Err ==> r->Err_0->Unauthorized_0@ == "Token is invalid"@ || r->Err_0->Unauthorized_0@
            == "Issuer is invalid"@ || r->Err_0->Unauthorized_0@
            == "An issue was found with the token provided"@,
{
    match jwt_decode(token, secret) {
        Ok(p) => Ok(p),
        Err(f) => Err(Error::from_token_fault(f)),
    }
}

impl CanDecodeJwt for String {
    /// Decodes `self` as a token, exactly as `validate_token` does: on
    /// success the returned claims are the ones `self` carries under
    /// this secret, and every failure is `Unauthorized` with one of the
    /// three category messages, never any other outcome kind.
    fn decode_jwt(&self, secret: &str) -> (r: Result<Payload, Error>)
        ensures
            r is Ok ==> claims_of(self@, secret@) == Some((r->Ok_0.user_id, r->Ok_0.expires_at)),
            r is Err ==> r->Err_0 is Unauthorized,
            r is Err ==> r->Err_0->Unauthorized_0@ == "Token is invalid"@
                || r->Err_0->Unauthorized_0@ == "Issuer is invalid"@
                || r->Err_0->Unauthorized_0@ == "An issue was found with the token provided"@,
    {
        validate_token(self.as_str(), secret)
    }
}

/// A token carrying given claims decodes to those claims and no others:
/// whatever two decodings recover from the same token under the same
/// secret is the same identity and expiry.
pub proof fn lemma_token_claims_unique(
    token: Seq<char>,
    secret: Seq<char>,
    a: (u128, i64),
    b: (u128, i64),
)
    requires
        claims_of(token, secret) == Some(a),
        claims_of(token, secret) == Some(b),
    ensures
        a == b,
{
}

} // verus!
