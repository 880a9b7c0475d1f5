//! Signed, expiring tokens.
//!
//! A token is an opaque string that encodes a pair of claims — a subject
//! identifier and an absolute expiry instant — signed under a shared secret.
//! Producing and checking the signature is delegated to the `jsonwebtoken`
//! crate behind two trusted wrappers; everything around them (when issuing
//! is refused, how expiry relates to the query time, which error comes back)
//! is verified here.

use vstd::prelude::*;

use jsonwebtoken::decode;
use jsonwebtoken::errors::ErrorKind;
use jsonwebtoken::Algorithm;
use jsonwebtoken::DecodingKey;
use jsonwebtoken::Validation;
use serde_json::Value;

verus! {

/// The payload of a token: the subject's identifier and the absolute expiry
/// instant, in whole seconds since the Unix epoch.
#[derive(Debug, Clone, PartialEq, Eq)]
pub struct Claims {
    pub id: String,
    pub exp: u64,
}

/// Everything that can go wrong when producing or checking a token.
#[derive(Debug, Clone, Copy, PartialEq, Eq, Structural)]
pub enum TokenError {
    /// Issuing was asked with an empty signing secret.
    SigningError,
    /// The token's signature does not match the secret.
    InvalidSignature,
    /// The token's expiry instant is at or before the query time.
    Expired,
    /// The token does not have the shape of a signed claims string.
    Malformed,
    /// The token names a signing algorithm other than the accepted one.
    UnsupportedAlgorithm,
}

/// The signed token string that encodes the claims `(id, exp)` under the
/// given secret. What the string looks like is the signing library's
/// business; callers rely only on reading it back through [`jwt_claims_of`].
pub uninterp spec fn token_of(id: Seq<char>, exp: u64, secret: Seq<char>) -> Seq<char>;

/// The claims that signature checking recovers from a token string under a
/// secret: `Some((id, exp))` when the token is well-formed, names the
/// accepted algorithm, carries its signature under that secret, and holds a
/// string `id` and an integer `exp`; `None` otherwise. A payload that is
/// not a JSON object, or one carrying an audience claim (which the decoder
/// validates whenever it is present, and none is expected here), is among
/// the refused tokens.
pub uninterp spec fn jwt_claims_of(token: Seq<char>, secret: Seq<char>) -> Option<(Seq<char>, u64)>;

/// Which refusal a rejected token draws under a secret. Decoding is a pure
/// function of the token and the secret (expiry is not looked at there), so
/// the refusal kind is one too: two checks of one rejected token under one
/// secret report the same reason. Meaningful only where [`jwt_claims_of`]
/// is `None`; the decode wrapper's contract confines it to the three
/// refusal kinds.
pub uninterp spec fn jwt_rejection_of(token: Seq<char>, secret: Seq<char>) -> TokenError;

/// Relies on `jsonwebtoken::encode` with the default header: a deterministic
/// HS256 token over the claims and the secret, which `jsonwebtoken::decode`
/// under the same secret accepts and reads back. With the HMAC family both
/// key construction and signing are infallible, so the call returns `Ok`.
#[verifier::external_body]
fn jwt_encode(id: &str, exp: u64, secret: &str) -> (r: Result<String, TokenError>)
    ensures
        r is Ok,
        r matches Ok(t) ==> t@ == token_of(id@, exp, secret@),
        r matches Ok(t) ==> jwt_claims_of(t@, secret@) == Some((id@, exp)),
{
    let mut m = serde_json::Map::new();
    m.insert(String::from("id"), serde_json::Value::String(id.to_string()));
    m.insert(String::from("exp"), serde_json::Value::from(exp));
    let key = jsonwebtoken::EncodingKey::from_secret(secret.as_bytes());
    match jsonwebtoken::encode(&jsonwebtoken::Header::default(), &serde_json::Value::Object(m), &key) {
        Ok(t) => Ok(t),
        Err(_) => Err(TokenError::SigningError),
    }
}

/// Relies on `jsonwebtoken::decode` with expiry validation switched off:
/// the shape, the header's algorithm and the signature are checked against
/// the secret — no clock is read — and the claims come back as plain
/// values. A payload whose claims lack a string `id` or an integer `exp`
/// is refused here as malformed. The refusal kind is read off the
/// decoder's error kind (`jsonwebtoken::errors::Error::kind`), one arm per
/// variant told apart, and is as deterministic as the decode itself.
#[verifier::external_body]
fn jwt_decode(token: &str, secret: &str) -> (r: Result<(String, u64), TokenError>)
    ensures
        r matches Ok(c) ==> jwt_claims_of(token@, secret@) == Some((c.0@, c.1)),
        r matches Err(e) ==> (jwt_claims_of(token@, secret@) is None
            && e == jwt_rejection_of(token@, secret@)),
        r is Err ==> (jwt_rejection_of(token@, secret@) == TokenError::InvalidSignature
            || jwt_rejection_of(token@, secret@) == TokenError::UnsupportedAlgorithm
            || jwt_rejection_of(token@, secret@) == TokenError::Malformed),
{
    let mut val = Validation::new(Algorithm::HS256);
    val.validate_exp = false;
    val.required_spec_claims.clear();
    let claims = match decode::<Value>(token, &DecodingKey::from_secret(secret.as_bytes()), &val) {
        Ok(d) => d.claims,
        Err(e) => match e.kind() {
            ErrorKind::InvalidSignature => return Err(TokenError::InvalidSignature),
            ErrorKind::InvalidAlgorithm => return Err(TokenError::UnsupportedAlgorithm),
            _ => return Err(TokenError::Malformed),
        },
    };
    match (claims.get("id").and_then(Value::as_str), claims.get("exp").and_then(Value::as_u64)) {
        (Some(i), Some(e)) => Ok((i.to_string(), e)),
        _ => Err(TokenError::Malformed),
    }
}

/// Relies on `std::time::SystemTime::now`, read as whole seconds since the
/// Unix epoch. Nothing is assumed of the value: every caller states what
/// holds whatever instant came back.
#[verifier::external_body]
fn now_seconds() -> u64 {
    match std::time::SystemTime::now().duration_since(std::time::UNIX_EPOCH) {
        Ok(d) => d.as_secs(),
        Err(_) => 0,
    }
}

/// A token whose claims check out under the secret and whose expiry lies
/// strictly after the query time: verification at that time accepts it.
pub open spec fn token_accepted_at(token: Seq<char>, secret: Seq<char>, now: u64) -> bool {
    match jwt_claims_of(token, secret) {
        Some(c) => c.1 > now,
        None => false,
    }
}

/// A token whose claims check out under the secret but whose expiry is at
/// or before the query time: verification at that time reports it expired.
pub open spec fn token_expired_at(token: Seq<char>, secret: Seq<char>, now: u64) -> bool {
    match jwt_claims_of(token, secret) {
        Some(c) => c.1 <= now,
        None => false,
    }
}

/// Checks a token against the secret at an explicit query time. Accepted
/// tokens come back as their claims; an accepted-then-expired token is
/// `Expired`; a token whose claims do not check out at all is refused with
/// the reason the decoder gave.
pub fn verify_at(token: &str, now: u64, secret_key: &str) -> (r: Result<Claims, TokenError>)
    ensures
        token_accepted_at(token@, secret_key@, now) ==> (r matches Ok(c)
            && jwt_claims_of(token@, secret_key@) == Some((c.id@, c.exp))
            && c.exp > now),
        token_expired_at(token@, secret_key@, now) ==> r == Err::<Claims, TokenError>(TokenError::Expired),
        jwt_claims_of(token@, secret_key@) is None ==> (r == Err::<Claims, TokenError>(
            jwt_rejection_of(token@, secret_key@),
        ) && (jwt_rejection_of(token@, secret_key@) == TokenError::InvalidSignature
            || jwt_rejection_of(token@, secret_key@) == TokenError::UnsupportedAlgorithm
            || jwt_rejection_of(token@, secret_key@) == TokenError::Malformed)),
{
    match jwt_decode(token, secret_key) {
        Ok((id, exp)) => {
            if exp <= now {
                Err(TokenError::Expired)
            } else {
                Ok(Claims { id, exp })
            }
        },
        Err(e) => Err(e),
    }
}

/// Checks a token against the secret at the current wall-clock time. The
/// clock is outside work, so the contract states what holds of every
/// instant it may have reported: a token whose claims check out comes back
/// as those claims or as `Expired` — nothing else — and a rejected token
/// draws its one refusal kind, a function of the token and the secret
/// alone.
pub fn verify(token: String, secret_key: &str) -> (r: Result<Claims, TokenError>)
    ensures
        jwt_claims_of(token@, secret_key@) matches Some(c) ==> (r == Err::<Claims, TokenError>(
            TokenError::Expired,
        ) || (r matches Ok(k) && k.id@ == c.0 && k.exp == c.1)),
        r matches Ok(c) ==> jwt_claims_of(token@, secret_key@) == Some((c.id@, c.exp)),
        r == Err::<Claims, TokenError>(TokenError::Expired) ==> jwt_claims_of(token@, secret_key@) is Some,
        jwt_claims_of(token@, secret_key@) is None ==> (r == Err::<Claims, TokenError>(
            jwt_rejection_of(token@, secret_key@),
        ) && (jwt_rejection_of(token@, secret_key@) == TokenError::InvalidSignature
            || jwt_rejection_of(token@, secret_key@) == TokenError::UnsupportedAlgorithm
            || jwt_rejection_of(token@, secret_key@) == TokenError::Malformed)),
{
    let now = now_seconds();
    verify_at(token.as_str(), now, secret_key)
}

/// The lifetime law: a token carrying expiry `exp` is accepted at every
/// query time strictly before `exp` and reported expired at `exp` and
/// after. For a token issued at `t0` with lifetime `L`, `exp == t0 + L`,
/// so acceptance holds on all of `[t0, t0 + L)` and expiry from `t0 + L`
/// on.
pub proof fn lemma_token_lifetime(token: Seq<char>, secret: Seq<char>, sub: Seq<char>, exp: u64, q: u64)
    ensures
        jwt_claims_of(token, secret) == Some((sub, exp)) && q < exp ==> token_accepted_at(token, secret, q),
        jwt_claims_of(token, secret) == Some((sub, exp)) && q >= exp ==> token_expired_at(token, secret, q),
{
}

/// Builds the signed token for the claims. An empty secret is refused with
/// `SigningError`; any other secret yields exactly the encoding of the
/// claims under it.
pub fn generate(claims: Claims, secret_key: &str) -> (r: Result<String, TokenError>)
    ensures
        secret_key@.len() == 0 ==> r == Err::<String, TokenError>(TokenError::SigningError),
        secret_key@.len() > 0 ==> (r matches Ok(t)
            && t@ == token_of(claims.id@, claims.exp, secret_key@)
            && jwt_claims_of(t@, secret_key@) == Some((claims.id@, claims.exp))),
{
    if secret_key.is_empty() {
        Err(TokenError::SigningError)
    } else {
        jwt_encode(claims.id.as_str(), claims.exp, secret_key)
    }
}

} // verus!
