//! The registration flow.
//!
//! One request runs the state machine: look up the email with the
//! persistence collaborator, reject a duplicate, generate an identity, hash
//! the credential, persist the record, and issue an access and a refresh
//! token. The persistence collaborator itself (the database) is outside
//! work: the caller performs the lookup and the insert and hands their
//! outcomes in as plain values, and both decision steps around them are
//! verified here.
//!
//! The email-uniqueness check is the pre-insert lookup alone; the lookup
//! and the insert are not atomic. Two concurrent requests for one email
//! can therefore both pass the lookup, and the chosen resolution is a
//! uniqueness constraint at the persistence layer: the loser's insert
//! comes back [`InsertOutcome::Failed`] and is surfaced as
//! [`RegistrationError::PersistenceError`].

use vstd::prelude::*;

use crate::credential;
use crate::token;
use crate::token::Claims;
use crate::token::jwt_claims_of;
use crate::token::token_accepted_at;
use crate::token::token_of;

verus! {

/// Lifetime of an access token: 60 minutes, in seconds.
pub const ACCESS_TOKEN_LIFETIME_SECS: u64 = 3600;

/// Lifetime of a refresh token: 7 days, in seconds.
pub const REFRESH_TOKEN_LIFETIME_SECS: u64 = 604800;

/// A registration request: display name, unique email, plaintext password.
#[derive(Debug, Clone, PartialEq, Eq)]
pub struct SignupPayload {
    pub username: String,
    pub email: String,
    pub password: String,
}

/// The identity record created by a successful registration.
#[derive(Debug, Clone, PartialEq, Eq)]
pub struct User {
    /// Canonical string form of a freshly generated 128-bit random identifier.
    pub id: String,
    /// Display name; no uniqueness enforced here.
    pub username: String,
    /// Unique key across all users, enforced by the lookup step.
    pub email: String,
    /// Output of the credential hasher; never the plaintext.
    pub pwd_hash: String,
}

/// What the persistence collaborator answered when asked for a user with
/// the request's email.
#[derive(Debug, Clone, Copy, PartialEq, Eq, Structural)]
pub enum LookupOutcome {
    /// A user with this email already exists.
    Found,
    /// No user with this email exists.
    NotFound,
    /// The lookup itself failed (connection unavailable, query failure).
    Failed,
}

/// What the persistence collaborator answered when asked to insert the new
/// user record.
#[derive(Debug, Clone, Copy, PartialEq, Eq, Structural)]
pub enum InsertOutcome {
    /// The record was durably stored.
    Inserted,
    /// The insert failed (constraint violation or I/O failure).
    Failed,
}

/// Why a registration request was rejected. Each failure is terminal for
/// its request; nothing is retried here.
#[derive(Debug, Clone, Copy, PartialEq, Eq, Structural)]
pub enum RegistrationError {
    /// A user with the requested email already exists.
    DuplicateEmail,
    /// The persistence collaborator failed on the lookup or the insert.
    PersistenceError,
    /// The credential hasher failed internally.
    HashingError,
    /// Token issuance failed.
    TokenError,
}

impl RegistrationError {
    /// A human-readable detail line for the error; carries no secret and no
    /// plaintext.
    pub fn detail(&self) -> (r: &'static str)
        ensures
            *self == RegistrationError::DuplicateEmail ==> r@
                == "an account with this email has already been registered"@,
            *self == RegistrationError::PersistenceError ==> r@ == "the persistence layer failed"@,
            *self == RegistrationError::HashingError ==> r@ == "the credential could not be hashed"@,
            *self == RegistrationError::TokenError ==> r@ == "the tokens could not be issued"@,
    {
        match self {
            RegistrationError::DuplicateEmail => "an account with this email has already been registered",
            RegistrationError::PersistenceError => "the persistence layer failed",
            RegistrationError::HashingError => "the credential could not be hashed",
            RegistrationError::TokenError => "the tokens could not be issued",
        }
    }
}

/// Relies on `uuid::Uuid::new_v4` and its display form: a freshly drawn
/// 128-bit random identifier rendered as the canonical 36-character
/// hyphenated string. The value is random; nothing relates two calls.
#[verifier::external_body]
fn new_user_id() -> (r: String)
    ensures
        r@.len() == 36,
{
    uuid::Uuid::new_v4().to_string()
}

/// The first half of the flow: the decision on the lookup outcome, identity
/// generation and credential hashing. A found email is rejected as
/// `DuplicateEmail`, a failed lookup as `PersistenceError`; on a miss the
/// new record carries the request's names, a fresh 36-character id and a
/// hash matching the request's password.
pub fn begin_registration(lookup: LookupOutcome, payload: SignupPayload) -> (r: Result<User, RegistrationError>)
    ensures
        lookup == LookupOutcome::Found ==> r == Err::<User, RegistrationError>(RegistrationError::DuplicateEmail),
        lookup == LookupOutcome::Failed ==> r == Err::<User, RegistrationError>(RegistrationError::PersistenceError),
        lookup == LookupOutcome::NotFound ==> match r {
            Ok(u) => u.username@ == payload.username@ && u.email@ == payload.email@
                && credential::bcrypt_matches(payload.password@, u.pwd_hash@)
                && u.id@.len() == 36,
            Err(e) => e == RegistrationError::HashingError,
        },
{
    match lookup {
        LookupOutcome::Found => Err(RegistrationError::DuplicateEmail),
        LookupOutcome::Failed => Err(RegistrationError::PersistenceError),
        LookupOutcome::NotFound => {
            let id = new_user_id();
            match credential::hash(payload.password.as_str()) {
                Ok(h) => Ok(User {
                    id,
                    username: payload.username,
                    email: payload.email,
                    pwd_hash: h,
                }),
                Err(_) => Err(RegistrationError::HashingError),
            }
        },
    }
}

/// The two tokens handed back by a successful registration: a short-lived
/// access token and a long-lived refresh token for the same subject.
#[derive(Debug, Clone, PartialEq, Eq)]
pub struct TokenPair {
    pub access_token: String,
    pub refresh_token: String,
}

/// The second half of the flow: the decision on the insert outcome and
/// token issuance. A failed insert is rejected as `PersistenceError` and no
/// token is made; after a successful insert both tokens are issued for the
/// new user's id under the process-wide secret, the access token expiring
/// sixty minutes and the refresh token seven days past `now`. Both come
/// back distinct, both carry the same subject, and both are accepted by
/// verification at `now`.
pub fn finish_registration(insert: InsertOutcome, user_id: &str, now: u64, secret_key: &str) -> (r: Result<
    TokenPair,
    RegistrationError,
>)
    requires
        now + REFRESH_TOKEN_LIFETIME_SECS <= u64::MAX,
    ensures
        insert == InsertOutcome::Failed ==> r == Err::<TokenPair, RegistrationError>(
            RegistrationError::PersistenceError,
        ),
        insert == InsertOutcome::Inserted && secret_key@.len() == 0 ==> r == Err::<
            TokenPair,
            RegistrationError,
        >(RegistrationError::TokenError),
        insert == InsertOutcome::Inserted && secret_key@.len() > 0 ==> (r matches Ok(p)
            && p.access_token@ == token_of(
            user_id@,
            (now + ACCESS_TOKEN_LIFETIME_SECS) as u64,
            secret_key@,
        ) && p.refresh_token@ == token_of(
            user_id@,
            (now + REFRESH_TOKEN_LIFETIME_SECS) as u64,
            secret_key@,
        ) && jwt_claims_of(p.access_token@, secret_key@) == Some(
            (user_id@, (now + ACCESS_TOKEN_LIFETIME_SECS) as u64),
        ) && jwt_claims_of(p.refresh_token@, secret_key@) == Some(
            (user_id@, (now + REFRESH_TOKEN_LIFETIME_SECS) as u64),
        ) && p.access_token@ != p.refresh_token@ && token_accepted_at(
            p.access_token@,
            secret_key@,
            now,
        ) && token_accepted_at(p.refresh_token@, secret_key@, now)),
{
    match insert {
        InsertOutcome::Failed => Err(RegistrationError::PersistenceError),
        InsertOutcome::Inserted => {
            let access_claims = Claims { id: user_id.to_owned(), exp: now + ACCESS_TOKEN_LIFETIME_SECS };
            let access_token = match token::generate(access_claims, secret_key) {
                Ok(t) => t,
                Err(_) => {
                    return Err(RegistrationError::TokenError);
                },
            };
            let refresh_claims = Claims { id: user_id.to_owned(), exp: now + REFRESH_TOKEN_LIFETIME_SECS };
            let refresh_token = match token::generate(refresh_claims, secret_key) {
                Ok(t) => t,
                Err(_) => {
                    return Err(RegistrationError::TokenError);
                },
            };
            proof {
                if access_token@ == refresh_token@ {
                    assert(jwt_claims_of(access_token@, secret_key@) == jwt_claims_of(
                        refresh_token@,
                        secret_key@,
                    ));
                    assert(false);
                }
            }
            Ok(TokenPair { access_token, refresh_token })
        },
    }
}

} // verus!
