use auth_core::registrar::{
    self, InsertOutcome, LookupOutcome, RegistrationError, SignupPayload, User,
};
use auth_core::token::{self, TokenError};

const SECRET: &str = "process-wide-secret";
const NOW: u64 = 1_700_000_000;

fn payload(username: &str, email: &str, password: &str) -> SignupPayload {
    SignupPayload {
        username: username.to_string(),
        email: email.to_string(),
        password: password.to_string(),
    }
}

/// The test double for the persistence collaborator: a plain vector of
/// records, looked up by email.
fn lookup(store: &[User], email: &str) -> LookupOutcome {
    if store.iter().any(|u| u.email == email) {
        LookupOutcome::Found
    } else {
        LookupOutcome::NotFound
    }
}

fn register(store: &mut Vec<User>, p: SignupPayload) -> Result<registrar::TokenPair, RegistrationError> {
    let outcome = lookup(store, &p.email);
    let user = registrar::begin_registration(outcome, p)?;
    let id = user.id.clone();
    store.push(user);
    registrar::finish_registration(InsertOutcome::Inserted, &id, NOW, SECRET)
}

#[test]
fn second_registration_with_same_email_is_rejected() {
    let mut store: Vec<User> = Vec::new();
    let first = register(&mut store, payload("alice", "a@x.com", "pw"));
    assert!(first.is_ok());
    let second = register(&mut store, payload("bob", "a@x.com", "pw2"));
    assert_eq!(second, Err(RegistrationError::DuplicateEmail));
    assert_eq!(store.len(), 1);
    assert_eq!(store[0].username, "alice");
}

#[test]
fn failed_insert_yields_persistence_error_and_no_tokens() {
    let r = registrar::finish_registration(InsertOutcome::Failed, "some-id", NOW, SECRET);
    assert_eq!(r, Err(RegistrationError::PersistenceError));
}

#[test]
fn failed_lookup_yields_persistence_error() {
    let r = registrar::begin_registration(LookupOutcome::Failed, payload("a", "a@x.com", "pw"));
    assert_eq!(r, Err(RegistrationError::PersistenceError));
}

#[test]
fn successful_registration_yields_two_verifiable_tokens() {
    let mut store: Vec<User> = Vec::new();
    let pair = register(&mut store, payload("carol", "c@x.com", "secret-pw")).unwrap();
    assert_ne!(pair.access_token, pair.refresh_token);

    let access = token::verify_at(&pair.access_token, NOW, SECRET).unwrap();
    let refresh = token::verify_at(&pair.refresh_token, NOW, SECRET).unwrap();
    assert_eq!(access.id, store[0].id);
    assert_eq!(refresh.id, store[0].id);
    assert_eq!(access.exp, NOW + 60 * 60);
    assert_eq!(refresh.exp, NOW + 7 * 24 * 60 * 60);
    assert!(refresh.exp > access.exp);
}

#[test]
fn created_record_holds_hash_not_plaintext() {
    let user = registrar::begin_registration(
        LookupOutcome::NotFound,
        payload("dave", "d@x.com", "hunter2"),
    )
    .unwrap();
    assert_eq!(user.username, "dave");
    assert_eq!(user.email, "d@x.com");
    assert_ne!(user.pwd_hash, "hunter2");
    assert!(auth_core::credential::verify("hunter2", &user.pwd_hash));
    assert!(!auth_core::credential::verify("hunter3", &user.pwd_hash));
}

#[test]
fn generated_ids_are_canonical_and_fresh() {
    let u1 = registrar::begin_registration(LookupOutcome::NotFound, payload("a", "1@x.com", "p"))
        .unwrap();
    let u2 = registrar::begin_registration(LookupOutcome::NotFound, payload("b", "2@x.com", "p"))
        .unwrap();
    assert_eq!(u1.id.len(), 36);
    assert_eq!(u2.id.len(), 36);
    assert_ne!(u1.id, u2.id);
    assert_eq!(u1.id.matches('-').count(), 4);
}

#[test]
fn empty_secret_fails_token_issuance() {
    let r = registrar::finish_registration(InsertOutcome::Inserted, "some-id", NOW, "");
    assert_eq!(r, Err(RegistrationError::TokenError));
}

#[test]
fn tokens_expire_at_their_lifetimes() {
    let pair = registrar::finish_registration(InsertOutcome::Inserted, "uid", NOW, SECRET).unwrap();
    let hour = 60 * 60;
    let week = 7 * 24 * hour;
    assert!(token::verify_at(&pair.access_token, NOW + hour - 1, SECRET).is_ok());
    assert_eq!(
        token::verify_at(&pair.access_token, NOW + hour, SECRET),
        Err(TokenError::Expired)
    );
    assert!(token::verify_at(&pair.refresh_token, NOW + week - 1, SECRET).is_ok());
    assert_eq!(
        token::verify_at(&pair.refresh_token, NOW + week, SECRET),
        Err(TokenError::Expired)
    );
}

#[test]
fn error_details_name_the_failure() {
    assert_eq!(
        RegistrationError::DuplicateEmail.detail(),
        "an account with this email has already been registered"
    );
    assert_eq!(RegistrationError::PersistenceError.detail(), "the persistence layer failed");
    assert_eq!(RegistrationError::HashingError.detail(), "the credential could not be hashed");
    assert_eq!(RegistrationError::TokenError.detail(), "the tokens could not be issued");
}
