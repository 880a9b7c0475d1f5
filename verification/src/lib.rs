//! Account-registration and token-issuance core.
//!
//! Three pieces, leaves first: salted one-way credential hashing
//! ([`credential`]), signed expiring tokens carrying a subject identifier
//! ([`token`]), and the registration flow that ties them to a persistence
//! collaborator ([`registrar`]).

pub mod credential;
pub mod registrar;
pub mod token;
