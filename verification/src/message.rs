//! The request-shaped messages that flow through the workflow: the login
//! and registration credentials as they arrive, and the create-user
//! message handed to the persistence step.

use vstd::prelude::*;

verus! {

/// Login credentials as received at the boundary. Subject to the same
/// length rules as registration; no login workflow runs in this core.
#[derive(Debug, Clone)]
pub struct Login {
    pub username: String,
    pub password: String,
}

/// Registration credentials as received at the boundary. Transient:
/// they exist only for the duration of one request.
#[derive(Debug, Clone)]
pub struct Register {
    pub username: String,
    pub email: String,
    pub password: String,
}

/// The create-user message: validated credentials together with the
/// freshly generated identity, ready for hashing and persistence.
#[derive(Debug, Clone)]
pub struct CreateUser {
    pub username: String,
    pub password: String,
    pub user_id: u128,
    pub email: Option<String>,
}

} // verus!
