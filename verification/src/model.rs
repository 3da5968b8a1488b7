//! The persisted user record and the row prepared for insertion. The
//! record store itself is an external collaborator: it receives a
//! `NewUser`, keeps the unique-username invariant with its own unique
//! index, and hands back the stored `User`. The lockout bookkeeping
//! fields are present in the stored shape but no operation here mutates
//! them.

use vstd::prelude::*;
use crate::error::Error;
use crate::jwt::{
    claims_of, issue_token, spec_token_expiry, token_expiry, token_of, CanGenerateJwt,
};

verus! {

/// A stored user record as the store hands it back.
#[derive(Debug, Clone)]
pub struct User {
    /// The opaque 128-bit random identity chosen at registration.
    pub user_id: u128,
    pub username: String,
    /// The self-describing password hash produced by the encoder.
    pub password: String,
    pub email: Option<String>,
    /// Epoch seconds; filled in by the store.
    pub created_at: i64,
    /// Epoch seconds; filled in by the store.
    pub updated_at: i64,
    pub enabled: bool,
    /// Dormant lockout bookkeeping: never mutated by the core.
    pub failures_num: Option<u8>,
    pub first_failed_at: Option<i64>,
    pub lock_expires_at: Option<i64>,
}

/// The row handed to the store for insertion at registration.
#[derive(Debug, Clone)]
pub struct NewUser {
    pub user_id: u128,
    pub username: String,
    pub email: Option<String>,
    /// The self-describing password hash, never the plaintext.
    pub password: String,
}

impl CanGenerateJwt for User {
    /// Mints the token for this record's identity, expiring one
    /// time-to-live past `now`: decoding it with the same secret yields
    /// this record's user id and that expiry, and minting cannot fail.
    fn generate_jwt(&self, secret: &str, now: u64) -> (r: Result<String, Error>)
        ensures
            r is Ok,
            r->Ok_0@ == token_of(self.user_id, spec_token_expiry(now), secret@),
            claims_of(r->Ok_0@, secret@) == Some((self.user_id, spec_token_expiry(now))),
    {
        issue_token(self.user_id, token_expiry(now), secret)
    }
}

} // verus!
