//! The registration workflow: validate the input shape, refuse a taken
//! username, hash the password, build the row to persist, and after the
//! store has answered, convert any storage failure and mint a token for
//! the new identity. The store operations themselves are external; this
//! module takes their answers as plain values, so every decision is
//! verified. The read-then-insert uniqueness check is a deliberately
//! accepted race: a concurrent duplicate slips past the pre-check and
//! is caught by the store's unique constraint instead, which surfaces
//! as `UnprocessableEntity` rather than `ValidationFailed`.

use vstd::prelude::*;
use crate::encoder::{encoder_hash, password_verifies, Argon2PasswordEncoder};
use crate::error::{storage_outcome, Error, FieldError, StorageError};
use crate::jwt::{claims_of, issue_token, spec_token_expiry, token_expiry};
use crate::message::{CreateUser, Register};
use crate::model::{NewUser, User};
use crate::validate::{
    collected_payload, register_ok, username_taken_payload, validate_register,
};

verus! {

/// Relies on uuid's `Uuid::new_v4`: a freshly drawn random 128-bit
/// identifier. Nothing is promised of its value.
#[verifier::external_body]
fn random_identifier() -> u128 {
    uuid::Uuid::new_v4().as_u128()
}

/// The pre-insert uniqueness decision: given the store's answer to
/// "does this username exist", either pass or fail with the
/// field-scoped "username is taken" payload — a validation failure,
/// not a storage one, because the check runs before the insert.
pub fn check_username_free(username_exists: bool) -> (r: Result<(), Error>)
    ensures
        r is Ok <==> !username_exists,
        r is Err ==> r->Err_0 is ValidationFailed && username_taken_payload(
            r->Err_0->ValidationFailed_0@,
        ),
{
    if username_exists {
        let mut messages: Vec<String> = Vec::new();
        messages.push("username is taken".to_owned());
        let mut entries: Vec<FieldError> = Vec::new();
        entries.push(FieldError { field: "username".to_owned(), messages });
        Err(Error::ValidationFailed(entries))
    } else {
        Ok(())
    }
}

/// Handles a create-user message: hashes the password and builds the
/// row to persist. Every field of the row is pinned to the message —
/// identity and username unchanged, email carried over, and the stored
/// password a hash that verifies against the plaintext, which itself is
/// never stored. A hashing failure surfaces as `InternalServerError`.
pub struct CreateUserHandler;

impl CreateUserHandler {
    pub fn prepare(&self, msg: CreateUser) -> (r: Result<NewUser, Error>)
        ensures
            r is Ok ==> {
                let nu = r->Ok_0;
                &&& nu.user_id == msg.user_id
                &&& nu.username@ == msg.username@
                &&& nu.email == msg.email
                &&& password_verifies(msg.password@, nu.password@)
                &&& encoder_hash(nu.password@)
                &&& nu.password@.len() > 128
            },
            vstd::utf8::is_ascii_chars(msg.password@) && 8 <= msg.password@.len() <= 128 ==> r
                is Ok,
            r is Err ==> r->Err_0 is InternalServerError,
    {
        let encoder = Argon2PasswordEncoder;
        let hash = match encoder.encode_password(msg.password.as_str()) {
            Ok(h) => h,
            Err(e) => {
                return Err(e);
            },
        };
        Ok(NewUser { user_id: msg.user_id, username: msg.username, email: msg.email, password: hash })
    }
}

/// The steps of the workflow up to the insert, for a caller that has
/// already drawn the identity: validate the fields (collecting every
/// violation), refuse a taken username, then hash and build the row.
/// An empty email is stored as absent; a non-empty one — necessarily of
/// valid format here — is stored as given.
pub fn prepare_registration(reg: &Register, username_exists: bool, user_id: u128) -> (r: Result<
    NewUser,
    Error,
>)
    ensures
        !register_ok(*reg) ==> r is Err && r->Err_0 is ValidationFailed && collected_payload(
            *reg,
            r->Err_0->ValidationFailed_0@,
        ),
        register_ok(*reg) && username_exists ==> r is Err && r->Err_0 is ValidationFailed
            && username_taken_payload(r->Err_0->ValidationFailed_0@),
        register_ok(*reg) && !username_exists && r is Err ==> r->Err_0 is InternalServerError,
        register_ok(*reg) && !username_exists && vstd::utf8::is_ascii_chars(reg.password@)
            ==> r is Ok,
        r is Ok ==> register_ok(*reg) && !username_exists,
        r is Ok ==> {
            let nu = r->Ok_0;
            &&& nu.user_id == user_id
            &&& nu.username@ == reg.username@
            &&& (reg.email@.len() == 0 ==> nu.email is None)
            &&& (reg.email@.len() > 0 ==> nu.email is Some && nu.email->0@ == reg.email@)
            &&& password_verifies(reg.password@, nu.password@)
            &&& encoder_hash(nu.password@)
            &&& nu.password@ != reg.password@
        },
{
    validate_register(reg)?;
    check_username_free(username_exists)?;
    let email = if reg.email.as_str().is_empty() {
        None
    } else {
        Some(reg.email.clone())
    };
    let msg = CreateUser {
        username: reg.username.clone(),
        password: reg.password.clone(),
        user_id,
        email,
    };
    CreateUserHandler.prepare(msg)
}

/// As `prepare_registration`, with the identity freshly drawn: what
/// holds there for every identity holds here for the one drawn.
pub fn begin_registration(reg: &Register, username_exists: bool) -> (r: Result<NewUser, Error>)
    ensures
        !register_ok(*reg) ==> r is Err && r->Err_0 is ValidationFailed && collected_payload(
            *reg,
            r->Err_0->ValidationFailed_0@,
        ),
        register_ok(*reg) && username_exists ==> r is Err && r->Err_0 is ValidationFailed
            && username_taken_payload(r->Err_0->ValidationFailed_0@),
        register_ok(*reg) && !username_exists && r is Err ==> r->Err_0 is InternalServerError,
        register_ok(*reg) && !username_exists && vstd::utf8::is_ascii_chars(reg.password@)
            ==> r is Ok,
        r is Ok ==> register_ok(*reg) && !username_exists,
        r is Ok ==> {
            let nu = r->Ok_0;
            &&& nu.username@ == reg.username@
            &&& (reg.email@.len() == 0 ==> nu.email is None)
            &&& (reg.email@.len() > 0 ==> nu.email is Some && nu.email->0@ == reg.email@)
            &&& password_verifies(reg.password@, nu.password@)
            &&& encoder_hash(nu.password@)
            &&& nu.password@ != reg.password@
        },
{
    let user_id = random_identifier();
    prepare_registration(reg, username_exists, user_id)
}

/// The steps after the store has answered the insert: any storage
/// failure is converted exactly once by the taxonomy — in particular a
/// unique-constraint violation raced past the pre-check surfaces as
/// `UnprocessableEntity` — and for a stored record a token is minted
/// for its identity, expiring one time-to-live past `now`. Only the
/// token reaches the caller; no other user field is echoed back. Past
/// a successful insert nothing fails: minting a symmetric token cannot.
pub fn complete_registration(
    insert_result: Result<User, StorageError>,
    secret: &str,
    now: u64,
) -> (r: Result<String, Error>)
    ensures
        insert_result matches Err(e) ==> r is Err && storage_outcome(e, r->Err_0),
        insert_result is Ok ==> r is Ok,
        insert_result matches Ok(u) ==> claims_of(r->Ok_0@, secret@) == Some(
            (u.user_id, spec_token_expiry(now)),
        ),
{
    let user = match insert_result {
        Ok(u) => u,
        Err(e) => {
            return Err(Error::from_storage(e));
        },
    };
    issue_token(user.user_id, token_expiry(now), secret)
}

} // verus!
