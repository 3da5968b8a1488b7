use std::collections::HashMap;

use auth_core::encoder::Argon2PasswordEncoder;
use auth_core::error::{Error, StorageError};
use auth_core::jwt::{validate_token, CanGenerateJwt};
use auth_core::message::Register;
use auth_core::model::{NewUser, User};
use auth_core::register::{begin_registration, complete_registration, prepare_registration};

/// A stand-in for the external record store: a table keyed by username
/// with a unique index on it, as the real store has.
struct MemoryStore {
    by_username: HashMap<String, User>,
}

impl MemoryStore {
    fn new() -> Self {
        MemoryStore { by_username: HashMap::new() }
    }

    fn exists_by_username(&self, name: &str) -> bool {
        self.by_username.contains_key(name)
    }

    fn insert_user(&mut self, nu: NewUser) -> Result<User, StorageError> {
        if self.by_username.contains_key(&nu.username) {
            return Err(StorageError::UniqueViolation {
                detail: Some(format!("Duplicate entry '{}' for key 'username'", nu.username)),
                message: "duplicate key value violates unique constraint".to_string(),
            });
        }
        let user = User {
            user_id: nu.user_id,
            username: nu.username.clone(),
            password: nu.password,
            email: nu.email,
            created_at: 1_700_000_000,
            updated_at: 1_700_000_000,
            enabled: true,
            failures_num: None,
            first_failed_at: None,
            lock_expires_at: None,
        };
        self.by_username.insert(nu.username, user.clone());
        Ok(user)
    }
}

fn reg(username: &str, email: &str, password: &str) -> Register {
    Register {
        username: username.to_string(),
        email: email.to_string(),
        password: password.to_string(),
    }
}

/// Runs the whole workflow against the store, as the transport layer
/// would: pre-check, prepare, insert, convert, mint.
fn register_request(store: &mut MemoryStore, r: &Register, secret: &str, now: u64) -> Result<String, Error> {
    let exists = store.exists_by_username(&r.username);
    let new_user = begin_registration(r, exists)?;
    complete_registration(store.insert_user(new_user), secret, now)
}

#[test]
fn valid_registration_returns_token_for_persisted_id() {
    let mut store = MemoryStore::new();
    let r = reg("alice1", "a@example.com", "password1");
    let exists = store.exists_by_username(&r.username);
    let new_user = prepare_registration(&r, exists, 42).expect("registration should succeed");
    assert_eq!(new_user.user_id, 42);
    assert_eq!(new_user.username, "alice1");
    assert_eq!(new_user.email.as_deref(), Some("a@example.com"));
    // The plaintext is never stored; the hash verifies against it.
    assert_ne!(new_user.password, "password1");
    assert!(Argon2PasswordEncoder.verify_password("password1", &new_user.password));

    let inserted = store.insert_user(new_user);
    let now = jsonwebtoken::get_current_timestamp();
    let token = complete_registration(inserted, "top-secret", now)
        .expect("token issuance should succeed");
    assert!(!token.is_empty());
    let claims = validate_token(&token, "top-secret").expect("fresh token should validate");
    assert_eq!(claims.user_id, 42);
    assert_eq!(claims.expires_at, (now + 86_400) as i64);
}

#[test]
fn empty_email_is_stored_as_absent() {
    let r = reg("alice1", "", "password1");
    let new_user = prepare_registration(&r, false, 7).expect("registration should succeed");
    assert_eq!(new_user.email, None);
}

#[test]
fn second_registration_fails_on_the_precheck() {
    let mut store = MemoryStore::new();
    let r = reg("alice1", "a@example.com", "password1");
    assert!(register_request(&mut store, &r, "s", 1_700_000_000).is_ok());

    match register_request(&mut store, &r, "s", 1_700_000_000) {
        Err(Error::ValidationFailed(v)) => {
            assert_eq!(v.len(), 1);
            assert_eq!(v[0].field, "username");
            assert_eq!(v[0].messages, vec!["username is taken".to_string()]);
        },
        other => panic!("expected ValidationFailed, got {:?}", other),
    }
    assert_eq!(store.by_username.len(), 1, "no silent duplicate insert");
}

#[test]
fn raced_duplicate_surfaces_as_unprocessable_entity() {
    let mut store = MemoryStore::new();
    let r = reg("alice1", "a@example.com", "password1");
    assert!(register_request(&mut store, &r, "s", 1_700_000_000).is_ok());

    // The race: the pre-check was answered before the first insert
    // landed, so the insert itself trips the unique constraint.
    let new_user = begin_registration(&r, false).expect("pre-check raced");
    match complete_registration(store.insert_user(new_user), "s", 1_700_000_000) {
        Err(Error::UnprocessableEntity(detail)) => {
            assert_eq!(detail, "Duplicate entry 'alice1' for key 'username'");
        },
        other => panic!("expected UnprocessableEntity, got {:?}", other),
    }
    assert_eq!(store.by_username.len(), 1, "no silent duplicate insert");
}

#[test]
fn storage_not_found_and_other_failures_convert() {
    let r: Result<User, StorageError> = Err(StorageError::NotFound);
    match complete_registration(r, "s", 0) {
        Err(Error::NotFound(msg)) => assert_eq!(msg, "requested record was not found"),
        other => panic!("expected NotFound, got {:?}", other),
    }
    let r: Result<User, StorageError> = Err(StorageError::Other);
    assert!(matches!(complete_registration(r, "s", 0), Err(Error::InternalServerError)));
    let r: Result<User, StorageError> = Err(StorageError::UniqueViolation {
        detail: None,
        message: "unique constraint failed".to_string(),
    });
    match complete_registration(r, "s", 0) {
        Err(Error::UnprocessableEntity(msg)) => assert_eq!(msg, "unique constraint failed"),
        other => panic!("expected UnprocessableEntity, got {:?}", other),
    }
}

#[test]
fn concrete_scenario_register_then_repeat_then_malformed() {
    let mut store = MemoryStore::new();
    let now = jsonwebtoken::get_current_timestamp();

    let ok = register_request(&mut store, &reg("alice1", "a@example.com", "password1"), "s", now);
    let token = ok.expect("first registration succeeds");
    assert!(!token.is_empty());

    let repeat = register_request(&mut store, &reg("alice1", "a@example.com", "password1"), "s", now);
    assert!(
        matches!(repeat, Err(Error::ValidationFailed(_)) | Err(Error::UnprocessableEntity(_))),
        "a repeated registration is a non-success outcome"
    );

    let malformed = register_request(&mut store, &reg("ab", "", "x"), "s", now);
    match malformed {
        Err(Error::ValidationFailed(v)) => {
            let fields: Vec<&str> = v.iter().map(|fe| fe.field.as_str()).collect();
            assert!(fields.contains(&"username"));
            assert!(fields.contains(&"password"));
        },
        other => panic!("expected ValidationFailed, got {:?}", other),
    }
}

#[test]
fn persisted_record_mints_a_token_for_its_own_identity() {
    let mut store = MemoryStore::new();
    let r = reg("alice1", "a@example.com", "password1");
    let new_user = prepare_registration(&r, false, 77).expect("registration should succeed");
    let user = store.insert_user(new_user).expect("insert should succeed");
    let now = jsonwebtoken::get_current_timestamp();
    let token = user.generate_jwt("secret", now).expect("signing succeeds");
    let claims = validate_token(&token, "secret").expect("fresh token validates");
    assert_eq!(claims.user_id, 77);
}

#[test]
fn validation_failures_report_every_field_before_uniqueness() {
    // Even against a store that already holds the username, a request
    // with invalid fields fails validation first.
    let v = prepare_registration(&reg("ab", "", "x"), true, 1);
    match v {
        Err(Error::ValidationFailed(entries)) => {
            assert_eq!(entries.len(), 2);
            assert_eq!(entries[0].field, "username");
            assert_eq!(entries[1].field, "password");
        },
        other => panic!("expected ValidationFailed, got {:?}", other),
    }
}
