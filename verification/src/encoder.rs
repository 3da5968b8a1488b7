//! The password encoder: a one-way, salted, memory-hard hash (Argon2
//! with libreauth's default parameters) and its verification. The hash
//! string is self-describing: it embeds the salt and the cost
//! parameters, so verification needs only the hash and the plaintext.
//! A fresh random salt is drawn on every call, so two hashes of the same
//! plaintext differ while both verify against it.
//!
//! Verification is stated only for hash strings this encoder produced.
//! The stored format also admits crafted parameter combinations (memory
//! cost far below the lane count) that the encoder never emits but that
//! drive the underlying primitive into an invalid configuration where it
//! aborts, so a hash of unknown origin must not reach it.

use vstd::prelude::*;
use crate::error::Error;

verus! {

/// The verdict of verifying a plaintext against a self-describing hash
/// string: a function of the two strings alone.
pub uninterp spec fn password_verifies(plain: Seq<char>, phc: Seq<char>) -> bool;

/// The hash string was produced by this encoder: its parameters are the
/// encoder's own, so verifying against it is well defined.
pub uninterp spec fn encoder_hash(phc: Seq<char>) -> bool;

/// Relies on libreauth's `HashBuilder::new().finalize()` and
/// `Hasher::hash` (Argon2, default parameters, fresh random salt): on
/// success the result is a self-describing hash string that verifying
/// with the same plaintext accepts. The stored string carries a
/// 128-byte digest in base64, so it is always longer than any password
/// the hasher accepts (at most 128 code points); and hashing owes
/// success for a plaintext of 8 to 128 ASCII characters, which the
/// normalization step leaves unchanged.
#[verifier::external_body]
fn argon2_hash(password: &str) -> (r: Result<String, ()>)
    ensures
        r is Ok ==> password_verifies(password@, r->Ok_0@),
        r is Ok ==> encoder_hash(r->Ok_0@),
        r is Ok ==> r->Ok_0@.len() > 128,
        vstd::utf8::is_ascii_chars(password@) && 8 <= password@.len() <= 128 ==> r is Ok,
{
    let hasher = match libreauth::pass::HashBuilder::new().finalize() {
        Ok(h) => h,
        Err(_) => {
            return Err(());
        },
    };
    hasher.hash(password).map_err(|_| ())
}

/// Relies on libreauth's `HashBuilder::from_phc` and `Hasher::is_valid`:
/// the verdict depends on the plaintext and the hash string alone. The
/// hash must be one this encoder made: on a crafted parameter string
/// the primitive's configuration check aborts instead of returning, so
/// such inputs are excluded.
#[verifier::external_body]
fn argon2_verify(password: &str, phc: &str) -> (r: bool)
    requires
        encoder_hash(phc@),
    ensures
        r == password_verifies(password@, phc@),
{
    match libreauth::pass::HashBuilder::from_phc(phc) {
        Ok(hasher) => hasher.is_valid(password),
        Err(_) => false,
    }
}

/// The one-way password encoder used at registration.
pub struct Argon2PasswordEncoder;

impl Argon2PasswordEncoder {
    /// Hashes a password with a fresh salt. A failure of the hashing
    /// primitive surfaces as `InternalServerError` and leaks no detail;
    /// for a password of 8 to 128 ASCII characters it cannot fail. On
    /// success the returned hash verifies against the plaintext and is
    /// longer than any password the hasher accepts, so it never echoes
    /// the plaintext back.
    pub fn encode_password(&self, password: &str) -> (r: Result<String, Error>)
        ensures
            r is Ok ==> password_verifies(password@, r->Ok_0@),
            r is Ok ==> encoder_hash(r->Ok_0@),
            r is Ok ==> r->Ok_0@.len() > 128,
            vstd::utf8::is_ascii_chars(password@) && 8 <= password@.len() <= 128 ==> r is Ok,
            r is Err ==> r->Err_0 is InternalServerError,
    {
        match argon2_hash(password) {
            Ok(h) => Ok(h),
            Err(_) => Err(Error::from_hash_failure()),
        }
    }

    /// Verifies a plaintext against a stored hash this encoder made.
    pub fn verify_password(&self, password: &str, phc: &str) -> (r: bool)
        requires
            encoder_hash(phc@),
        ensures
            r == password_verifies(password@, phc@),
    {
        argon2_verify(password, phc)
    }

    /// Hashes a password and confirms the round trip on the spot: the
    /// freshly salted hash is handed back only after it verified
    /// against the plaintext. For a hash this encoder just made the
    /// confirmation cannot fail, so the only failure is the hashing
    /// primitive's own.
    pub fn encode_password_checked(&self, password: &str) -> (r: Result<String, Error>)
        ensures
            r is Ok ==> password_verifies(password@, r->Ok_0@),
            r is Ok ==> encoder_hash(r->Ok_0@),
            r is Ok ==> r->Ok_0@.len() > 128,
            vstd::utf8::is_ascii_chars(password@) && 8 <= password@.len() <= 128 ==> r is Ok,
            r is Err ==> r->Err_0 is InternalServerError,
    {
        let hash = match self.encode_password(password) {
            Ok(h) => h,
            Err(e) => {
                return Err(e);
            },
        };
        if self.verify_password(password, hash.as_str()) {
            Ok(hash)
        } else {
            Err(Error::from_hash_failure())
        }
    }
}

} // verus!
