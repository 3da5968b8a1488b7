//! The unified error taxonomy: a closed set of outcome kinds, each with an
//! HTTP-equivalent status code, together with the total conversions that
//! normalize every internal failure source (storage, connection pool,
//! password hashing, token decoding) into exactly one outcome.

use vstd::prelude::*;

verus! {

/// One field of the request together with every validation message
/// collected for it. The outward payload for `ValidationFailed` is the
/// ordered list of these entries.
#[derive(Debug, Clone)]
pub struct FieldError {
    pub field: String,
    pub messages: Vec<String>,
}

/// The closed set of externally visible outcomes. Every internal failure
/// is converted into exactly one of these before it reaches the boundary;
/// no other kind exists.
#[derive(Debug, Clone)]
pub enum Error {
    /// Token missing, invalid or expired (status 401).
    Unauthorized(String),
    /// Authenticated but disallowed action (status 403).
    Forbidden(String),
    /// Record lookup miss (status 404).
    NotFound(String),
    /// Storage-level uniqueness violation surfaced after validation
    /// (status 422).
    UnprocessableEntity(String),
    /// Input shape/format/uniqueness pre-check failure (status 400).
    ValidationFailed(Vec<FieldError>),
    /// Pooling, hashing or unexpected storage failure; carries no internal
    /// detail (status 500).
    InternalServerError,
}

/// What the record store can report. The store itself is an external
/// collaborator; its failures enter the core as one of these.
#[derive(Debug, Clone)]
pub enum StorageError {
    /// The unique-constraint violation on insert. `detail` is the
    /// database's detail text when it gives one, `message` its generic
    /// message, used as fallback.
    UniqueViolation { detail: Option<String>, message: String },
    /// No such record.
    NotFound,
    /// Anything else the storage layer can fail with.
    Other,
}

/// The distinctions a token decoder reports that the taxonomy cares
/// about; every other decode failure collapses into `Other`.
#[derive(Debug, Clone)]
pub enum TokenFault {
    InvalidToken,
    InvalidIssuer,
    Other,
}

/// How a storage failure must surface: a unique-constraint violation as
/// `UnprocessableEntity` carrying the database detail (or the generic
/// message when no detail is available), a lookup miss as `NotFound`
/// with a generic message, anything else as `InternalServerError` with
/// no detail leaked.
pub open spec fn storage_outcome(e: StorageError, r: Error) -> bool {
    &&& (e matches StorageError::UniqueViolation { detail, message } ==> r
        == Error::UnprocessableEntity(
        if detail is Some {
            detail->Some_0
        } else {
            message
        },
    ))
    &&& (e is NotFound ==> r is NotFound && r->NotFound_0@ == "requested record was not found"@)
    &&& (e is Other ==> r is InternalServerError)
}

impl Error {
    /// The HTTP-equivalent status of each outcome kind.
    pub fn status_code(&self) -> (r: u16)
        ensures
            r == match self {
                Error::Unauthorized(_) => 401u16,
                Error::Forbidden(_) => 403u16,
                Error::NotFound(_) => 404u16,
                Error::UnprocessableEntity(_) => 422u16,
                Error::ValidationFailed(_) => 400u16,
                Error::InternalServerError => 500u16,
            },
    {
        match self {
            Error::Unauthorized(_) => 401,
            Error::Forbidden(_) => 403,
            Error::NotFound(_) => 404,
            Error::UnprocessableEntity(_) => 422,
            Error::ValidationFailed(_) => 400,
            Error::InternalServerError => 500,
        }
    }

    /// Converts a storage failure into its outcome: a unique-constraint
    /// violation becomes `UnprocessableEntity` carrying the database
    /// detail (or the generic message when no detail is available), a
    /// lookup miss becomes `NotFound` with a generic message, and any
    /// other storage failure leaks nothing and becomes
    /// `InternalServerError`.
    pub fn from_storage(e: StorageError) -> (r: Error)
        ensures
            storage_outcome(e, r),
    {
        match e {
            StorageError::UniqueViolation { detail, message } => {
                match detail {
                    Some(d) => Error::UnprocessableEntity(d),
                    None => Error::UnprocessableEntity(message),
                }
            },
            StorageError::NotFound => Error::NotFound("requested record was not found".to_owned()),
            StorageError::Other => Error::InternalServerError,
        }
    }

    /// Converts a token decode failure into its outcome. Every token
    /// fault maps to `Unauthorized`, never to any other kind; the message
    /// distinguishes the recognized categories.
    pub fn from_token_fault(e: TokenFault) -> (r: Error)
        ensures
            r is Unauthorized,
            r->Unauthorized_0@ == match e {
                TokenFault::InvalidToken => "Token is invalid"@,
                TokenFault::InvalidIssuer => "Issuer is invalid"@,
                TokenFault::Other => "An issue was found with the token provided"@,
            },
    {
        match e {
            TokenFault::InvalidToken => Error::Unauthorized("Token is invalid".to_owned()),
            TokenFault::InvalidIssuer => Error::Unauthorized("Issuer is invalid".to_owned()),
            TokenFault::Other => Error::Unauthorized(
                "An issue was found with the token provided".to_owned(),
            ),
        }
    }

    /// Connection-pool exhaustion or acquisition failure: no internal
    /// detail is leaked.
    pub fn from_pool_failure() -> (r: Error)
        ensures
            r is InternalServerError,
    {
        Error::InternalServerError
    }

    /// A failure of the hashing primitive: no internal detail is leaked.
    pub fn from_hash_failure() -> (r: Error)
        ensures
            r is InternalServerError,
    {
        Error::InternalServerError
    }
}

} // verus!
