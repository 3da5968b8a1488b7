//! Core of an authentication backend: credential validation, password
//! hashing and verification, signed session tokens, and a closed error
//! taxonomy that maps every internal failure to one externally visible
//! outcome.
//!
//! Storage and HTTP transport are external collaborators: the functions
//! here take the store's answers (does a username exist, what did the
//! insert return) as plain values and decide the next step, so the whole
//! registration workflow is verified without pulling I/O into the crate.

pub mod encoder;
pub mod error;
pub mod jwt;
pub mod message;
pub mod model;
pub mod register;
pub mod validate;
