//! Authentication and token-lifecycle engine.
//!
//! The crate hashes and checks passwords, issues and validates signed bearer
//! tokens, and decides the outcome of registration, login and refresh against
//! a credential store keyed by username.

mod clock;
pub mod error;
pub mod password;
pub mod service;
pub mod store;
pub mod text;
pub mod token;
