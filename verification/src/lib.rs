//! A minimal credential-based authentication core: password hashing
//! discipline, token issuance, registration conflict semantics, and the
//! cookie emission contract, with the handler logic verified over an
//! in-memory user repository.

pub mod config;
pub mod cookies;
pub mod error;
pub mod handlers;
pub mod hasher;
pub mod store;
pub mod token;
