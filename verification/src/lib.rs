//! Credential issuance and session validation.
//!
//! The crate registers identities with hashed secrets, authenticates
//! returning users against stored credentials, and binds an authenticated
//! identity to a client session. Every decision is a verified function from
//! plain values to plain values; talking to the identity store and to the
//! HTTP layer is left to the embedding program.

pub mod authenticator;
pub mod hasher;
pub mod identity;
pub mod laws;
pub mod memory;
pub mod registrar;
pub mod service;
pub mod session;
pub mod store;
