//! A verified core for a command-line credential manager.
//!
//! Named secrets live in the operating system's secure store under a fixed
//! service namespace. This crate holds the parts worth proving: the secret
//! lifecycle policy (get, set with overwrite protection, delete), the unlock
//! protocol that must run before any store operation, an in-process fallback
//! store for platforms without native secure storage, and the adapter that
//! drives the platform keyring behind a small trusted surface.

mod diag;
pub mod errors;
pub mod keychain;
pub mod policy;
pub mod store;
pub mod unlock;
pub mod utils;
