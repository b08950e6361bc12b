//! Credential verification with upgradeable hashing schemes.
//!
//! The library verifies a clear-text password against a stored,
//! self-describing hash, classifies the hash's scheme as current or
//! outdated, opportunistically re-hashes under the current scheme on a
//! successful login, and issues or clears session tokens.

pub mod hash;
pub mod store;
pub mod token;
pub mod login;
pub mod claims;
