//! Account and credential management for a small banking REST service:
//! accounts with salted argon2 password hashes, an in-memory account store
//! with a compare-and-swap password commit, and the plain records of banks,
//! agencies and users that the service exchanges.
pub mod hashing;
pub mod models;
pub mod store;
pub mod credentials;
pub mod records;
pub mod catalog;
