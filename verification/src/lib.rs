//! A local secret manager's key-handling core: deterministic naming of the
//! shared-memory cache entry for an unwrapped private key, the unwrap
//! transaction with rollback-on-failure, the passphrase decryption backend,
//! configuration data, and secret generators.

pub mod backend;
pub mod cache;
pub mod config;
pub mod error;
pub mod generator;
pub mod naming;
