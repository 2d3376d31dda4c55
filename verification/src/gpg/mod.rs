//! What the interface knows of the key store and of its keys.

/// Settings of the key store.
pub mod config;

/// Key types and the description of a key.
pub mod key;

/// Handler methods.
pub mod handler;
