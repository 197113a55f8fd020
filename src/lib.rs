//! Issuing and looking up user identities keyed by a random access key.

pub mod access_key;
pub mod gateway;
pub mod identity;
