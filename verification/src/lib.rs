//! Batches of random, policy-compliant passwords and their salted Argon2id
//! hash records, with the plaintext wiped as soon as it has been hashed.

pub mod batch;
pub mod engine;
pub mod erase;
pub mod error;
pub mod generator;
pub mod layout;
pub mod policy;
pub mod primitive;
pub mod record;
pub mod salt;
