//! A pluggable cryptography provider for a database engine's page-level
//! encryption subsystem. The provider offers four stateless operations
//! (random bytes, keyed hashing, key derivation, block-cipher transform)
//! built on audited primitives (an OS CSPRNG, HMAC-SHA-512,
//! PBKDF2-HMAC-SHA-512, AES-256 in CBC mode), a set of fixed-answer
//! capability queries, and an assembler that populates the fixed-layout
//! provider table the host engine expects.

pub mod primitives;
pub mod provider;
pub mod sqlcipher;
pub mod sqlite;
