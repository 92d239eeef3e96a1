//! Cryptographic primitives: domain-separated key derivation, Ed25519
//! identities, X25519 agreement, ChaCha20-Poly1305 sessions and BLAKE3.
pub mod algorithms;
pub mod domains;
pub mod keys;
