//! Negotiated algorithm suites.
use vstd::prelude::*;

verus! {

/// The negotiated algorithm suite for a session.
#[derive(Debug, Clone, PartialEq, Eq, Structural)]
pub enum AlgorithmSuite {
    /// X25519 ECDH + Ed25519 signatures + ChaCha20-Poly1305 + BLAKE3.
    Current,
    /// Hybrid: X25519 + CRYSTALS-Kyber KEM + same symmetric/signature stack.
    PqMigration,
}

impl Default for AlgorithmSuite {
    fn default() -> (s: Self)
        ensures
            s == AlgorithmSuite::Current,
    {
        AlgorithmSuite::Current
    }
}

} // verus!
