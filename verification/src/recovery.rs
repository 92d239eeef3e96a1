//! Guardian-based recovery: guardians, their binding, and the blinded
//! shards they hold.
use vstd::prelude::*;

verus! {

/// A guardian is identified only by their operational public key.
/// Guardians must never learn the user's relationship graph or recovery semantics.
#[derive(Debug, Clone, Copy)]
pub struct Guardian {
    pub ops_pub: [u8; 32],
}

/// Event triggering guardian binding.
pub struct GuardianBind {
    pub guardians: Vec<Guardian>,
    /// Minimum number of guardians required for threshold recovery (3–7).
    pub threshold: u8,
}

#[derive(Debug, Clone, Copy, PartialEq, Eq, Structural)]
pub enum RecoveryError {
    /// Insufficient guardians: need at least this many.
    BelowThreshold(u8),
    /// Shard reconstruction failed.
    ReconstructionFailed,
    /// Identity shedding failed.
    SheddingFailed,
}

/// An encrypted, blinded shard of the recovery secret.
/// Guardians hold this without knowing its meaning or origin.
pub struct BlindedShard(pub Vec<u8>);

/// The output of a successful recovery — operational keys ready for rotation.
pub struct RecoveredIdentity {
    pub k_ops_pub: [u8; 32],
    pub k_ops_priv: [u8; 32],
}

} // verus!
