//! Sovereign identity: genesis of the root and operational keypairs,
//! root-signed operational key rotation, and lineage proofs.
use crate::bytes::{append_bytes, u64_le};
use crate::crypto::keys::{
    hash, os_random_bytes, spec_blake3_hash, spec_ed25519_public, spec_ed25519_sign,
    spec_ed25519_verify, KeyPair, PublicKey,
};
use crate::ledger::{rotate_key_post, rotated_by, LedgerError, LedgerState};
use crate::wire_format::signing::rotation_bytes;
use vstd::prelude::*;

verus! {

/// Trigger to generate a new sovereign identity.
pub struct IdentityGenesis;

/// All artifacts produced during identity genesis.
///
/// Root keys must be stored in the hardware enclave immediately after genesis.
/// Operational keys rotate frequently; root keys only sign lineage continuity.
pub struct GenesisArtifacts {
    pub k_root_pub: [u8; 32],
    pub k_root_priv: [u8; 32],
    pub k_ops_pub: [u8; 32],
    pub k_ops_priv: [u8; 32],
    pub recovery_policy_hash: [u8; 32],
    pub continuity_commitment: [u8; 32],
}

/// Serializable public portion of a genesis (safe to publish to the ledger).
#[derive(Debug, Clone, Copy)]
pub struct IdentityRecord {
    pub k_root_pub: [u8; 32],
    pub k_ops_pub: [u8; 32],
    pub recovery_policy_hash: [u8; 32],
    pub continuity_commitment: [u8; 32],
}

#[derive(Debug, Clone, Copy, PartialEq, Eq, Structural)]
pub enum IdentityError {
    /// Enclave key generation failed.
    EnclaveFailure,
    /// Derivation error.
    DerivationError,
}

/// The default recovery policy label `scp:recovery:3-of-5:v1`, whose hash
/// every genesis records.
pub const DEFAULT_RECOVERY_POLICY: [u8; 22] = [
    0x73u8, 0x63, 0x70, 0x3a, 0x72, 0x65, 0x63, 0x6f, 0x76, 0x65, 0x72, 0x79, 0x3a, 0x33, 0x2d,
    0x6f, 0x66, 0x2d, 0x35, 0x3a, 0x76, 0x31,
];

/// The continuity commitment of an identity:
/// BLAKE3(root_pub ‖ ops_pub ‖ recovery_policy_hash).
pub open spec fn continuity_commitment_of(root_pub: Seq<u8>, ops_pub: Seq<u8>, policy_hash: Seq<u8>) -> Seq<u8> {
    spec_blake3_hash(root_pub + ops_pub + policy_hash)
}

impl IdentityGenesis {
    /// Run the full genesis flow: a root keypair, an independent
    /// operational keypair, the hash of the default recovery policy, and the
    /// continuity commitment BLAKE3(root_pub ‖ ops_pub ‖ recovery_policy_hash).
    pub fn execute() -> (r: Result<GenesisArtifacts, IdentityError>)
        ensures
            r matches Ok(a) && {
                &&& a.k_root_pub@ == spec_ed25519_public(a.k_root_priv@)
                &&& a.k_ops_pub@ == spec_ed25519_public(a.k_ops_priv@)
                &&& a.recovery_policy_hash@ == spec_blake3_hash(DEFAULT_RECOVERY_POLICY@)
                &&& a.continuity_commitment@ == continuity_commitment_of(
                    a.k_root_pub@,
                    a.k_ops_pub@,
                    a.recovery_policy_hash@,
                )
            },
    {
        let root = KeyPair::generate();
        let ops = KeyPair::generate();
        let recovery_policy_hash = hash(DEFAULT_RECOVERY_POLICY.as_slice());
        let mut commitment_input: Vec<u8> = Vec::new();
        append_bytes(&mut commitment_input, root.public.as_slice());
        append_bytes(&mut commitment_input, ops.public.as_slice());
        append_bytes(&mut commitment_input, recovery_policy_hash.as_slice());
        let continuity_commitment = hash(commitment_input.as_slice());
        Ok(
            GenesisArtifacts {
                k_root_pub: root.public,
                k_root_priv: root.secret,
                k_ops_pub: ops.public,
                k_ops_priv: ops.secret,
                recovery_policy_hash,
                continuity_commitment,
            },
        )
    }
}

/// Cryptographic proof that an operational key descends from a root anchor.
pub struct ContinuityProof {
    pub root_pub: [u8; 32],
    /// Ordered chain of rotation events (root → ... → current ops key). Each
    /// entry is a 64-byte Ed25519 signature.
    pub rotation_chain: Vec<Vec<u8>>,
    pub current_ops_pub: [u8; 32],
}

/// Signals that an operational key rotation should occur.
/// The root key signs this event — root keys never sign anything else.
pub struct RotationEvent {
    /// The public key being retired.
    pub old_ops_pub: [u8; 32],
    /// The new operational public key.
    pub new_ops_pub: [u8; 32],
    /// Root-key signature (Ed25519, 64 bytes) over (old_ops_pub ‖ new_ops_pub ‖ nonce).
    pub root_sig: Vec<u8>,
    /// Random nonce to prevent replay of rotation events.
    pub nonce: u64,
}

#[derive(Debug, Clone, Copy, PartialEq, Eq, Structural)]
pub enum RotationError {
    /// Enclave signing failed.
    EnclaveFailed,
}

/// The 72-byte message a root key signs for a rotation.
fn rotation_message(old_ops_pub: &[u8; 32], new_ops_pub: &[u8; 32], nonce: u64) -> (msg: Vec<u8>)
    ensures
        msg@ == rotation_bytes(old_ops_pub@, new_ops_pub@, nonce),
{
    let mut msg: Vec<u8> = Vec::new();
    append_bytes(&mut msg, old_ops_pub.as_slice());
    append_bytes(&mut msg, new_ops_pub.as_slice());
    crate::bytes::append_u64_le(&mut msg, nonce);
    msg
}

/// The little-endian value of eight bytes (`u64::from_le_bytes`).
pub fn u64_from_le(b: &[u8; 8]) -> (x: u64)
    ensures
        u64_le(x) == b@,
{
    let mut x: u64 = 0;
    let mut i: usize = 8;
    proof {
        crate::bytes::lemma_pow256_values();
    }
    while i > 0
        invariant
            0 <= i <= 8,
            b@.len() == 8,
            crate::bytes::le_value(b@.subrange(i as int, 8)) == x,
            crate::bytes::pow256(8) == 0x1_0000_0000_0000_0000,
        decreases i,
    {
        i -= 1;
        let ghost tail = b@.subrange(i as int, 8);
        proof {
            assert(tail.drop_first() =~= b@.subrange(i + 1, 8));
            crate::bytes::lemma_le_value_bound(tail);
            crate::bytes::lemma_pow256_monotone(tail.len(), 8);
        }
        x = (b[i] as u64) + x * 256;
    }
    proof {
        assert(b@.subrange(0, 8) =~= b@);
        crate::bytes::lemma_le_bytes_of_value(b@);
    }
    x
}

impl RotationEvent {
    /// Produce a signed rotation event under a fresh random nonce.
    /// `root_keypair` must be the identity's root keypair.
    pub fn sign(old_ops_pub: [u8; 32], new_ops_pub: [u8; 32], root_keypair: &KeyPair) -> (r: Result<Self, RotationError>)
        ensures
            r matches Ok(ev) && {
                &&& ev.old_ops_pub == old_ops_pub
                &&& ev.new_ops_pub == new_ops_pub
                &&& ev.root_sig@ == spec_ed25519_sign(
                    root_keypair.secret@,
                    rotation_bytes(old_ops_pub@, new_ops_pub@, ev.nonce),
                )
            },
    {
        let nonce_bytes: [u8; 8] = os_random_bytes();
        let nonce = u64_from_le(&nonce_bytes);
        let msg = rotation_message(&old_ops_pub, &new_ops_pub, nonce);
        let sig = root_keypair.sign(msg.as_slice());
        let mut root_sig: Vec<u8> = Vec::new();
        append_bytes(&mut root_sig, sig.as_slice());
        Ok(RotationEvent { old_ops_pub, new_ops_pub, root_sig, nonce })
    }

    /// Verify this rotation event against the identity's root public key:
    /// the signature must be 64 bytes and a valid Ed25519 signature by
    /// `root_pub` of old_ops_pub ‖ new_ops_pub ‖ nonce.
    pub fn verify(&self, root_pub: &[u8; 32]) -> (ok: bool)
        ensures
            ok == (self.root_sig@.len() == 64 && spec_ed25519_verify(
                root_pub@,
                rotation_bytes(self.old_ops_pub@, self.new_ops_pub@, self.nonce),
                self.root_sig@,
            )),
    {
        if self.root_sig.len() != 64 {
            return false;
        }
        let mut sig: [u8; 64] = [0u8; 64];
        let mut i: usize = 0;
        while i < 64
            invariant
                0 <= i <= 64,
                self.root_sig@.len() == 64,
                sig@.len() == 64,
                forall|j: int| 0 <= j < i ==> sig@[j] == self.root_sig@[j],
            decreases 64 - i,
        {
            sig[i] = self.root_sig[i];
            i += 1;
        }
        assert(sig@ =~= self.root_sig@);
        let msg = rotation_message(&self.old_ops_pub, &self.new_ops_pub, self.nonce);
        PublicKey(*root_pub).verify(msg.as_slice(), &sig)
    }
}

/// An event that verifies under a root key carries exactly the signature
/// the ledger asks of that root for the same rotation: if the root holds the
/// event's old key, the ledger does not refuse the rotation for its
/// signature.
pub proof fn lemma_verified_rotation_accepted(
    ev: RotationEvent,
    root: [u8; 32],
    sig: [u8; 64],
    pre: LedgerState,
    r: Result<(), LedgerError>,
    post: LedgerState,
)
    requires
        sig@ == ev.root_sig@,
        rotated_by(pre, root, ev.old_ops_pub, ev.new_ops_pub, ev.nonce, sig, r, post),
        ev.root_sig@.len() == 64 && spec_ed25519_verify(
            root@,
            rotation_bytes(ev.old_ops_pub@, ev.new_ops_pub@, ev.nonce),
            ev.root_sig@,
        ),
    ensures
        r is Ok,
        post.revoked_ops().contains(ev.old_ops_pub@),
        post.ops_keys()[root@] == ev.new_ops_pub,
{
}

} // verus!
