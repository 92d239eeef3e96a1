//! The sovereign state layer: identity registration, operational key
//! rotation and revocation, and bilateral tunnel consent. Two chain
//! adapters share one in-memory state machine.
pub mod cosmos;
pub mod substrate;

use crate::byte_map::ByteMap;
use crate::crypto::keys::{hash, spec_blake3_hash, spec_ed25519_verify, PublicKey};
use crate::wire_format::signing::{
    lemma_tunnel_consent_symmetric, registration_bytes, rotation_bytes, tunnel_consent_bytes,
    tunnel_consent_input,
};
use vstd::prelude::*;

verus! {

/// Minimal on-chain identity record (public portion only).
#[derive(Debug, Clone, Copy)]
pub struct LedgerIdentityRecord {
    pub k_root_pub: [u8; 32],
    pub k_ops_pub: [u8; 32],
    pub recovery_policy_hash: [u8; 32],
    pub continuity_commitment: [u8; 32],
}

/// Bilateral tunnel consent — both parties must sign.
pub struct TunnelConsent {
    /// Lexicographically smaller operational public key.
    pub party_a: [u8; 32],
    /// Lexicographically larger operational public key.
    pub party_b: [u8; 32],
    /// party_a's Ed25519 signature over the consent hash.
    pub sig_a: Vec<u8>,
    /// party_b's Ed25519 signature over the consent hash.
    pub sig_b: Vec<u8>,
}

/// Observed state of a tunnel between two operational identities.
#[derive(Debug, Clone, Copy, PartialEq, Eq, Structural)]
pub enum TunnelState {
    /// Bilateral consent is on record and neither party has revoked.
    Active,
    /// One or both parties have revoked consent.
    Revoked,
    /// No consent record exists for this pair.
    Unknown,
}

#[derive(Debug, Clone, Copy, PartialEq, Eq, Structural)]
pub enum LedgerError {
    /// Identity not found.
    NotFound,
    /// Identity already registered.
    AlreadyRegistered,
    /// Invalid signature.
    InvalidSignature,
    /// Ledger connection failed.
    ConnectionFailed,
}

/// The canonical tunnel consent hash of two parties, in either order.
pub open spec fn consent_hash_of(a: Seq<u8>, b: Seq<u8>) -> Seq<u8> {
    spec_blake3_hash(tunnel_consent_bytes(a, b))
}

/// Canonical tunnel consent hash — parties sorted so A ≤ B lexicographically:
/// BLAKE3("scp:tunnel:v1:" ‖ lo ‖ hi).
pub fn tunnel_consent_hash(a: &[u8; 32], b: &[u8; 32]) -> (h: [u8; 32])
    ensures
        h@ == consent_hash_of(a@, b@),
{
    let msg = tunnel_consent_input(a, b);
    hash(msg.as_slice())
}

/// The consent hash does not depend on which party is named first.
pub proof fn lemma_consent_hash_symmetric(a: Seq<u8>, b: Seq<u8>)
    requires
        a.len() == 32,
        b.len() == 32,
    ensures
        consent_hash_of(a, b) == consent_hash_of(b, a),
{
    lemma_tunnel_consent_symmetric(a, b);
}

/// The 96-byte registration message whose BLAKE3 digest a root key signs:
/// k_root_pub ‖ k_ops_pub ‖ recovery_policy_hash.
fn registration_message(r: &LedgerIdentityRecord) -> (msg: Vec<u8>)
    ensures
        msg@ == registration_bytes(r.k_root_pub@, r.k_ops_pub@, r.recovery_policy_hash@),
        msg@.subrange(0, 32) == r.k_root_pub@,
        msg@.subrange(32, 64) == r.k_ops_pub@,
        msg@.subrange(64, 96) == r.recovery_policy_hash@,
{
    let mut msg: Vec<u8> = Vec::new();
    crate::bytes::append_bytes(&mut msg, r.k_root_pub.as_slice());
    crate::bytes::append_bytes(&mut msg, r.k_ops_pub.as_slice());
    crate::bytes::append_bytes(&mut msg, r.recovery_policy_hash.as_slice());
    assert(msg@.subrange(0, 32) =~= r.k_root_pub@);
    assert(msg@.subrange(32, 64) =~= r.k_ops_pub@);
    assert(msg@.subrange(64, 96) =~= r.recovery_policy_hash@);
    msg
}

/// The 72-byte rotation message a root key signs:
/// old_ops_pub ‖ new_ops_pub ‖ nonce (8 bytes, LE).
fn rotation_message(old: &[u8; 32], new: &[u8; 32], nonce: u64) -> (msg: Vec<u8>)
    ensures
        msg@ == rotation_bytes(old@, new@, nonce),
{
    let mut msg: Vec<u8> = Vec::new();
    crate::bytes::append_bytes(&mut msg, old.as_slice());
    crate::bytes::append_bytes(&mut msg, new.as_slice());
    crate::bytes::append_u64_le(&mut msg, nonce);
    msg
}

/// A 64-byte signature from a slice of exactly 64 bytes.
fn signature_from_slice(s: &[u8]) -> (r: Option<[u8; 64]>)
    ensures
        match r {
            Some(sig) => s@.len() == 64 && sig@ == s@,
            None => s@.len() != 64,
        },
{
    if s.len() != 64 {
        return None;
    }
    let mut sig: [u8; 64] = [0u8; 64];
    let mut i: usize = 0;
    while i < 64
        invariant
            0 <= i <= 64,
            s@.len() == 64,
            sig@.len() == 64,
            forall|j: int| 0 <= j < i ==> sig@[j] == s@[j],
        decreases 64 - i,
    {
        sig[i] = s[i];
        i += 1;
    }
    assert(sig@ =~= s@);
    Some(sig)
}

/// The in-memory ledger state shared by both chain adapters.
pub struct LedgerState {
    /// root_pub → identity record
    identities: ByteMap<LedgerIdentityRecord>,
    /// Current ops key per root identity (updated on rotation)
    ops_keys: ByteMap<[u8; 32]>,
    /// Revoked ops public keys
    revoked_ops: ByteMap<()>,
    /// consent_hash → consent (Active tunnels)
    tunnels: ByteMap<TunnelConsent>,
    /// Revoked tunnel consent hashes
    revoked_tunnels: ByteMap<()>,
}

/// Whether some registered root currently holds `ops` as its operational key.
pub open spec fn has_owner(ops_keys: Map<Seq<u8>, [u8; 32]>, ops: Seq<u8>) -> bool {
    exists|root: Seq<u8>| #[trigger] ops_keys.contains_key(root) && ops_keys[root]@ == ops
}

/// The tunnel state the ledger reports for the pair `a`, `b`.
pub open spec fn tunnel_state_of(state: LedgerState, a: Seq<u8>, b: Seq<u8>) -> TunnelState {
    let ch = consent_hash_of(a, b);
    if state.revoked_tunnels().contains(ch) {
        TunnelState::Revoked
    } else if state.tunnels().contains_key(ch) {
        TunnelState::Active
    } else {
        TunnelState::Unknown
    }
}

/// The record with its operational key replaced by `ops`.
pub open spec fn with_ops_key(rec: LedgerIdentityRecord, ops: [u8; 32]) -> LedgerIdentityRecord {
    LedgerIdentityRecord { k_ops_pub: ops, ..rec }
}

/// Registration: refused with `InvalidSignature` unless the root key signed
/// the BLAKE3 digest of the registration message, then with `AlreadyRegistered` if the root is
/// known; otherwise the record and its ops key are stored. A refusal leaves
/// the state as it was.
pub open spec fn register_identity_post(
    pre: LedgerState,
    record: LedgerIdentityRecord,
    root_sig: [u8; 64],
    r: Result<(), LedgerError>,
    post: LedgerState,
) -> bool {
    let signed = spec_ed25519_verify(
        record.k_root_pub@,
        spec_blake3_hash(
            registration_bytes(record.k_root_pub@, record.k_ops_pub@, record.recovery_policy_hash@),
        ),
        root_sig@,
    );
    if !signed {
        r == Err::<(), LedgerError>(LedgerError::InvalidSignature) && post == pre
    } else if pre.identities().contains_key(record.k_root_pub@) {
        r == Err::<(), LedgerError>(LedgerError::AlreadyRegistered) && post == pre
    } else {
        &&& r is Ok
        &&& post.identities() == pre.identities().insert(record.k_root_pub@, record)
        &&& post.ops_keys() == pre.ops_keys().insert(record.k_root_pub@, record.k_ops_pub)
        &&& post.revoked_ops() == pre.revoked_ops()
        &&& post.tunnels() == pre.tunnels()
        &&& post.revoked_tunnels() == pre.revoked_tunnels()
    }
}

/// Rotation of `old` to `new` by the root `root` that holds it: refused
/// with `InvalidSignature` (state unchanged) unless `root` signed the
/// rotation message; on success `root`'s ops key and its record's become
/// `new`, and `old` is revoked.
pub open spec fn rotated_by(
    pre: LedgerState,
    root: [u8; 32],
    old: [u8; 32],
    new: [u8; 32],
    nonce: u64,
    root_sig: [u8; 64],
    r: Result<(), LedgerError>,
    post: LedgerState,
) -> bool {
    &&& pre.ops_keys().contains_key(root@)
    &&& pre.ops_keys()[root@]@ == old@
    &&& if !spec_ed25519_verify(root@, rotation_bytes(old@, new@, nonce), root_sig@) {
        r == Err::<(), LedgerError>(LedgerError::InvalidSignature) && post == pre
    } else {
        &&& r is Ok
        &&& post.ops_keys() == pre.ops_keys().insert(root@, new)
        &&& post.identities() == if pre.identities().contains_key(root@) {
            pre.identities().insert(root@, with_ops_key(pre.identities()[root@], new))
        } else {
            pre.identities()
        }
        &&& post.revoked_ops() == pre.revoked_ops().insert(old@)
        &&& post.tunnels() == pre.tunnels()
        &&& post.revoked_tunnels() == pre.revoked_tunnels()
    }
}

/// Rotation: `NotFound` when no root holds `old` as its ops key; otherwise
/// the rotation as done by some root that holds it (which one the ledger
/// picks among several is not fixed).
pub open spec fn rotate_key_post(
    pre: LedgerState,
    old: [u8; 32],
    new: [u8; 32],
    nonce: u64,
    root_sig: [u8; 64],
    r: Result<(), LedgerError>,
    post: LedgerState,
) -> bool {
    if !has_owner(pre.ops_keys(), old@) {
        r == Err::<(), LedgerError>(LedgerError::NotFound) && post == pre
    } else {
        exists|root: [u8; 32]| #[trigger] rotated_by(pre, root, old, new, nonce, root_sig, r, post)
    }
}

/// Revocation of `ops` by the root `root` that holds it: refused with
/// `InvalidSignature` (state unchanged) unless `root` signed the 32 key
/// bytes; on success `ops` is revoked.
pub open spec fn revoked_by(
    pre: LedgerState,
    root: [u8; 32],
    ops: [u8; 32],
    root_sig: [u8; 64],
    r: Result<(), LedgerError>,
    post: LedgerState,
) -> bool {
    &&& pre.ops_keys().contains_key(root@)
    &&& pre.ops_keys()[root@]@ == ops@
    &&& if !spec_ed25519_verify(root@, ops@, root_sig@) {
        r == Err::<(), LedgerError>(LedgerError::InvalidSignature) && post == pre
    } else {
        &&& r is Ok
        &&& post.revoked_ops() == pre.revoked_ops().insert(ops@)
        &&& post.ops_keys() == pre.ops_keys()
        &&& post.identities() == pre.identities()
        &&& post.tunnels() == pre.tunnels()
        &&& post.revoked_tunnels() == pre.revoked_tunnels()
    }
}

/// Revocation: `NotFound` when no root holds `ops`; otherwise the
/// revocation as done by some root that holds it.
pub open spec fn revoke_post(
    pre: LedgerState,
    ops: [u8; 32],
    root_sig: [u8; 64],
    r: Result<(), LedgerError>,
    post: LedgerState,
) -> bool {
    if !has_owner(pre.ops_keys(), ops@) {
        r == Err::<(), LedgerError>(LedgerError::NotFound) && post == pre
    } else {
        exists|root: [u8; 32]| #[trigger] revoked_by(pre, root, ops, root_sig, r, post)
    }
}

/// Tunnel registration: `InvalidSignature` unless both signatures are 64
/// bytes and each party signed the consent hash; on success the consent is
/// stored under its hash (replacing an earlier one).
pub open spec fn register_tunnel_post(
    pre: LedgerState,
    consent: TunnelConsent,
    r: Result<(), LedgerError>,
    post: LedgerState,
) -> bool {
    let ch = consent_hash_of(consent.party_a@, consent.party_b@);
    let ok = consent.sig_a@.len() == 64 && consent.sig_b@.len() == 64 && spec_ed25519_verify(
        consent.party_a@,
        ch,
        consent.sig_a@,
    ) && spec_ed25519_verify(consent.party_b@, ch, consent.sig_b@);
    if !ok {
        r == Err::<(), LedgerError>(LedgerError::InvalidSignature) && post == pre
    } else {
        &&& r is Ok
        &&& post.tunnels() == pre.tunnels().insert(ch, consent)
        &&& post.identities() == pre.identities()
        &&& post.ops_keys() == pre.ops_keys()
        &&& post.revoked_ops() == pre.revoked_ops()
        &&& post.revoked_tunnels() == pre.revoked_tunnels()
    }
}

/// Tunnel revocation by one party: `NotFound` without a consent record for
/// the pair, `InvalidSignature` unless `ops` signed the consent hash; on
/// success the consent hash is revoked.
pub open spec fn revoke_tunnel_post(
    pre: LedgerState,
    ops: [u8; 32],
    ops_sig: [u8; 64],
    partner: [u8; 32],
    r: Result<(), LedgerError>,
    post: LedgerState,
) -> bool {
    let ch = consent_hash_of(ops@, partner@);
    if !pre.tunnels().contains_key(ch) {
        r == Err::<(), LedgerError>(LedgerError::NotFound) && post == pre
    } else if !spec_ed25519_verify(ops@, ch, ops_sig@) {
        r == Err::<(), LedgerError>(LedgerError::InvalidSignature) && post == pre
    } else {
        &&& r is Ok
        &&& post.revoked_tunnels() == pre.revoked_tunnels().insert(ch)
        &&& post.identities() == pre.identities()
        &&& post.ops_keys() == pre.ops_keys()
        &&& post.revoked_ops() == pre.revoked_ops()
        &&& post.tunnels() == pre.tunnels()
    }
}

impl LedgerState {
    /// The five maps are well formed.
    pub closed spec fn wf(self) -> bool {
        &&& self.identities.wf()
        &&& self.ops_keys.wf()
        &&& self.revoked_ops.wf()
        &&& self.tunnels.wf()
        &&& self.revoked_tunnels.wf()
    }

    /// Identity records by root public key.
    pub closed spec fn identities(self) -> Map<Seq<u8>, LedgerIdentityRecord> {
        self.identities@
    }

    /// Current operational key by root public key.
    pub closed spec fn ops_keys(self) -> Map<Seq<u8>, [u8; 32]> {
        self.ops_keys@
    }

    /// Revoked operational keys.
    pub closed spec fn revoked_ops(self) -> Set<Seq<u8>> {
        self.revoked_ops@.dom()
    }

    /// Tunnel consents by consent hash.
    pub closed spec fn tunnels(self) -> Map<Seq<u8>, TunnelConsent> {
        self.tunnels@
    }

    /// Revoked tunnel consent hashes.
    pub closed spec fn revoked_tunnels(self) -> Set<Seq<u8>> {
        self.revoked_tunnels@.dom()
    }

    /// The empty ledger.
    pub fn new() -> (s: Self)
        ensures
            s.wf(),
            s.identities() == Map::<Seq<u8>, LedgerIdentityRecord>::empty(),
            s.ops_keys() == Map::<Seq<u8>, [u8; 32]>::empty(),
            s.revoked_ops() == Set::<Seq<u8>>::empty(),
            s.tunnels() == Map::<Seq<u8>, TunnelConsent>::empty(),
            s.revoked_tunnels() == Set::<Seq<u8>>::empty(),
    {
        LedgerState {
            identities: ByteMap::new(),
            ops_keys: ByteMap::new(),
            revoked_ops: ByteMap::new(),
            tunnels: ByteMap::new(),
            revoked_tunnels: ByteMap::new(),
        }
    }

    /// Some root that currently holds `ops` as its operational key.
    fn find_root_of(&self, ops: &[u8; 32]) -> (r: Option<[u8; 32]>)
        requires
            self.wf(),
        ensures
            match r {
                Some(root) => self.ops_keys().contains_key(root@) && self.ops_keys()[root@]@ == ops@,
                None => !has_owner(self.ops_keys(), ops@),
            },
    {
        let n = self.ops_keys.entry_count();
        let mut i: usize = 0;
        while i < n
            invariant
                self.wf(),
                n == self.ops_keys.key_seq().len(),
                0 <= i <= n,
                forall|j: int| 0 <= j < i ==> (#[trigger] self.ops_keys@[self.ops_keys.key_seq()[j]])@ != ops@,
            decreases n - i,
        {
            let (root, cur) = self.ops_keys.entry_at(i);
            if crate::bytes::bytes32_eq(cur, ops) {
                return Some(*root);
            }
            i += 1;
        }
        proof {
            self.ops_keys.lemma_wf();
            assert forall|root: Seq<u8>| #[trigger] self.ops_keys().contains_key(root) implies self.ops_keys()[root]@ != ops@ by {
                let ks = self.ops_keys.key_seq();
                assert(ks.contains(root));
                let j = choose|j: int| 0 <= j < ks.len() && ks[j] == root;
                assert(self.ops_keys@[ks[j]]@ != ops@);
            }
        }
        None
    }

    pub fn register_identity(&mut self, record: &LedgerIdentityRecord, root_sig: &[u8; 64]) -> (r: Result<(), LedgerError>)
        requires
            old(self).wf(),
        ensures
            final(self).wf(),
            register_identity_post(*old(self), *record, *root_sig, r, *final(self)),
            old(self).revoked_ops().subset_of(final(self).revoked_ops()),
            old(self).revoked_tunnels().subset_of(final(self).revoked_tunnels()),
    {
        let msg = registration_message(record);
        let digest = hash(msg.as_slice());
        if !PublicKey(record.k_root_pub).verify(digest.as_slice(), root_sig) {
            return Err(LedgerError::InvalidSignature);
        }
        if self.identities.contains_key(&record.k_root_pub) {
            return Err(LedgerError::AlreadyRegistered);
        }
        self.ops_keys.insert(record.k_root_pub, record.k_ops_pub);
        self.identities.insert(record.k_root_pub, *record);
        Ok(())
    }

    pub fn rotate_key(&mut self, old_ops_pub: &[u8; 32], new_ops_pub: &[u8; 32], nonce: u64, root_sig: &[u8; 64]) -> (r: Result<(), LedgerError>)
        requires
            old(self).wf(),
        ensures
            final(self).wf(),
            rotate_key_post(*old(self), *old_ops_pub, *new_ops_pub, nonce, *root_sig, r, *final(self)),
            old(self).revoked_ops().subset_of(final(self).revoked_ops()),
            old(self).revoked_tunnels().subset_of(final(self).revoked_tunnels()),
    {
        let root_pub = match self.find_root_of(old_ops_pub) {
            Some(root) => root,
            None => {
                return Err(LedgerError::NotFound);
            },
        };
        let ghost pre = *self;
        let msg = rotation_message(old_ops_pub, new_ops_pub, nonce);
        if !PublicKey(root_pub).verify(msg.as_slice(), root_sig) {
            assert(rotated_by(pre, root_pub, *old_ops_pub, *new_ops_pub, nonce, *root_sig, Err(LedgerError::InvalidSignature), *self));
            return Err(LedgerError::InvalidSignature);
        }
        self.ops_keys.insert(root_pub, *new_ops_pub);
        let existing = match self.identities.get(&root_pub) {
            Some(rec) => Some(*rec),
            None => None,
        };
        match existing {
            Some(rec) => {
                let mut updated = rec;
                updated.k_ops_pub = *new_ops_pub;
                assert(updated == with_ops_key(rec, *new_ops_pub));
                self.identities.insert(root_pub, updated);
            },
            None => {},
        }
        self.revoked_ops.insert(*old_ops_pub, ());
        assert(rotated_by(pre, root_pub, *old_ops_pub, *new_ops_pub, nonce, *root_sig, Ok(()), *self));
        Ok(())
    }

    pub fn revoke(&mut self, ops_pub: &[u8; 32], root_sig: &[u8; 64]) -> (r: Result<(), LedgerError>)
        requires
            old(self).wf(),
        ensures
            final(self).wf(),
            revoke_post(*old(self), *ops_pub, *root_sig, r, *final(self)),
            old(self).revoked_ops().subset_of(final(self).revoked_ops()),
            old(self).revoked_tunnels().subset_of(final(self).revoked_tunnels()),
    {
        let root_pub = match self.find_root_of(ops_pub) {
            Some(root) => root,
            None => {
                return Err(LedgerError::NotFound);
            },
        };
        let ghost pre = *self;
        if !PublicKey(root_pub).verify(ops_pub.as_slice(), root_sig) {
            assert(revoked_by(pre, root_pub, *ops_pub, *root_sig, Err(LedgerError::InvalidSignature), *self));
            return Err(LedgerError::InvalidSignature);
        }
        self.revoked_ops.insert(*ops_pub, ());
        assert(revoked_by(pre, root_pub, *ops_pub, *root_sig, Ok(()), *self));
        Ok(())
    }

    pub fn query_current_ops_key(&self, k_root_pub: &[u8; 32]) -> (r: Result<[u8; 32], LedgerError>)
        requires
            self.wf(),
        ensures
            self.ops_keys().contains_key(k_root_pub@) ==> r == Ok::<[u8; 32], LedgerError>(
                self.ops_keys()[k_root_pub@],
            ),
            !self.ops_keys().contains_key(k_root_pub@) ==> r == Err::<[u8; 32], LedgerError>(
                LedgerError::NotFound,
            ),
    {
        match self.ops_keys.get(k_root_pub) {
            Some(k) => Ok(*k),
            None => Err(LedgerError::NotFound),
        }
    }

    pub fn is_revoked(&self, ops_pub: &[u8; 32]) -> (b: bool)
        requires
            self.wf(),
        ensures
            b == self.revoked_ops().contains(ops_pub@),
    {
        self.revoked_ops.contains_key(ops_pub)
    }

    pub fn register_tunnel(&mut self, consent: TunnelConsent) -> (r: Result<(), LedgerError>)
        requires
            old(self).wf(),
        ensures
            final(self).wf(),
            register_tunnel_post(*old(self), consent, r, *final(self)),
            old(self).revoked_ops().subset_of(final(self).revoked_ops()),
            old(self).revoked_tunnels().subset_of(final(self).revoked_tunnels()),
    {
        let ch = tunnel_consent_hash(&consent.party_a, &consent.party_b);
        let sig_a = match signature_from_slice(consent.sig_a.as_slice()) {
            Some(s) => s,
            None => {
                return Err(LedgerError::InvalidSignature);
            },
        };
        let sig_b = match signature_from_slice(consent.sig_b.as_slice()) {
            Some(s) => s,
            None => {
                return Err(LedgerError::InvalidSignature);
            },
        };
        if !PublicKey(consent.party_a).verify(ch.as_slice(), &sig_a) {
            return Err(LedgerError::InvalidSignature);
        }
        if !PublicKey(consent.party_b).verify(ch.as_slice(), &sig_b) {
            return Err(LedgerError::InvalidSignature);
        }
        self.tunnels.insert(ch, consent);
        Ok(())
    }

    pub fn query_tunnel(&self, a: &[u8; 32], b: &[u8; 32]) -> (t: TunnelState)
        requires
            self.wf(),
        ensures
            t == tunnel_state_of(*self, a@, b@),
    {
        let ch = tunnel_consent_hash(a, b);
        if self.revoked_tunnels.contains_key(&ch) {
            TunnelState::Revoked
        } else if self.tunnels.contains_key(&ch) {
            TunnelState::Active
        } else {
            TunnelState::Unknown
        }
    }

    pub fn revoke_tunnel(&mut self, ops_pub: &[u8; 32], ops_sig: &[u8; 64], partner_ops_pub: &[u8; 32]) -> (r: Result<(), LedgerError>)
        requires
            old(self).wf(),
        ensures
            final(self).wf(),
            revoke_tunnel_post(*old(self), *ops_pub, *ops_sig, *partner_ops_pub, r, *final(self)),
            old(self).revoked_ops().subset_of(final(self).revoked_ops()),
            old(self).revoked_tunnels().subset_of(final(self).revoked_tunnels()),
    {
        let ch = tunnel_consent_hash(ops_pub, partner_ops_pub);
        if !self.tunnels.contains_key(&ch) {
            return Err(LedgerError::NotFound);
        }
        if !PublicKey(*ops_pub).verify(ch.as_slice(), ops_sig) {
            return Err(LedgerError::InvalidSignature);
        }
        self.revoked_tunnels.insert(ch, ());
        Ok(())
    }
}

/// A successful registration makes the record's ops key the current one for
/// its root, and leaves that key unrevoked unless it was already revoked.
pub proof fn lemma_registration_sets_current_key(
    pre: LedgerState,
    record: LedgerIdentityRecord,
    root_sig: [u8; 64],
    post: LedgerState,
)
    requires
        register_identity_post(pre, record, root_sig, Ok(()), post),
    ensures
        post.ops_keys().contains_key(record.k_root_pub@),
        post.ops_keys()[record.k_root_pub@] == record.k_ops_pub,
        post.identities()[record.k_root_pub@] == record,
        post.revoked_ops() == pre.revoked_ops(),
{
}

/// A successful rotation revokes the old key and makes the new key current
/// for the root that held the old one.
pub proof fn lemma_rotation_revokes_old_key(
    pre: LedgerState,
    old: [u8; 32],
    new: [u8; 32],
    nonce: u64,
    root_sig: [u8; 64],
    post: LedgerState,
)
    requires
        rotate_key_post(pre, old, new, nonce, root_sig, Ok(()), post),
    ensures
        post.revoked_ops().contains(old@),
        exists|root: Seq<u8>|
            #[trigger] pre.ops_keys().contains_key(root) && pre.ops_keys()[root]@ == old@
                && post.ops_keys()[root] == new,
{
    let root = choose|root: [u8; 32]| #[trigger] rotated_by(pre, root, old, new, nonce, root_sig, Ok(()), post);
    assert(post.ops_keys()[root@] == new);
}

/// The tunnel state of a pair does not depend on the order of the parties.
pub proof fn lemma_tunnel_state_symmetric(state: LedgerState, a: [u8; 32], b: [u8; 32])
    ensures
        tunnel_state_of(state, a@, b@) == tunnel_state_of(state, b@, a@),
{
    lemma_consent_hash_symmetric(a@, b@);
}

/// After either party revokes a tunnel, the pair reads as revoked in both
/// orders, whatever else the ledger holds.
pub proof fn lemma_revoked_tunnel_reads_revoked(
    pre: LedgerState,
    ops: [u8; 32],
    sig: [u8; 64],
    partner: [u8; 32],
    post: LedgerState,
)
    requires
        revoke_tunnel_post(pre, ops, sig, partner, Ok(()), post),
    ensures
        tunnel_state_of(post, ops@, partner@) == TunnelState::Revoked,
        tunnel_state_of(post, partner@, ops@) == TunnelState::Revoked,
{
    lemma_consent_hash_symmetric(ops@, partner@);
}

/// A registered tunnel reads as active in both orders unless it had already
/// been revoked.
pub proof fn lemma_registered_tunnel_reads_active(
    pre: LedgerState,
    consent: TunnelConsent,
    post: LedgerState,
)
    requires
        register_tunnel_post(pre, consent, Ok(()), post),
        !pre.revoked_tunnels().contains(consent_hash_of(consent.party_a@, consent.party_b@)),
    ensures
        tunnel_state_of(post, consent.party_a@, consent.party_b@) == TunnelState::Active,
        tunnel_state_of(post, consent.party_b@, consent.party_a@) == TunnelState::Active,
{
    lemma_consent_hash_symmetric(consent.party_a@, consent.party_b@);
}

/// One ledger operation takes `pre` to `post`: a registration, rotation,
/// revocation, tunnel registration or tunnel revocation, with any arguments
/// and either outcome.
pub open spec fn ledger_step(pre: LedgerState, post: LedgerState) -> bool {
    ||| exists|record: LedgerIdentityRecord, sig: [u8; 64], r: Result<(), LedgerError>|
        #[trigger] register_identity_post(pre, record, sig, r, post)
    ||| exists|old: [u8; 32], new: [u8; 32], nonce: u64, sig: [u8; 64], r: Result<(), LedgerError>|
        #[trigger] rotate_key_post(pre, old, new, nonce, sig, r, post)
    ||| exists|ops: [u8; 32], sig: [u8; 64], r: Result<(), LedgerError>| #[trigger] revoke_post(pre, ops, sig, r, post)
    ||| exists|consent: TunnelConsent, r: Result<(), LedgerError>| #[trigger] register_tunnel_post(pre, consent, r, post)
    ||| exists|ops: [u8; 32], sig: [u8; 64], partner: [u8; 32], r: Result<(), LedgerError>|
        #[trigger] revoke_tunnel_post(pre, ops, sig, partner, r, post)
}

/// No ledger operation un-revokes a tunnel.
proof fn lemma_step_keeps_revoked_tunnels(pre: LedgerState, post: LedgerState)
    requires
        ledger_step(pre, post),
    ensures
        pre.revoked_tunnels().subset_of(post.revoked_tunnels()),
{
    if exists|old: [u8; 32], new: [u8; 32], nonce: u64, sig: [u8; 64], r: Result<(), LedgerError>|
        #[trigger] rotate_key_post(pre, old, new, nonce, sig, r, post) {
        let (old, new, nonce, sig, r) = choose|old: [u8; 32], new: [u8; 32], nonce: u64, sig: [u8; 64], r: Result<(), LedgerError>|
            #[trigger] rotate_key_post(pre, old, new, nonce, sig, r, post);
        if has_owner(pre.ops_keys(), old@) {
            let root = choose|root: [u8; 32]| #[trigger] rotated_by(pre, root, old, new, nonce, sig, r, post);
        }
    }
    if exists|ops: [u8; 32], sig: [u8; 64], r: Result<(), LedgerError>| #[trigger] revoke_post(pre, ops, sig, r, post) {
        let (ops, sig, r) = choose|ops: [u8; 32], sig: [u8; 64], r: Result<(), LedgerError>|
            #[trigger] revoke_post(pre, ops, sig, r, post);
        if has_owner(pre.ops_keys(), ops@) {
            let root = choose|root: [u8; 32]| #[trigger] revoked_by(pre, root, ops, sig, r, post);
        }
    }
}

proof fn lemma_revoked_tunnels_grow(states: Seq<LedgerState>, i: int)
    requires
        0 <= i < states.len(),
        forall|k: int| #![trigger states[k]] 0 <= k < states.len() - 1 ==> ledger_step(states[k], states[k + 1]),
    ensures
        states[0].revoked_tunnels().subset_of(states[i].revoked_tunnels()),
    decreases i,
{
    if i > 0 {
        lemma_revoked_tunnels_grow(states, i - 1);
        assert(ledger_step(states[i - 1], states[i - 1 + 1]));
        lemma_step_keeps_revoked_tunnels(states[i - 1], states[i]);
    }
}

/// A fresh ledger knows no tunnel.
pub proof fn lemma_fresh_ledger_knows_no_tunnel(state: LedgerState, a: [u8; 32], b: [u8; 32])
    requires
        state.tunnels() == Map::<Seq<u8>, TunnelConsent>::empty(),
        state.revoked_tunnels() == Set::<Seq<u8>>::empty(),
    ensures
        tunnel_state_of(state, a@, b@) == TunnelState::Unknown,
{
}

/// Tunnel laws over a run of ledger operations `states[0] → states[1] → …`:
/// in every state the tunnel query does not depend on the order of the
/// pair, and once the pair reads as revoked it reads as revoked, in both
/// orders, in every later state.
pub proof fn lemma_tunnel_laws(states: Seq<LedgerState>, a: [u8; 32], b: [u8; 32])
    requires
        forall|k: int| #![trigger states[k]] 0 <= k < states.len() - 1 ==> ledger_step(states[k], states[k + 1]),
    ensures
        forall|i: int|
            0 <= i < states.len() ==> tunnel_state_of(#[trigger] states[i], a@, b@) == tunnel_state_of(states[i], b@, a@),
        states.len() > 0 && tunnel_state_of(states[0], a@, b@) == TunnelState::Revoked ==> forall|i: int|
            0 <= i < states.len() ==> tunnel_state_of(#[trigger] states[i], a@, b@) == TunnelState::Revoked
                && tunnel_state_of(states[i], b@, a@) == TunnelState::Revoked,
{
    lemma_consent_hash_symmetric(a@, b@);
    if states.len() > 0 && tunnel_state_of(states[0], a@, b@) == TunnelState::Revoked {
        assert forall|i: int| 0 <= i < states.len() implies tunnel_state_of(#[trigger] states[i], a@, b@)
            == TunnelState::Revoked && tunnel_state_of(states[i], b@, a@) == TunnelState::Revoked by {
            lemma_revoked_tunnels_grow(states, i);
            assert(states[0].revoked_tunnels().contains(consent_hash_of(a@, b@)));
        }
    }
}

} // verus!
