//! Cosmos SDK module adapter for the state layer.
use crate::ledger::{
    register_identity_post, register_tunnel_post, revoke_post, revoke_tunnel_post,
    rotate_key_post, tunnel_state_of, LedgerError, LedgerIdentityRecord, LedgerState,
    TunnelConsent, TunnelState,
};
use vstd::prelude::*;

verus! {

/// Cosmos SDK module adapter for the SCP state layer.
///
/// An in-memory ledger with full signature verification.
pub struct CosmosLedger {
    state: LedgerState,
}

impl View for CosmosLedger {
    type V = LedgerState;

    closed spec fn view(&self) -> LedgerState {
        self.state
    }
}

impl CosmosLedger {
    /// The ledger's maps are well formed.
    pub closed spec fn wf(&self) -> bool {
        self.state.wf()
    }

    /// An empty ledger.
    pub fn new() -> (l: Self)
        ensures
            l.wf(),
            l@.identities() == Map::<Seq<u8>, LedgerIdentityRecord>::empty(),
            l@.ops_keys() == Map::<Seq<u8>, [u8; 32]>::empty(),
            l@.revoked_ops() == Set::<Seq<u8>>::empty(),
            l@.tunnels() == Map::<Seq<u8>, TunnelConsent>::empty(),
            l@.revoked_tunnels() == Set::<Seq<u8>>::empty(),
    {
        Self { state: LedgerState::new() }
    }

    /// Register a new sovereign identity on the ledger.
    ///
    /// `root_sig` must be an Ed25519 signature by `record.k_root_pub` over
    /// `BLAKE3(k_root_pub ‖ k_ops_pub ‖ recovery_policy_hash)`.
    pub fn register_identity(&mut self, record: &LedgerIdentityRecord, root_sig: &[u8; 64]) -> (r: Result<(), LedgerError>)
        requires
            old(self).wf(),
        ensures
            final(self).wf(),
            register_identity_post(old(self)@, *record, *root_sig, r, final(self)@),
            old(self)@.revoked_ops().subset_of(final(self)@.revoked_ops()),
    {
        self.state.register_identity(record, root_sig)
    }

    /// Rotate the operational key for an identity.
    ///
    /// `root_sig` must cover `old_ops_pub ‖ new_ops_pub ‖ nonce` — the same
    /// message format used by `RotationEvent::sign`.
    pub fn rotate_key(&mut self, old_ops_pub: &[u8; 32], new_ops_pub: &[u8; 32], nonce: u64, root_sig: &[u8; 64]) -> (r: Result<(), LedgerError>)
        requires
            old(self).wf(),
        ensures
            final(self).wf(),
            rotate_key_post(old(self)@, *old_ops_pub, *new_ops_pub, nonce, *root_sig, r, final(self)@),
            old(self)@.revoked_ops().subset_of(final(self)@.revoked_ops()),
    {
        self.state.rotate_key(old_ops_pub, new_ops_pub, nonce, root_sig)
    }

    /// Revoke an operational key. The root key signs over the revoked ops key.
    pub fn revoke(&mut self, ops_pub: &[u8; 32], root_sig: &[u8; 64]) -> (r: Result<(), LedgerError>)
        requires
            old(self).wf(),
        ensures
            final(self).wf(),
            revoke_post(old(self)@, *ops_pub, *root_sig, r, final(self)@),
            old(self)@.revoked_ops().subset_of(final(self)@.revoked_ops()),
    {
        self.state.revoke(ops_pub, root_sig)
    }

    /// Query the current operational public key for a root identity.
    pub fn query_current_ops_key(&self, k_root_pub: &[u8; 32]) -> (r: Result<[u8; 32], LedgerError>)
        requires
            self.wf(),
        ensures
            self@.ops_keys().contains_key(k_root_pub@) ==> r == Ok::<[u8; 32], LedgerError>(
                self@.ops_keys()[k_root_pub@],
            ),
            !self@.ops_keys().contains_key(k_root_pub@) ==> r == Err::<[u8; 32], LedgerError>(
                LedgerError::NotFound,
            ),
    {
        self.state.query_current_ops_key(k_root_pub)
    }

    /// Returns true if an operational key has been revoked.
    pub fn is_revoked(&self, ops_pub: &[u8; 32]) -> (b: bool)
        requires
            self.wf(),
        ensures
            b == self@.revoked_ops().contains(ops_pub@),
    {
        self.state.is_revoked(ops_pub)
    }

    /// Register bilateral tunnel consent.
    ///
    /// Both signatures must cover `tunnel_consent_hash(party_a, party_b)`.
    pub fn register_tunnel(&mut self, consent: TunnelConsent) -> (r: Result<(), LedgerError>)
        requires
            old(self).wf(),
        ensures
            final(self).wf(),
            register_tunnel_post(old(self)@, consent, r, final(self)@),
            old(self)@.revoked_tunnels().subset_of(final(self)@.revoked_tunnels()),
    {
        self.state.register_tunnel(consent)
    }

    /// Query tunnel state between two operational identities.
    pub fn query_tunnel(&self, a: &[u8; 32], b: &[u8; 32]) -> (t: TunnelState)
        requires
            self.wf(),
        ensures
            t == tunnel_state_of(self@, a@, b@),
    {
        self.state.query_tunnel(a, b)
    }

    /// Revoke tunnel consent. Either party may revoke unilaterally:
    /// `ops_pub` must be one of the two parties and `ops_sig` must cover the
    /// consent hash.
    pub fn revoke_tunnel(&mut self, ops_pub: &[u8; 32], ops_sig: &[u8; 64], partner_ops_pub: &[u8; 32]) -> (r: Result<(), LedgerError>)
        requires
            old(self).wf(),
        ensures
            final(self).wf(),
            revoke_tunnel_post(old(self)@, *ops_pub, *ops_sig, *partner_ops_pub, r, final(self)@),
            old(self)@.revoked_tunnels().subset_of(final(self)@.revoked_tunnels()),
    {
        self.state.revoke_tunnel(ops_pub, ops_sig, partner_ops_pub)
    }
}

impl Default for CosmosLedger {
    fn default() -> (l: Self)
        ensures
            l.wf(),
            l@.identities() == Map::<Seq<u8>, LedgerIdentityRecord>::empty(),
            l@.ops_keys() == Map::<Seq<u8>, [u8; 32]>::empty(),
            l@.revoked_ops() == Set::<Seq<u8>>::empty(),
            l@.tunnels() == Map::<Seq<u8>, TunnelConsent>::empty(),
            l@.revoked_tunnels() == Set::<Seq<u8>>::empty(),
    {
        Self::new()
    }
}

} // verus!
