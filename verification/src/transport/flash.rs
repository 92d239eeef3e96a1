//! Flash sessions: recipient state, the sender's key derivation and
//! encryption, and dissolution.
use crate::bytes::{append_bytes, append_u64_le, u64_le};
use crate::crypto::keys::{
    chacha_max_plaintext, hash, os_random_bytes, spec_blake3_hash, spec_chacha_open,
    spec_ed25519_verify, spec_x25519, spec_x25519_public, x25519_dh, x25519_generate_keypair,
    PublicKey, SessionKey as CryptoSessionKey,
};
use crate::relay::perturbation::PerturbationEngine;
use crate::transport::corridor::{receive_key, receive_outcome, BurstEnvelope};
use crate::transport::session::{FreshnessNonce, RouteId, SessionKey};
use crate::transport::state::StateProvider;
use crate::transport::transcript::{
    session_key_of, transcript_v1_hash, FlashTranscript, FlashTranscriptV2, TransportKeyMaterial,
};
use crate::vitality::{spec_is_open, spec_vitality_byte, vitality_to_byte, VitalityEvidenceStore, VitalityState};
use crate::wire_format::signing::{handshake_sig_bytes, handshake_sig_message};
use vstd::prelude::*;

verus! {

/// The five-step flash session lifecycle.
#[derive(Debug, Clone, PartialEq, Eq, Structural)]
pub enum FlashSessionLifecycle {
    StateRetrieval,
    EphemeralGen,
    TransmissionBurst,
    WarmCache { ttl: u64 },
    Dissolution,
}

/// An in-progress flash transport session.
pub struct FlashSession {
    pub route: RouteId,
    pub session_key: SessionKey,
    pub nonce: FreshnessNonce,
    pub vitality: VitalityState,
    pub lifecycle: FlashSessionLifecycle,
}

/// Recipient's published X25519 handshake ephemeral key for bilateral DH,
/// signed by the recipient's ops key.
pub struct PublishedHandshakeKey {
    /// X25519 public key — input to sender-side DH.
    pub pub_key: [u8; 32],
    /// Ed25519 sig by ops key over `handshake_sig_message(pub_key, expires_at)`.
    pub sig: [u8; 64],
    /// Unix epoch seconds; key is invalid after this time.
    pub expires_at: u64,
}

/// Proof that a flash session was explicitly dissolved.
#[must_use]
pub struct DissolvedProof {
    pub route: RouteId,
}

/// Minimal recipient state retrieved from the state layer.
pub struct RecipientState {
    pub ops_pub: [u8; 32],
    pub vitality: VitalityState,
    pub routing_hints: Vec<String>,
    /// Optional bilateral DH handshake key; absence falls back to v1.
    pub handshake_ephemeral: Option<PublishedHandshakeKey>,
}

/// Warm session cache entry (lives 5–15 minutes post-burst).
pub struct WarmCacheEntry {
    pub route: RouteId,
    pub session_key: SessionKey,
    pub expires_in: std::time::Duration,
}

#[derive(Debug, Clone, PartialEq, Eq, Structural)]
pub enum TransportError {
    /// Recipient vitality too low.
    VitalityInsufficient(VitalityState),
    /// Recipient operational key is revoked.
    RecipientRevoked,
    /// Route generation failed.
    RoutingFailed,
    /// Burst transmission failed.
    TransmissionFailed,
    /// Handshake ephemeral key failed signature verification.
    HandshakeKeyInvalid,
    /// Handshake ephemeral key has expired.
    HandshakeKeyExpired,
    /// Decryption failed: authentication tag mismatch or wrong session key.
    DecryptionFailed,
    /// The v1 path (random seed) cannot be decrypted by a recipient.
    V1PathNotReceivable,
}

/// Everything the sender side produces before handing a burst to the relay
/// mesh: the session, the ciphertext to transmit as the engine normalized
/// it (padded, unless the engine is a passthrough one), and on the v2 path
/// the envelope the recipient needs.
pub struct PreparedBurst {
    pub session: FlashSession,
    pub normalized: Vec<u8>,
    pub envelope: Option<BurstEnvelope>,
}

/// A copy of a vitality state.
pub fn copy_vitality(v: &VitalityState) -> (r: VitalityState)
    ensures
        r == *v,
{
    match v {
        VitalityState::Active => VitalityState::Active,
        VitalityState::Warm => VitalityState::Warm,
        VitalityState::Dormant => VitalityState::Dormant,
        VitalityState::Suspended => VitalityState::Suspended,
        VitalityState::Severed => VitalityState::Severed,
        VitalityState::Burned => VitalityState::Burned,
    }
}

/// Input of the recipient state commitment (v0 encoding):
///   ops_pub(32) ‖ vitality_byte(1) ‖ ephemeral_present(1) ‖
///   [if Some: ephemeral.pub_key(32) ‖ ephemeral.expires_at(8, LE)]
pub open spec fn commitment_input(
    ops_pub: Seq<u8>,
    vitality: VitalityState,
    ephemeral: Option<PublishedHandshakeKey>,
) -> Seq<u8> {
    ops_pub + seq![spec_vitality_byte(vitality), if ephemeral is Some { 1u8 } else { 0u8 }]
        + match ephemeral {
        Some(k) => k.pub_key@ + u64_le(k.expires_at),
        None => Seq::empty(),
    }
}

/// The protocol-stable commitment over a recipient state.
pub open spec fn state_commitment(
    ops_pub: Seq<u8>,
    vitality: VitalityState,
    ephemeral: Option<PublishedHandshakeKey>,
) -> Seq<u8> {
    spec_blake3_hash(commitment_input(ops_pub, vitality, ephemeral))
}

/// Why the sender refuses to open a session for `state` at time `now`, if
/// it does: a closed corridor, then an expired handshake key, then a
/// handshake key whose signature does not verify under the ops key.
pub open spec fn send_refusal(state: RecipientState, now: u64) -> Option<TransportError> {
    if !spec_is_open(state.vitality) {
        Some(TransportError::VitalityInsufficient(state.vitality))
    } else {
        match state.handshake_ephemeral {
            Some(hk) => if hk.expires_at <= now {
                Some(TransportError::HandshakeKeyExpired)
            } else if !spec_ed25519_verify(
                state.ops_pub@,
                handshake_sig_bytes(hk.pub_key@, hk.expires_at),
                hk.sig@,
            ) {
                Some(TransportError::HandshakeKeyInvalid)
            } else {
                None
            },
            None => None,
        }
    }
}

/// The v2 sender core for a recipient with operational key `ops_pub`,
/// vitality `vitality` and handshake key `hs_pub`: a fresh sender X25519
/// keypair, DH with the handshake key, the v2 transcript over route, nonce,
/// recipient, vitality and sender key, the transport session key, and the
/// payload encrypted under it. Returns the session key and the envelope
/// the recipient needs; the envelope opens, under any X25519 secret whose
/// public key is `hs_pub`, to the payload.
pub fn seal_v2(
    ops_pub: &[u8; 32],
    vitality: &VitalityState,
    hs_pub: &[u8; 32],
    route: [u8; 16],
    nonce: u64,
    payload: &[u8],
) -> (out: ([u8; 32], BurstEnvelope))
    requires
        payload@.len() < chacha_max_plaintext(),
    ensures
        out.1.route_id.0 == route,
        out.1.nonce.0 == nonce,
        out.1.vitality_snapshot == *vitality,
        out.1.recipient_ops_pub == *ops_pub,
        out.1.protocol_version == 2,
        out.1.ciphertext@.len() == payload@.len() + 16,
        forall|e: Seq<u8>|
            e.len() == 32 && spec_x25519_public(e) == hs_pub@ ==> {
                &&& #[trigger] receive_key(out.1, e) == out.0@
                &&& receive_outcome(out.1, e) == Ok::<Seq<u8>, TransportError>(payload@)
            },
{
    let (sender_sk, sender_pub) = x25519_generate_keypair();
    let ghost sender_secret = sender_sk@;
    let seed = x25519_dh(&sender_sk, hs_pub);
    let transcript = FlashTranscriptV2 {
        route_id: RouteId(route),
        nonce: FreshnessNonce(nonce),
        recipient_ops_pub: *ops_pub,
        vitality_snapshot: copy_vitality(vitality),
        protocol_version: 2,
        sender_ephemeral_pub: sender_pub,
    };
    let transcript_hash = transcript.hash();
    let key_material = TransportKeyMaterial { ephemeral_seed: seed, transcript_hash, recipient_binding: *ops_pub };
    let key = key_material.derive_session_key();
    let crypto_sk = CryptoSessionKey(key);
    let (ciphertext, enc_nonce) = crypto_sk.encrypt(payload);
    let env = BurstEnvelope {
        sender_ephemeral_pub: sender_pub,
        route_id: RouteId(route),
        nonce: FreshnessNonce(nonce),
        vitality_snapshot: copy_vitality(vitality),
        ciphertext,
        enc_nonce,
        recipient_ops_pub: *ops_pub,
        protocol_version: 2,
    };
    proof {
        assert forall|e: Seq<u8>| e.len() == 32 && spec_x25519_public(e) == hs_pub@ implies {
            &&& #[trigger] receive_key(env, e) == key@
            &&& receive_outcome(env, e) == Ok::<Seq<u8>, TransportError>(payload@)
        } by {
            assert(spec_x25519(e, env.sender_ephemeral_pub@) == spec_x25519(sender_secret, spec_x25519_public(e)));
        }
    }
    (key, env)
}

impl RecipientState {
    /// Returns a protocol-stable BLAKE3 commitment over the canonical state fields.
    pub fn commitment(&self) -> (c: [u8; 32])
        ensures
            c@ == state_commitment(self.ops_pub@, self.vitality, self.handshake_ephemeral),
    {
        let mut data: Vec<u8> = Vec::new();
        append_bytes(&mut data, self.ops_pub.as_slice());
        data.push(vitality_to_byte(&self.vitality));
        match &self.handshake_ephemeral {
            Some(eph) => {
                data.push(1u8);
                append_bytes(&mut data, eph.pub_key.as_slice());
                append_u64_le(&mut data, eph.expires_at);
            },
            None => {
                data.push(0u8);
            },
        }
        assert(data@ =~= commitment_input(self.ops_pub@, self.vitality, self.handshake_ephemeral));
        hash(data.as_slice())
    }
}

/// A send to a suspended, severed or burned corridor is refused as
/// insufficient vitality, whatever the handshake key and the time; a send to
/// an active, warm or dormant corridor without a handshake key is not
/// refused.
pub proof fn lemma_closed_corridors_refuse(state: RecipientState, now: u64)
    ensures
        (state.vitality is Suspended || state.vitality is Severed || state.vitality is Burned) ==> send_refusal(
            state,
            now,
        ) == Some(TransportError::VitalityInsufficient(state.vitality)),
        (state.vitality is Active || state.vitality is Warm || state.vitality is Dormant)
            && state.handshake_ephemeral is None ==> send_refusal(state, now) is None,
{
}

impl FlashSession {
    /// Step 1 at an explicit time: retrieve recipient state from the state
    /// layer. Rejects revoked operational keys; otherwise fetches the
    /// provider's handshake ephemeral valid at `now`. Vitality defaults to
    /// Active and routing hints to empty.
    pub fn retrieve_state_at<P: StateProvider>(
        provider: &P,
        recipient_ops_pub: &[u8; 32],
        now: u64,
    ) -> (r: Result<RecipientState, TransportError>)
        ensures
            provider.spec_is_revoked(recipient_ops_pub@) ==> r == Err::<
                RecipientState,
                TransportError,
            >(TransportError::RecipientRevoked),
            !provider.spec_is_revoked(recipient_ops_pub@) ==> (r matches Ok(s) && s.ops_pub
                == *recipient_ops_pub && s.vitality == VitalityState::Active
                && s.routing_hints@.len() == 0 && s.handshake_ephemeral
                == provider.spec_handshake_ephemeral(recipient_ops_pub@, now)),
    {
        if provider.is_revoked(recipient_ops_pub) {
            return Err(TransportError::RecipientRevoked);
        }
        Ok(
            RecipientState {
                ops_pub: *recipient_ops_pub,
                vitality: VitalityState::Active,
                routing_hints: Vec::new(),
                handshake_ephemeral: provider.get_handshake_ephemeral(recipient_ops_pub, now),
            },
        )
    }

    /// Simulator-runtime step 1 at simulated time `now`, with the vitality
    /// taken from the evidence store for the relationship `consent_hash`:
    /// refused for a revoked recipient; a relationship with no evidence is
    /// `Suspended` (failing closed); a known one gets `scored`, the state
    /// the vitality formula assigns to its elapsed time. The handshake
    /// ephemeral is the one valid at `now`.
    pub fn retrieve_state_sim_at<P: StateProvider>(
        provider: &P,
        recipient_ops_pub: &[u8; 32],
        store: &VitalityEvidenceStore,
        consent_hash: &[u8; 32],
        now: u64,
        scored: VitalityState,
    ) -> (r: Result<RecipientState, TransportError>)
        requires
            store.wf(),
        ensures
            provider.spec_is_revoked(recipient_ops_pub@) ==> r == Err::<
                RecipientState,
                TransportError,
            >(TransportError::RecipientRevoked),
            !provider.spec_is_revoked(recipient_ops_pub@) ==> (r matches Ok(s) && s.ops_pub
                == *recipient_ops_pub && s.vitality == (if store@.dom().contains(consent_hash@) {
                scored
            } else {
                VitalityState::Suspended
            }) && s.routing_hints@.len() == 0 && s.handshake_ephemeral
                == provider.spec_handshake_ephemeral(recipient_ops_pub@, now)),
    {
        if provider.is_revoked(recipient_ops_pub) {
            return Err(TransportError::RecipientRevoked);
        }
        let vitality = match store.elapsed_or_suspended(consent_hash, now) {
            Err(closed) => closed,
            Ok(_) => scored,
        };
        Ok(
            RecipientState {
                ops_pub: *recipient_ops_pub,
                vitality,
                routing_hints: Vec::new(),
                handshake_ephemeral: provider.get_handshake_ephemeral(recipient_ops_pub, now),
            },
        )
    }

    /// Step 1 at the current wall-clock time.
    pub fn retrieve_state<P: StateProvider>(provider: &P, recipient_ops_pub: &[u8; 32]) -> (r:
        Result<RecipientState, TransportError>)
        ensures
            provider.spec_is_revoked(recipient_ops_pub@) ==> r == Err::<
                RecipientState,
                TransportError,
            >(TransportError::RecipientRevoked),
            !provider.spec_is_revoked(recipient_ops_pub@) ==> (r matches Ok(s) && s.ops_pub
                == *recipient_ops_pub && s.vitality == VitalityState::Active
                && s.routing_hints@.len() == 0 && exists|now: u64|
                s.handshake_ephemeral == provider.spec_handshake_ephemeral(
                    recipient_ops_pub@,
                    now,
                )),
    {
        let now = crate::clock::unix_time_secs();
        Self::retrieve_state_at(provider, recipient_ops_pub, now)
    }

    /// Why a send to `state` at time `now` is refused, if it is: a closed
    /// corridor, then an expired handshake key, then one the recipient's ops
    /// key did not sign. Any payload is refused alike; nothing is sealed.
    pub fn send_refusal_at(state: &RecipientState, now: u64) -> (r: Option<TransportError>)
        ensures
            r == send_refusal(*state, now),
            (state.vitality is Suspended || state.vitality is Severed || state.vitality is Burned) ==> r
                == Some(TransportError::VitalityInsufficient(state.vitality)),
    {
        if !state.vitality.is_open() {
            return Some(TransportError::VitalityInsufficient(copy_vitality(&state.vitality)));
        }
        match &state.handshake_ephemeral {
            Some(hk) => {
                if hk.expires_at <= now {
                    return Some(TransportError::HandshakeKeyExpired);
                }
                let sig_msg = handshake_sig_message(&hk.pub_key, hk.expires_at);
                if !PublicKey(state.ops_pub).verify(sig_msg.as_slice(), &hk.sig) {
                    return Some(TransportError::HandshakeKeyInvalid);
                }
                None
            },
            None => None,
        }
    }

    /// Steps 2–3 at time `now`: derive the session key, encrypt and
    /// normalize the payload.
    ///
    /// v2 (bilateral DH, when the state carries a handshake ephemeral): the
    /// ephemeral must be unexpired at `now` and signed by the recipient's ops
    /// key; a fresh sender X25519 keypair is agreed with it, and the session
    /// key is derived from the DH output, the v2 transcript hash and the
    /// recipient binding. The returned envelope opens, under any X25519
    /// secret whose public key is the published ephemeral, to the payload.
    ///
    /// v1 (no handshake ephemeral): the session key comes from a random seed
    /// and the v1 transcript hash; no envelope is produced.
    ///
    /// A refused send takes any payload; the cipher's length bound applies
    /// only to a payload that is sealed.
    pub fn prepare_send_at(
        state: RecipientState,
        payload: &[u8],
        engine: &PerturbationEngine,
        now: u64,
    ) -> (r: Result<PreparedBurst, TransportError>)
        requires
            send_refusal(state, now) is None ==> payload@.len() < chacha_max_plaintext(),
            send_refusal(state, now) is None ==> payload@.len() + 271 <= usize::MAX,
        ensures
            match r {
                Err(e) => send_refusal(state, now) == Some(e),
                Ok(b) => {
                    &&& send_refusal(state, now) is None
                    &&& b.session.vitality == state.vitality
                    &&& b.session.lifecycle == (FlashSessionLifecycle::WarmCache { ttl: 600 })
                    &&& match state.handshake_ephemeral {
                        Some(hk) => b.envelope matches Some(env) && {
                            &&& env.protocol_version == 2
                            &&& env.recipient_ops_pub == state.ops_pub
                            &&& env.route_id == b.session.route
                            &&& env.nonce == b.session.nonce
                            &&& env.vitality_snapshot == state.vitality
                            &&& b.normalized@ == engine.spec_output(env.ciphertext@)
                            &&& forall|e: Seq<u8>|
                                e.len() == 32 && spec_x25519_public(e) == hk.pub_key@ ==> {
                                    &&& #[trigger] receive_key(env, e) == b.session.session_key.0@
                                    &&& receive_outcome(env, e) == Ok::<
                                        Seq<u8>,
                                        TransportError,
                                    >(payload@)
                                }
                        },
                        None => b.envelope is None && exists|
                            seed: Seq<u8>,
                            enc_nonce: Seq<u8>,
                            ct: Seq<u8>,
                        |
                            {
                                &&& b.session.session_key.0@ == session_key_of(
                                    seed,
                                    transcript_v1_hash(
                                        b.session.route.0@,
                                        b.session.nonce.0,
                                        state.ops_pub@,
                                        state.vitality,
                                        1,
                                    ),
                                    state.ops_pub@,
                                )
                                &&& spec_chacha_open(b.session.session_key.0@, enc_nonce, ct)
                                    == Some(payload@)
                                &&& b.normalized@ == engine.spec_output(ct)
                            },
                    }
                },
            },
    {
        if !state.vitality.is_open() {
            return Err(TransportError::VitalityInsufficient(copy_vitality(&state.vitality)));
        }
        let route = RouteId::generate();
        let nonce = FreshnessNonce::generate();
        match &state.handshake_ephemeral {
            Some(hk) => {
                if hk.expires_at <= now {
                    return Err(TransportError::HandshakeKeyExpired);
                }
                let sig_msg = handshake_sig_message(&hk.pub_key, hk.expires_at);
                if !PublicKey(state.ops_pub).verify(sig_msg.as_slice(), &hk.sig) {
                    return Err(TransportError::HandshakeKeyInvalid);
                }
                let (key, env) = seal_v2(&state.ops_pub, &state.vitality, &hk.pub_key, route.0, nonce.0, payload);
                let normalized_ct = engine.normalize_payload(env.ciphertext.as_slice());
                let session = FlashSession {
                    route,
                    session_key: SessionKey(key),
                    nonce,
                    vitality: state.vitality,
                    lifecycle: FlashSessionLifecycle::WarmCache { ttl: 600 },
                };
                Ok(PreparedBurst { session, normalized: normalized_ct, envelope: Some(env) })
            },
            None => {
                let seed: [u8; 32] = os_random_bytes();
                let transcript = FlashTranscript {
                    route_id: RouteId(route.0),
                    nonce: FreshnessNonce(nonce.0),
                    recipient_ops_pub: state.ops_pub,
                    vitality_snapshot: copy_vitality(&state.vitality),
                    protocol_version: 1,
                };
                let transcript_hash = transcript.hash();
                let key_material = TransportKeyMaterial {
                    ephemeral_seed: seed,
                    transcript_hash,
                    recipient_binding: state.ops_pub,
                };
                let key = key_material.derive_session_key();
                let crypto_sk = CryptoSessionKey(key);
                let (ciphertext, enc_nonce) = crypto_sk.encrypt(payload);
                let normalized_ct = engine.normalize_payload(ciphertext.as_slice());
                let session = FlashSession {
                    route,
                    session_key: SessionKey(key),
                    nonce,
                    vitality: state.vitality,
                    lifecycle: FlashSessionLifecycle::WarmCache { ttl: 600 },
                };
                let r = PreparedBurst { session, normalized: normalized_ct, envelope: None };
                assert(r.session.session_key.0@ == session_key_of(
                    seed@,
                    transcript_v1_hash(r.session.route.0@, r.session.nonce.0, state.ops_pub@, state.vitality, 1),
                    state.ops_pub@,
                ));
                assert(spec_chacha_open(r.session.session_key.0@, enc_nonce@, ciphertext@) == Some(payload@));
                assert(r.normalized@ == engine.spec_output(ciphertext@));
                Ok(r)
            },
        }
    }

    /// Step 5: destroy all transport state. Returns a DissolvedProof token
    /// carrying the dissolved session's route.
    pub fn dissolve(self) -> (p: DissolvedProof)
        ensures
            p.route == self.route,
    {
        DissolvedProof { route: self.route }
    }
}

} // verus!
