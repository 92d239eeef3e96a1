//! The receiving half of a v2 burst: rebuild the session key from the
//! envelope and the recipient's handshake secret, then decrypt.
use crate::crypto::keys::{spec_chacha_open, spec_x25519, x25519_dh, SessionKey as CryptoSessionKey};
use crate::transport::flash::{copy_vitality, TransportError};
use crate::transport::session::{FreshnessNonce, RouteId};
use crate::transport::transcript::{
    session_key_of, transcript_v2_hash, FlashTranscriptV2, TransportKeyMaterial,
};
use crate::vitality::VitalityState;
use vstd::prelude::*;

verus! {

/// All receiver-required fields for reconstructing the session key and
/// decrypting, produced by the sender-side v2 path.
pub struct BurstEnvelope {
    /// Sender's X25519 ephemeral public key — required for DH reconstruction.
    pub sender_ephemeral_pub: [u8; 32],
    /// Session route identifier — bound into the v2 transcript hash.
    pub route_id: RouteId,
    /// Freshness nonce — bound into the v2 transcript hash.
    pub nonce: FreshnessNonce,
    /// Vitality state at send time — bound into the v2 transcript hash.
    pub vitality_snapshot: VitalityState,
    /// ChaCha20-Poly1305 ciphertext with authentication tag (pre-normalization).
    pub ciphertext: Vec<u8>,
    /// 12-byte ChaCha20-Poly1305 encryption nonce.
    pub enc_nonce: [u8; 12],
    /// Recipient's operational public key — bound into transcript and key material.
    pub recipient_ops_pub: [u8; 32],
    /// Protocol version — must be 2. v1 envelopes cannot be decrypted by a recipient.
    pub protocol_version: u8,
}

/// The session key a recipient holding the X25519 secret `eph_secret`
/// reconstructs from `env`.
pub open spec fn receive_key(env: BurstEnvelope, eph_secret: Seq<u8>) -> Seq<u8> {
    session_key_of(
        spec_x25519(eph_secret, env.sender_ephemeral_pub@),
        transcript_v2_hash(
            env.route_id.0@,
            env.nonce.0,
            env.recipient_ops_pub@,
            env.vitality_snapshot,
            env.protocol_version,
            env.sender_ephemeral_pub@,
        ),
        env.recipient_ops_pub@,
    )
}

/// What receiving `env` with the secret `eph_secret` yields: the plaintext,
/// or why it cannot be had.
pub open spec fn receive_outcome(env: BurstEnvelope, eph_secret: Seq<u8>) -> Result<
    Seq<u8>,
    TransportError,
> {
    if env.protocol_version != 2 {
        Err(TransportError::V1PathNotReceivable)
    } else {
        match spec_chacha_open(receive_key(env, eph_secret), env.enc_nonce@, env.ciphertext@) {
            Some(p) => Ok(p),
            None => Err(TransportError::DecryptionFailed),
        }
    }
}

/// Reconstruct the session key from a [`BurstEnvelope`] and decrypt the payload.
///
/// `eph_secret` is the private X25519 key whose public half the recipient
/// published as its handshake ephemeral. The derivation mirrors the sender:
/// DH with the sender's ephemeral, the v2 transcript rebuilt from the
/// envelope, the transport key over `dh ‖ transcript_hash ‖ recipient_ops_pub`,
/// then ChaCha20-Poly1305 decryption.
pub fn receive(envelope: &BurstEnvelope, eph_secret: &[u8; 32]) -> (r: Result<Vec<u8>, TransportError>)
    ensures
        match receive_outcome(*envelope, eph_secret@) {
            Ok(p) => r matches Ok(v) && v@ == p,
            Err(e) => r == Err::<Vec<u8>, TransportError>(e),
        },
{
    if envelope.protocol_version != 2 {
        return Err(TransportError::V1PathNotReceivable);
    }
    let dh_output = x25519_dh(eph_secret, &envelope.sender_ephemeral_pub);
    let transcript = FlashTranscriptV2 {
        route_id: RouteId(envelope.route_id.0),
        nonce: FreshnessNonce(envelope.nonce.0),
        recipient_ops_pub: envelope.recipient_ops_pub,
        vitality_snapshot: copy_vitality(&envelope.vitality_snapshot),
        protocol_version: envelope.protocol_version,
        sender_ephemeral_pub: envelope.sender_ephemeral_pub,
    };
    let transcript_hash = transcript.hash();
    let key_material = TransportKeyMaterial {
        ephemeral_seed: dh_output,
        transcript_hash,
        recipient_binding: envelope.recipient_ops_pub,
    };
    let session_key = CryptoSessionKey(key_material.derive_session_key());
    match session_key.decrypt(envelope.ciphertext.as_slice(), &envelope.enc_nonce) {
        Ok(p) => Ok(p),
        Err(_) => Err(TransportError::DecryptionFailed),
    }
}

} // verus!
