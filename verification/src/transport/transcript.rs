//! Flash session transcripts and key-derivation input.
use crate::crypto::domains::{domain_context, scp_derive_key, spec_blake3_derive_key, DomainLabel};
use crate::transport::session::{FreshnessNonce, RouteId};
use crate::vitality::{spec_vitality_byte, vitality_to_byte, VitalityState};
use crate::wire_format::transcript::{transcript_v1_bytes, transcript_v1_layout, transcript_v2_bytes, transcript_v2_layout};
use vstd::prelude::*;

verus! {

/// Transcript of a flash session (v1, 63-byte canonical form, format byte 1).
///
/// Identical field values always produce an identical hash.
pub struct FlashTranscript {
    pub route_id: RouteId,
    pub nonce: FreshnessNonce,
    pub recipient_ops_pub: [u8; 32],
    pub vitality_snapshot: VitalityState,
    /// SCP protocol version.
    pub protocol_version: u8,
}

/// Transcript of a flash session (v2, 95-byte canonical form, format byte 2),
/// binding the sender's handshake ephemeral public key.
pub struct FlashTranscriptV2 {
    pub route_id: RouteId,
    pub nonce: FreshnessNonce,
    pub recipient_ops_pub: [u8; 32],
    pub vitality_snapshot: VitalityState,
    pub protocol_version: u8,
    /// Sender's X25519 handshake ephemeral public key.
    pub sender_ephemeral_pub: [u8; 32],
}

/// Structured key material for transport session key derivation.
pub struct TransportKeyMaterial {
    /// Random or DH-derived 32 bytes per session.
    pub ephemeral_seed: [u8; 32],
    /// Output of the transcript hash — binds key to route/nonce/recipient/vitality.
    pub transcript_hash: [u8; 32],
    /// Recipient's operational public key — ensures key is recipient-specific.
    pub recipient_binding: [u8; 32],
}

/// The v1 transcript hash of the given fields.
pub open spec fn transcript_v1_hash(
    route_id: Seq<u8>,
    nonce: u64,
    recipient_ops_pub: Seq<u8>,
    vitality: VitalityState,
    protocol_version: u8,
) -> Seq<u8> {
    spec_blake3_derive_key(
        domain_context(DomainLabel::Transcript),
        transcript_v1_layout(
            route_id,
            nonce,
            recipient_ops_pub,
            spec_vitality_byte(vitality),
            protocol_version,
        ),
    )
}

/// The v2 transcript hash of the given fields.
pub open spec fn transcript_v2_hash(
    route_id: Seq<u8>,
    nonce: u64,
    recipient_ops_pub: Seq<u8>,
    vitality: VitalityState,
    protocol_version: u8,
    sender_ephemeral_pub: Seq<u8>,
) -> Seq<u8> {
    spec_blake3_derive_key(
        domain_context(DomainLabel::Transcript),
        transcript_v2_layout(
            route_id,
            nonce,
            recipient_ops_pub,
            spec_vitality_byte(vitality),
            protocol_version,
            sender_ephemeral_pub,
        ),
    )
}

/// The transport session key derived from a seed, a transcript hash and the
/// recipient binding.
pub open spec fn session_key_of(seed: Seq<u8>, transcript_hash: Seq<u8>, recipient: Seq<u8>) -> Seq<
    u8,
> {
    spec_blake3_derive_key(
        domain_context(DomainLabel::Transport),
        seed + transcript_hash + recipient,
    )
}

impl FlashTranscript {
    pub open spec fn spec_hash(&self) -> Seq<u8> {
        transcript_v1_hash(
            self.route_id.0@,
            self.nonce.0,
            self.recipient_ops_pub@,
            self.vitality_snapshot,
            self.protocol_version,
        )
    }

    /// Hash using domain-separated BLAKE3 over the canonical v1 bytes.
    pub fn hash(&self) -> (h: [u8; 32])
        ensures
            h@ == self.spec_hash(),
    {
        let vitality_byte = vitality_to_byte(&self.vitality_snapshot);
        let data = transcript_v1_bytes(
            &self.route_id.0,
            self.nonce.0,
            &self.recipient_ops_pub,
            vitality_byte,
            self.protocol_version,
        );
        scp_derive_key(DomainLabel::Transcript, data.as_slice())
    }
}

impl FlashTranscriptV2 {
    pub open spec fn spec_hash(&self) -> Seq<u8> {
        transcript_v2_hash(
            self.route_id.0@,
            self.nonce.0,
            self.recipient_ops_pub@,
            self.vitality_snapshot,
            self.protocol_version,
            self.sender_ephemeral_pub@,
        )
    }

    /// Hash using domain-separated BLAKE3 over the canonical v2 bytes.
    pub fn hash(&self) -> (h: [u8; 32])
        ensures
            h@ == self.spec_hash(),
    {
        let vitality_byte = vitality_to_byte(&self.vitality_snapshot);
        let data = transcript_v2_bytes(
            &self.route_id.0,
            self.nonce.0,
            &self.recipient_ops_pub,
            vitality_byte,
            self.protocol_version,
            &self.sender_ephemeral_pub,
        );
        scp_derive_key(DomainLabel::Transcript, data.as_slice())
    }
}

impl TransportKeyMaterial {
    /// Serialise to 96 bytes in the canonical order
    /// ephemeral_seed | transcript_hash | recipient_binding.
    pub fn as_bytes(&self) -> (out: [u8; 96])
        ensures
            out@ == self.ephemeral_seed@ + self.transcript_hash@ + self.recipient_binding@,
    {
        let mut out: [u8; 96] = [0u8; 96];
        crate::bytes::write_at(&mut out, 0, self.ephemeral_seed.as_slice());
        crate::bytes::write_at(&mut out, 32, self.transcript_hash.as_slice());
        crate::bytes::write_at(&mut out, 64, self.recipient_binding.as_slice());
        assert(out@ =~= self.ephemeral_seed@ + self.transcript_hash@ + self.recipient_binding@);
        out
    }

    /// The session key that this material derives under the transport label.
    pub fn derive_session_key(&self) -> (k: [u8; 32])
        ensures
            k@ == session_key_of(
                self.ephemeral_seed@,
                self.transcript_hash@,
                self.recipient_binding@,
            ),
    {
        let bytes = self.as_bytes();
        scp_derive_key(DomainLabel::Transport, bytes.as_slice())
    }
}

} // verus!
