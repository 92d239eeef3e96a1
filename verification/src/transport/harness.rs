//! The development harness's burst format and mailbox tokens: a v2 burst
//! flattened to plain fields, addressed to an opaque random mailbox.
use crate::bytes::append_bytes;
use crate::crypto::keys::{chacha_max_plaintext, os_random_bytes, spec_x25519_public};
use crate::hex::{hex_decode, hex_decoded, hex_encode, HexError};
use crate::transport::corridor::{receive, receive_outcome, BurstEnvelope};
use crate::transport::flash::{copy_vitality, seal_v2, TransportError};
use crate::transport::session::{FreshnessNonce, RouteId};
use crate::vitality::{spec_vitality_byte, vitality_from_byte, vitality_to_byte, VitalityState};
use vstd::prelude::*;
use vstd::string::StringSliceAdditionalSpecFns;

verus! {

/// Why a harness value could not be read or a burst not received.
#[derive(Debug, Clone, PartialEq, Eq, Structural)]
pub enum HarnessError {
    /// The text is not hexadecimal.
    Hex(HexError),
    /// The decoded value has the wrong length.
    Length { expected: usize, got: usize },
    /// The burst's vitality byte names no state.
    VitalityByte(u8),
    /// The burst could not be received.
    Transport(TransportError),
}

/// An opaque, random 32-byte relay mailbox token.
pub struct DevMailboxId(pub [u8; 32]);

impl DevMailboxId {
    /// A fresh random token from the operating-system generator.
    pub fn generate() -> (id: Self) {
        DevMailboxId(os_random_bytes())
    }

    /// The token as 64 lowercase hexadecimal characters.
    pub fn to_hex(&self) -> (s: String)
        ensures
            s@ == crate::hex::ascii_chars(crate::hex::hex_codes(self.0@)),
    {
        hex_encode(self.0.as_slice())
    }

    /// Read a token from its hexadecimal text: it must decode to 32 bytes.
    pub fn from_hex(text: &str) -> (r: Result<Self, HarnessError>)
        ensures
            match hex_decoded(text.spec_bytes()) {
                Err(e) => r == Err::<Self, HarnessError>(HarnessError::Hex(e)),
                Ok(v) => if v.len() == 32 {
                    r matches Ok(id) && id.0@ == v
                } else {
                    r == Err::<Self, HarnessError>(HarnessError::Length { expected: 32, got: v.len() as usize })
                },
            },
    {
        let bytes = match hex_decode(text) {
            Ok(b) => b,
            Err(e) => {
                return Err(HarnessError::Hex(e));
            },
        };
        if bytes.len() != 32 {
            return Err(HarnessError::Length { expected: 32, got: bytes.len() });
        }
        let mut id: [u8; 32] = [0u8; 32];
        let mut i: usize = 0;
        while i < 32
            invariant
                0 <= i <= 32,
                bytes@.len() == 32,
                id@.len() == 32,
                forall|j: int| 0 <= j < i ==> id@[j] == bytes@[j],
            decreases 32 - i,
        {
            id[i] = bytes[i];
            i += 1;
        }
        assert(id@ =~= bytes@);
        Ok(DevMailboxId(id))
    }
}

/// A v2 burst as the harness stores it at a relay: every field the
/// recipient cannot derive itself.
pub struct DevHarnessBurst {
    pub sender_ephemeral_pub: [u8; 32],
    pub route_id: [u8; 16],
    pub freshness_nonce: u64,
    pub vitality_byte: u8,
    pub enc_nonce: [u8; 12],
    pub ciphertext: Vec<u8>,
}

/// The envelope a recipient with operational key `ops_pub` rebuilds from
/// `burst`, reading its vitality byte as `vitality`.
pub open spec fn harness_envelope(burst: DevHarnessBurst, ops_pub: [u8; 32], vitality: VitalityState) -> BurstEnvelope {
    BurstEnvelope {
        sender_ephemeral_pub: burst.sender_ephemeral_pub,
        route_id: RouteId(burst.route_id),
        nonce: FreshnessNonce(burst.freshness_nonce),
        vitality_snapshot: vitality,
        ciphertext: burst.ciphertext,
        enc_nonce: burst.enc_nonce,
        recipient_ops_pub: ops_pub,
        protocol_version: 2,
    }
}

/// Flatten a v2 envelope into a harness burst.
pub fn burst_from_envelope(env: BurstEnvelope) -> (b: DevHarnessBurst)
    ensures
        b.sender_ephemeral_pub == env.sender_ephemeral_pub,
        b.route_id == env.route_id.0,
        b.freshness_nonce == env.nonce.0,
        b.vitality_byte == spec_vitality_byte(env.vitality_snapshot),
        b.enc_nonce == env.enc_nonce,
        b.ciphertext@ == env.ciphertext@,
{
    DevHarnessBurst {
        sender_ephemeral_pub: env.sender_ephemeral_pub,
        route_id: env.route_id.0,
        freshness_nonce: env.nonce.0,
        vitality_byte: vitality_to_byte(&env.vitality_snapshot),
        enc_nonce: env.enc_nonce,
        ciphertext: env.ciphertext,
    }
}

/// Receive a harness burst addressed to the operational key `ops_pub`,
/// with the handshake secret `hs_priv`: the envelope is rebuilt (the
/// vitality byte must name a state) and received.
pub fn receive_harness(hs_priv: &[u8; 32], ops_pub: &[u8; 32], burst: &DevHarnessBurst) -> (r: Result<Vec<u8>, HarnessError>)
    ensures
        burst.vitality_byte > 5 ==> r == Err::<Vec<u8>, HarnessError>(HarnessError::VitalityByte(burst.vitality_byte)),
        forall|v: VitalityState| #[trigger] spec_vitality_byte(v) == burst.vitality_byte ==> match receive_outcome(
            harness_envelope(*burst, *ops_pub, v),
            hs_priv@,
        ) {
            Ok(p) => r matches Ok(out) && out@ == p,
            Err(e) => r == Err::<Vec<u8>, HarnessError>(HarnessError::Transport(e)),
        },
{
    let vitality = match vitality_from_byte(burst.vitality_byte) {
        Some(v) => v,
        None => {
            return Err(HarnessError::VitalityByte(burst.vitality_byte));
        },
    };
    let mut ciphertext: Vec<u8> = Vec::new();
    append_bytes(&mut ciphertext, burst.ciphertext.as_slice());
    let env = BurstEnvelope {
        sender_ephemeral_pub: burst.sender_ephemeral_pub,
        route_id: RouteId(burst.route_id),
        nonce: FreshnessNonce(burst.freshness_nonce),
        vitality_snapshot: copy_vitality(&vitality),
        ciphertext,
        enc_nonce: burst.enc_nonce,
        recipient_ops_pub: *ops_pub,
        protocol_version: 2,
    };
    proof {
        assert forall|v: VitalityState| #[trigger] spec_vitality_byte(v) == burst.vitality_byte implies v == vitality by {
            crate::vitality::lemma_vitality_byte_injective(v, vitality);
        }
    }
    match receive(&env, hs_priv) {
        Ok(p) => Ok(p),
        Err(e) => Err(HarnessError::Transport(e)),
    }
}

/// Seal `payload` directly to a recipient's operational key `ops_pub` and
/// handshake key `hs_pub` on the v2 path (vitality Active, fresh route and
/// nonce), and flatten it into a harness burst. The handshake key is taken
/// as given; its signature is the caller's to check.
pub fn send_harness_direct(ops_pub: &[u8; 32], hs_pub: &[u8; 32], payload: &[u8]) -> (b: DevHarnessBurst)
    requires
        payload@.len() < chacha_max_plaintext(),
    ensures
        b.vitality_byte == spec_vitality_byte(VitalityState::Active),
        forall|e: Seq<u8>|
            e.len() == 32 && #[trigger] spec_x25519_public(e) == hs_pub@ ==> receive_outcome(
                harness_envelope(b, *ops_pub, VitalityState::Active),
                e,
            ) == Ok::<Seq<u8>, TransportError>(payload@),
{
    let route = RouteId::generate();
    let nonce = FreshnessNonce::generate();
    let (_key, env) = seal_v2(ops_pub, &VitalityState::Active, hs_pub, route.0, nonce.0, payload);
    let ghost env_view = env;
    let b = burst_from_envelope(env);
    proof {
        assert forall|e: Seq<u8>| e.len() == 32 && #[trigger] spec_x25519_public(e) == hs_pub@ implies receive_outcome(
            harness_envelope(b, *ops_pub, VitalityState::Active),
            e,
        ) == Ok::<Seq<u8>, TransportError>(payload@) by {
            assert(receive_outcome(env_view, e) == Ok::<Seq<u8>, TransportError>(payload@));
        }
    }
    b
}

/// What the harness promises end to end: a burst sent directly to a
/// recipient is received, under any handshake secret whose public key the
/// sender used, as the payload.
pub proof fn lemma_direct_burst_received(b: DevHarnessBurst, ops_pub: [u8; 32], hs_pub: [u8; 32], hs_priv: [u8; 32], payload: Seq<u8>)
    requires
        b.vitality_byte == spec_vitality_byte(VitalityState::Active),
        forall|e: Seq<u8>|
            e.len() == 32 && #[trigger] spec_x25519_public(e) == hs_pub@ ==> receive_outcome(
                harness_envelope(b, ops_pub, VitalityState::Active),
                e,
            ) == Ok::<Seq<u8>, TransportError>(payload),
        spec_x25519_public(hs_priv@) == hs_pub@,
    ensures
        forall|v: VitalityState| #[trigger] spec_vitality_byte(v) == b.vitality_byte ==> receive_outcome(
            harness_envelope(b, ops_pub, v),
            hs_priv@,
        ) == Ok::<Seq<u8>, TransportError>(payload),
{
    assert forall|v: VitalityState| #[trigger] spec_vitality_byte(v) == b.vitality_byte implies receive_outcome(
        harness_envelope(b, ops_pub, v),
        hs_priv@,
    ) == Ok::<Seq<u8>, TransportError>(payload) by {
        crate::vitality::lemma_vitality_byte_injective(v, VitalityState::Active);
        assert(spec_x25519_public(hs_priv@) == hs_pub@);
    }
}

} // verus!
