//! Protocol constants shared by every SCP implementation.
use vstd::prelude::*;

verus! {

// ── Transcript format ──────────────────────────────────────────────────────
/// Transcript magic, the ASCII bytes "SCPt".
pub const TRANSCRIPT_MAGIC: [u8; 4] = [0x53u8, 0x43, 0x50, 0x74];

pub const TRANSCRIPT_V1_FORMAT: u8 = 0x01;

pub const TRANSCRIPT_V2_FORMAT: u8 = 0x02;

pub const TRANSCRIPT_V1_LEN: usize = 63;

pub const TRANSCRIPT_V2_LEN: usize = 95;

// ── Vitality wire bytes ────────────────────────────────────────────────────
pub const VITALITY_ACTIVE: u8 = 0;

pub const VITALITY_WARM: u8 = 1;

pub const VITALITY_DORMANT: u8 = 2;

pub const VITALITY_SUSPENDED: u8 = 3;

pub const VITALITY_SEVERED: u8 = 4;

pub const VITALITY_BURNED: u8 = 5;

// ── Relay wire protocol ────────────────────────────────────────────────────
/// TCP frame header length: u32 payload length prefix, little-endian.
pub const TCP_FRAME_HEADER_LEN: usize = 4;

/// Noise frame header length: u16 message length prefix, big-endian (Noise standard).
///
/// TCP uses LE u32 while Noise uses BE u16; the difference is kept to avoid a
/// breaking protocol change.
pub const NOISE_FRAME_HEADER_LEN: usize = 2;

pub const RELAY_ACK_BYTE: u8 = 0x01;

/// Noise handshake pattern and primitives for encrypted relay transport.
pub const NOISE_PARAMS: &'static str = "Noise_XX_25519_ChaChaPoly_BLAKE2s";

// ── Signing message layout ─────────────────────────────────────────────────
/// The ASCII bytes "scp:handshake-ephemeral:v1:".
pub const HANDSHAKE_SIG_PREFIX: [u8; 27] = [
    0x73u8, 0x63, 0x70, 0x3a, 0x68, 0x61, 0x6e, 0x64, 0x73, 0x68, 0x61, 0x6b, 0x65, 0x2d, 0x65,
    0x70, 0x68, 0x65, 0x6d, 0x65, 0x72, 0x61, 0x6c, 0x3a, 0x76, 0x31, 0x3a,
];

/// Handshake sig message length: 27 + 32 + 8 = 67.
pub const HANDSHAKE_SIG_MSG_LEN: usize = 67;

/// Registration message length: 32 + 32 + 32 = 96.
pub const REGISTRATION_MSG_LEN: usize = 96;

/// Rotation message length: 32 + 32 + 8 = 72.
pub const ROTATION_MSG_LEN: usize = 72;

/// The ASCII bytes "scp:tunnel:v1:", the tunnel consent domain prefix.
pub const TUNNEL_PREFIX: [u8; 14] = [
    0x73u8, 0x63, 0x70, 0x3a, 0x74, 0x75, 0x6e, 0x6e, 0x65, 0x6c, 0x3a, 0x76, 0x31, 0x3a,
];

// ── Perturbation protocol ──────────────────────────────────────────────────
pub const PAYLOAD_BUCKET_BYTES: usize = 256;

} // verus!
