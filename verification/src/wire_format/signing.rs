//! Canonical messages that identities sign.
use crate::bytes::{append_bytes, append_u64_le, bytes32_le, lemma_lex_le_antisymmetric, lemma_lex_le_total, lemma_u64_le_roundtrip, lex_le, u64_le, write_at};
use crate::wire_format::constants::{HANDSHAKE_SIG_PREFIX, TUNNEL_PREFIX};
use vstd::prelude::*;

verus! {

/// Layout of the handshake-ephemeral signing message.
pub open spec fn handshake_sig_bytes(pub_key: Seq<u8>, expires_at: u64) -> Seq<u8> {
    HANDSHAKE_SIG_PREFIX@ + pub_key + u64_le(expires_at)
}

/// Layout of the identity registration message.
pub open spec fn registration_bytes(
    k_root_pub: Seq<u8>,
    k_ops_pub: Seq<u8>,
    recovery_policy_hash: Seq<u8>,
) -> Seq<u8> {
    k_root_pub + k_ops_pub + recovery_policy_hash
}

/// Layout of the key rotation message.
pub open spec fn rotation_bytes(old_ops_pub: Seq<u8>, new_ops_pub: Seq<u8>, nonce: u64) -> Seq<u8> {
    old_ops_pub + new_ops_pub + u64_le(nonce)
}

/// Layout of the tunnel consent input: the domain prefix, then the smaller
/// party key, then the larger one.
pub open spec fn tunnel_consent_bytes(a: Seq<u8>, b: Seq<u8>) -> Seq<u8> {
    if lex_le(a, b) {
        TUNNEL_PREFIX@ + a + b
    } else {
        TUNNEL_PREFIX@ + b + a
    }
}

/// Canonical signing message for a published handshake ephemeral (67 bytes).
///
/// Format (protocol-stable):
///   [27] "scp:handshake-ephemeral:v1:"
///   [32] pub_key (X25519 public key)
///   [8]  expires_at (u64, little-endian)
pub fn handshake_sig_message(pub_key: &[u8; 32], expires_at: u64) -> (msg: [u8; 67])
    ensures
        msg@ == handshake_sig_bytes(pub_key@, expires_at),
        msg@.subrange(0, 27) == HANDSHAKE_SIG_PREFIX@,
        msg@.subrange(27, 59) == pub_key@,
        msg@.subrange(59, 67) == u64_le(expires_at),
{
    let mut msg: [u8; 67] = [0u8; 67];
    let prefix = HANDSHAKE_SIG_PREFIX;
    write_at(&mut msg, 0, prefix.as_slice());
    write_at(&mut msg, 27, pub_key.as_slice());
    let mut le: Vec<u8> = Vec::new();
    append_u64_le(&mut le, expires_at);
    proof {
        lemma_u64_le_roundtrip(expires_at);
        assert(le@ =~= u64_le(expires_at));
    }
    write_at(&mut msg, 59, le.as_slice());
    assert(msg@ =~= handshake_sig_bytes(pub_key@, expires_at));
    msg
}

/// Canonical message for identity registration (96 bytes).
///
/// Format (protocol-stable):
///   [32] k_root_pub
///   [32] k_ops_pub
///   [32] recovery_policy_hash
pub fn registration_message(
    k_root_pub: &[u8; 32],
    k_ops_pub: &[u8; 32],
    recovery_policy_hash: &[u8; 32],
) -> (msg: [u8; 96])
    ensures
        msg@ == registration_bytes(k_root_pub@, k_ops_pub@, recovery_policy_hash@),
        msg@.subrange(0, 32) == k_root_pub@,
        msg@.subrange(32, 64) == k_ops_pub@,
        msg@.subrange(64, 96) == recovery_policy_hash@,
{
    let mut msg: [u8; 96] = [0u8; 96];
    write_at(&mut msg, 0, k_root_pub.as_slice());
    write_at(&mut msg, 32, k_ops_pub.as_slice());
    write_at(&mut msg, 64, recovery_policy_hash.as_slice());
    assert(msg@ =~= registration_bytes(k_root_pub@, k_ops_pub@, recovery_policy_hash@));
    msg
}

/// Canonical message for key rotation (72 bytes).
///
/// Format (protocol-stable):
///   [32] old_ops_pub
///   [32] new_ops_pub
///   [8]  nonce (u64, little-endian)
pub fn rotation_message(old_ops_pub: &[u8; 32], new_ops_pub: &[u8; 32], nonce: u64) -> (msg: [u8;
    72])
    ensures
        msg@ == rotation_bytes(old_ops_pub@, new_ops_pub@, nonce),
        msg@.subrange(0, 32) == old_ops_pub@,
        msg@.subrange(32, 64) == new_ops_pub@,
        msg@.subrange(64, 72) == u64_le(nonce),
{
    let mut msg: [u8; 72] = [0u8; 72];
    write_at(&mut msg, 0, old_ops_pub.as_slice());
    write_at(&mut msg, 32, new_ops_pub.as_slice());
    let mut le: Vec<u8> = Vec::new();
    append_u64_le(&mut le, nonce);
    proof {
        lemma_u64_le_roundtrip(nonce);
        assert(le@ =~= u64_le(nonce));
    }
    write_at(&mut msg, 64, le.as_slice());
    assert(msg@ =~= rotation_bytes(old_ops_pub@, new_ops_pub@, nonce));
    msg
}

/// Input bytes for the tunnel consent hash; the caller applies BLAKE3.
///
/// Parties are sorted lexicographically (a ≤ b) before concatenation.
/// Format: "scp:tunnel:v1:" || lo_pub || hi_pub
pub fn tunnel_consent_input(a: &[u8; 32], b: &[u8; 32]) -> (msg: Vec<u8>)
    ensures
        msg@ == tunnel_consent_bytes(a@, b@),
{
    let prefix = TUNNEL_PREFIX;
    let mut msg: Vec<u8> = Vec::new();
    append_bytes(&mut msg, prefix.as_slice());
    if bytes32_le(a, b) {
        append_bytes(&mut msg, a.as_slice());
        append_bytes(&mut msg, b.as_slice());
    } else {
        append_bytes(&mut msg, b.as_slice());
        append_bytes(&mut msg, a.as_slice());
    }
    msg
}

/// Field positions of the signed messages. The handshake message is the
/// 27-byte prefix, the key at 27..59 and the expiry (little-endian) at
/// 59..67; the registration message is the root key at 0..32, the ops key at
/// 32..64 and the recovery policy hash at 64..96; the rotation message is the
/// old key at 0..32, the new key at 32..64 and the nonce (little-endian) at
/// 64..72.
pub proof fn lemma_signing_layouts(a: Seq<u8>, b: Seq<u8>, c: Seq<u8>, t: u64)
    requires
        a.len() == 32,
        b.len() == 32,
        c.len() == 32,
    ensures
        handshake_sig_bytes(a, t).len() == 67,
        handshake_sig_bytes(a, t).subrange(0, 27) == HANDSHAKE_SIG_PREFIX@,
        handshake_sig_bytes(a, t).subrange(27, 59) == a,
        handshake_sig_bytes(a, t).subrange(59, 67) == u64_le(t),
        registration_bytes(a, b, c).len() == 96,
        registration_bytes(a, b, c).subrange(0, 32) == a,
        registration_bytes(a, b, c).subrange(32, 64) == b,
        registration_bytes(a, b, c).subrange(64, 96) == c,
        rotation_bytes(a, b, t).len() == 72,
        rotation_bytes(a, b, t).subrange(0, 32) == a,
        rotation_bytes(a, b, t).subrange(32, 64) == b,
        rotation_bytes(a, b, t).subrange(64, 72) == u64_le(t),
{
    lemma_u64_le_roundtrip(t);
    assert(handshake_sig_bytes(a, t).subrange(0, 27) =~= HANDSHAKE_SIG_PREFIX@);
    assert(handshake_sig_bytes(a, t).subrange(27, 59) =~= a);
    assert(handshake_sig_bytes(a, t).subrange(59, 67) =~= u64_le(t));
    assert(registration_bytes(a, b, c).subrange(0, 32) =~= a);
    assert(registration_bytes(a, b, c).subrange(32, 64) =~= b);
    assert(registration_bytes(a, b, c).subrange(64, 96) =~= c);
    assert(rotation_bytes(a, b, t).subrange(0, 32) =~= a);
    assert(rotation_bytes(a, b, t).subrange(32, 64) =~= b);
    assert(rotation_bytes(a, b, t).subrange(64, 72) =~= u64_le(t));
}

/// Field positions of the tunnel consent input: the 14-byte prefix, then
/// the lexicographically smaller party key at 14..46 and the larger at 46..78.
pub proof fn lemma_tunnel_consent_layout(a: Seq<u8>, b: Seq<u8>)
    requires
        a.len() == 32,
        b.len() == 32,
    ensures
        tunnel_consent_bytes(a, b).len() == 78,
        tunnel_consent_bytes(a, b).subrange(0, 14) == TUNNEL_PREFIX@,
        lex_le(a, b) ==> tunnel_consent_bytes(a, b).subrange(14, 46) == a && tunnel_consent_bytes(a, b).subrange(46, 78) == b,
        !lex_le(a, b) ==> tunnel_consent_bytes(a, b).subrange(14, 46) == b && tunnel_consent_bytes(a, b).subrange(46, 78) == a,
{
    let t = tunnel_consent_bytes(a, b);
    assert(t.subrange(0, 14) =~= TUNNEL_PREFIX@);
    if lex_le(a, b) {
        assert(t.subrange(14, 46) =~= a);
        assert(t.subrange(46, 78) =~= b);
    } else {
        assert(t.subrange(14, 46) =~= b);
        assert(t.subrange(46, 78) =~= a);
    }
}

/// The tunnel consent input does not depend on the order of the two parties.
pub proof fn lemma_tunnel_consent_symmetric(a: Seq<u8>, b: Seq<u8>)
    requires
        a.len() == b.len(),
    ensures
        tunnel_consent_bytes(a, b) == tunnel_consent_bytes(b, a),
{
    lemma_lex_le_total(a, b);
    if lex_le(a, b) && lex_le(b, a) {
        lemma_lex_le_antisymmetric(a, b);
    }
}

} // verus!
