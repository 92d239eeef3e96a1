//! Canonical transcript serialization.
use crate::bytes::{append_u64_le, lemma_u64_le_roundtrip, u64_le, write_at};
use crate::wire_format::constants::{TRANSCRIPT_MAGIC, TRANSCRIPT_V1_FORMAT, TRANSCRIPT_V2_FORMAT};
use vstd::prelude::*;

verus! {

/// The fields common to both transcript versions, after the magic and the
/// format byte.
pub open spec fn transcript_body(
    route_id: Seq<u8>,
    nonce: u64,
    recipient_ops_pub: Seq<u8>,
    vitality_byte: u8,
    protocol_version: u8,
) -> Seq<u8> {
    route_id + u64_le(nonce) + recipient_ops_pub + seq![vitality_byte, protocol_version]
}

/// Layout of a v1 transcript.
pub open spec fn transcript_v1_layout(
    route_id: Seq<u8>,
    nonce: u64,
    recipient_ops_pub: Seq<u8>,
    vitality_byte: u8,
    protocol_version: u8,
) -> Seq<u8> {
    TRANSCRIPT_MAGIC@ + seq![TRANSCRIPT_V1_FORMAT] + transcript_body(
        route_id,
        nonce,
        recipient_ops_pub,
        vitality_byte,
        protocol_version,
    )
}

/// Layout of a v2 transcript: the v1 fields under format byte 2, then the
/// sender's ephemeral public key.
pub open spec fn transcript_v2_layout(
    route_id: Seq<u8>,
    nonce: u64,
    recipient_ops_pub: Seq<u8>,
    vitality_byte: u8,
    protocol_version: u8,
    sender_ephemeral_pub: Seq<u8>,
) -> Seq<u8> {
    TRANSCRIPT_MAGIC@ + seq![TRANSCRIPT_V2_FORMAT] + transcript_body(
        route_id,
        nonce,
        recipient_ops_pub,
        vitality_byte,
        protocol_version,
    ) + sender_ephemeral_pub
}

/// Serialize a v1 transcript to its canonical 63-byte form.
///
/// Field layout (protocol-stable):
///   [4]  TRANSCRIPT_MAGIC ("SCPt")
///   [1]  TRANSCRIPT_V1_FORMAT (0x01)
///   [16] route_id
///   [8]  nonce (u64, little-endian)
///   [32] recipient_ops_pub
///   [1]  vitality_byte (use VITALITY_* constants)
///   [1]  protocol_version
pub fn transcript_v1_bytes(
    route_id: &[u8; 16],
    nonce: u64,
    recipient_ops_pub: &[u8; 32],
    vitality_byte: u8,
    protocol_version: u8,
) -> (data: [u8; 63])
    ensures
        data@ == transcript_v1_layout(
            route_id@,
            nonce,
            recipient_ops_pub@,
            vitality_byte,
            protocol_version,
        ),
        data@.subrange(0, 4) == TRANSCRIPT_MAGIC@,
        data@[4] == TRANSCRIPT_V1_FORMAT,
        data@.subrange(5, 21) == route_id@,
        data@.subrange(21, 29) == u64_le(nonce),
        data@.subrange(29, 61) == recipient_ops_pub@,
        data@[61] == vitality_byte,
        data@[62] == protocol_version,
{
    let mut data: [u8; 63] = [0u8; 63];
    let magic = TRANSCRIPT_MAGIC;
    write_at(&mut data, 0, magic.as_slice());
    data[4] = TRANSCRIPT_V1_FORMAT;
    write_at(&mut data, 5, route_id.as_slice());
    let mut le: Vec<u8> = Vec::new();
    append_u64_le(&mut le, nonce);
    proof {
        lemma_u64_le_roundtrip(nonce);
        assert(le@ =~= u64_le(nonce));
    }
    write_at(&mut data, 21, le.as_slice());
    write_at(&mut data, 29, recipient_ops_pub.as_slice());
    data[61] = vitality_byte;
    data[62] = protocol_version;
    assert(data@ =~= transcript_v1_layout(
        route_id@,
        nonce,
        recipient_ops_pub@,
        vitality_byte,
        protocol_version,
    ));
    data
}

/// Serialize a v2 transcript to its canonical 95-byte form.
///
/// Field layout (protocol-stable):
///   [63] Same as v1 but format byte = TRANSCRIPT_V2_FORMAT (0x02)
///   [32] sender_ephemeral_pub (X25519 public key)
pub fn transcript_v2_bytes(
    route_id: &[u8; 16],
    nonce: u64,
    recipient_ops_pub: &[u8; 32],
    vitality_byte: u8,
    protocol_version: u8,
    sender_ephemeral_pub: &[u8; 32],
) -> (data: [u8; 95])
    ensures
        data@ == transcript_v2_layout(
            route_id@,
            nonce,
            recipient_ops_pub@,
            vitality_byte,
            protocol_version,
            sender_ephemeral_pub@,
        ),
        data@.subrange(0, 4) == TRANSCRIPT_MAGIC@,
        data@[4] == TRANSCRIPT_V2_FORMAT,
        data@.subrange(5, 21) == route_id@,
        data@.subrange(21, 29) == u64_le(nonce),
        data@.subrange(29, 61) == recipient_ops_pub@,
        data@[61] == vitality_byte,
        data@[62] == protocol_version,
        data@.subrange(63, 95) == sender_ephemeral_pub@,
{
    let mut data: [u8; 95] = [0u8; 95];
    let magic = TRANSCRIPT_MAGIC;
    write_at(&mut data, 0, magic.as_slice());
    data[4] = TRANSCRIPT_V2_FORMAT;
    write_at(&mut data, 5, route_id.as_slice());
    let mut le: Vec<u8> = Vec::new();
    append_u64_le(&mut le, nonce);
    proof {
        lemma_u64_le_roundtrip(nonce);
        assert(le@ =~= u64_le(nonce));
    }
    write_at(&mut data, 21, le.as_slice());
    write_at(&mut data, 29, recipient_ops_pub.as_slice());
    data[61] = vitality_byte;
    data[62] = protocol_version;
    write_at(&mut data, 63, sender_ephemeral_pub.as_slice());
    assert(data@ =~= transcript_v2_layout(
        route_id@,
        nonce,
        recipient_ops_pub@,
        vitality_byte,
        protocol_version,
        sender_ephemeral_pub@,
    ));
    data
}

/// Field positions of the transcripts: the magic at 0..4, the format byte at
/// 4, the route id at 5..21, the nonce (little-endian) at 21..29, the
/// recipient's ops key at 29..61, the vitality byte at 61 and the protocol
/// version at 62; a v2 transcript then carries the sender's ephemeral key at
/// 63..95.
pub proof fn lemma_transcript_layout(
    route_id: Seq<u8>,
    nonce: u64,
    recipient_ops_pub: Seq<u8>,
    vitality_byte: u8,
    protocol_version: u8,
    sender_ephemeral_pub: Seq<u8>,
)
    requires
        route_id.len() == 16,
        recipient_ops_pub.len() == 32,
        sender_ephemeral_pub.len() == 32,
    ensures
        ({
            let v1 = transcript_v1_layout(route_id, nonce, recipient_ops_pub, vitality_byte, protocol_version);
            let v2 = transcript_v2_layout(
                route_id,
                nonce,
                recipient_ops_pub,
                vitality_byte,
                protocol_version,
                sender_ephemeral_pub,
            );
            &&& v1.len() == 63
            &&& v1.subrange(0, 4) == TRANSCRIPT_MAGIC@
            &&& v1[4] == TRANSCRIPT_V1_FORMAT
            &&& v1.subrange(5, 21) == route_id
            &&& v1.subrange(21, 29) == u64_le(nonce)
            &&& v1.subrange(29, 61) == recipient_ops_pub
            &&& v1[61] == vitality_byte
            &&& v1[62] == protocol_version
            &&& v2.len() == 95
            &&& v2.subrange(0, 4) == TRANSCRIPT_MAGIC@
            &&& v2[4] == TRANSCRIPT_V2_FORMAT
            &&& v2.subrange(5, 21) == route_id
            &&& v2.subrange(21, 29) == u64_le(nonce)
            &&& v2.subrange(29, 61) == recipient_ops_pub
            &&& v2[61] == vitality_byte
            &&& v2[62] == protocol_version
            &&& v2.subrange(63, 95) == sender_ephemeral_pub
        }),
{
    lemma_u64_le_roundtrip(nonce);
    let v1 = transcript_v1_layout(route_id, nonce, recipient_ops_pub, vitality_byte, protocol_version);
    let v2 = transcript_v2_layout(route_id, nonce, recipient_ops_pub, vitality_byte, protocol_version, sender_ephemeral_pub);
    assert(v1.subrange(0, 4) =~= TRANSCRIPT_MAGIC@);
    assert(v1.subrange(5, 21) =~= route_id);
    assert(v1.subrange(21, 29) =~= u64_le(nonce));
    assert(v1.subrange(29, 61) =~= recipient_ops_pub);
    assert(v2.subrange(0, 4) =~= TRANSCRIPT_MAGIC@);
    assert(v2.subrange(5, 21) =~= route_id);
    assert(v2.subrange(21, 29) =~= u64_le(nonce));
    assert(v2.subrange(29, 61) =~= recipient_ops_pub);
    assert(v2.subrange(63, 95) =~= sender_ephemeral_pub);
}

/// The two transcript versions agree on the magic and every v1 field, and
/// differ in the format byte.
pub proof fn lemma_transcript_versions_share_layout(
    route_id: Seq<u8>,
    nonce: u64,
    recipient_ops_pub: Seq<u8>,
    vitality_byte: u8,
    protocol_version: u8,
    sender_ephemeral_pub: Seq<u8>,
)
    requires
        route_id.len() == 16,
        recipient_ops_pub.len() == 32,
        sender_ephemeral_pub.len() == 32,
    ensures
        ({
            let v1 = transcript_v1_layout(
                route_id,
                nonce,
                recipient_ops_pub,
                vitality_byte,
                protocol_version,
            );
            let v2 = transcript_v2_layout(
                route_id,
                nonce,
                recipient_ops_pub,
                vitality_byte,
                protocol_version,
                sender_ephemeral_pub,
            );
            &&& v1.len() == 63
            &&& v2.len() == 95
            &&& v1.take(4) == v2.take(4)
            &&& v1[4] != v2[4]
            &&& v1.skip(5) == v2.subrange(5, 63)
            &&& v2.skip(63) == sender_ephemeral_pub
        }),
{
    lemma_u64_le_roundtrip(nonce);
    let v1 = transcript_v1_layout(route_id, nonce, recipient_ops_pub, vitality_byte, protocol_version);
    let v2 = transcript_v2_layout(
        route_id,
        nonce,
        recipient_ops_pub,
        vitality_byte,
        protocol_version,
        sender_ephemeral_pub,
    );
    assert(v1.take(4) =~= v2.take(4));
    assert(v1.skip(5) =~= v2.subrange(5, 63));
    assert(v2.skip(63) =~= sender_ephemeral_pub);
}

} // verus!
