//! Length-prefixed relay frames.
use crate::bytes::{append_bytes, append_le, be_bytes, be_value, le_bytes, le_value, lemma_be_bytes_len, lemma_be_roundtrip, lemma_le_bytes_len, lemma_le_roundtrip, lemma_pow256_values};
use vstd::prelude::*;

verus! {

/// The TCP relay frame of `payload`: its length modulo 2^32 as a
/// little-endian u32, then the payload.
pub open spec fn tcp_frame(payload: Seq<u8>) -> Seq<u8> {
    le_bytes(payload.len() % 0x1_0000_0000, 4) + payload
}

/// The Noise frame of `msg`: its length modulo 2^16 as a big-endian u16,
/// then the message.
pub open spec fn noise_frame(msg: Seq<u8>) -> Seq<u8> {
    be_bytes(msg.len() % 0x10000, 2) + msg
}

/// Encode a payload into a TCP relay frame.
///
/// Frame format (protocol-stable):
///   [4] payload length as u32 little-endian
///   [N] payload bytes
pub fn encode_tcp_frame(payload: &[u8]) -> (frame: Vec<u8>)
    ensures
        frame@ == tcp_frame(payload@),
{
    let len: u64 = (payload.len() as u64) % 0x1_0000_0000;
    let mut frame: Vec<u8> = Vec::new();
    append_le(&mut frame, len, 4);
    append_bytes(&mut frame, payload);
    frame
}

/// Parse the payload length from a TCP frame header.
pub fn decode_tcp_length(header: &[u8; 4]) -> (len: usize)
    ensures
        len == le_value(header@),
{
    let v: u64 = header[0] as u64 + 256 * (header[1] as u64 + 256 * (header[2] as u64 + 256
        * (header[3] as u64)));
    proof {
        reveal_with_fuel(le_value, 5);
        assert(header@.drop_first().drop_first().drop_first().drop_first().len() == 0);
    }
    v as usize
}

/// Encode a Noise message into a length-prefixed frame.
///
/// Frame format (Noise standard, protocol-stable):
///   [2] message length as u16 big-endian
///   [N] message bytes
pub fn encode_noise_frame(msg: &[u8]) -> (frame: Vec<u8>)
    ensures
        frame@ == noise_frame(msg@),
{
    let len: u64 = (msg.len() as u64) % 0x10000;
    let mut frame: Vec<u8> = Vec::new();
    frame.push(((len / 256) % 256) as u8);
    frame.push((len % 256) as u8);
    proof {
        reveal_with_fuel(be_bytes, 3);
        assert(frame@ =~= be_bytes(len as nat, 2));
    }
    append_bytes(&mut frame, msg);
    frame
}

/// Parse the message length from a Noise frame header.
pub fn decode_noise_length(header: &[u8; 2]) -> (len: usize)
    ensures
        len == be_value(header@),
{
    proof {
        reveal_with_fuel(be_value, 3);
        assert(header@.drop_last().drop_last().len() == 0);
    }
    256 * (header[0] as usize) + header[1] as usize
}

/// Decoding the header of a TCP frame gives back the payload length, and the
/// rest of the frame is the payload, for every payload shorter than 2^32.
pub proof fn lemma_tcp_frame_roundtrip(payload: Seq<u8>)
    requires
        payload.len() < 0x1_0000_0000,
    ensures
        tcp_frame(payload).len() == 4 + payload.len(),
        le_value(tcp_frame(payload).take(4)) == payload.len(),
        tcp_frame(payload).skip(4) == payload,
{
    lemma_pow256_values();
    let h = le_bytes(payload.len() % 0x1_0000_0000, 4);
    lemma_le_bytes_len(payload.len() % 0x1_0000_0000, 4);
    lemma_le_roundtrip(payload.len() % 0x1_0000_0000, 4);
    assert(tcp_frame(payload).take(4) =~= h);
    assert(tcp_frame(payload).skip(4) =~= payload);
}

/// Decoding the header of a Noise frame gives back the message length, and
/// the rest of the frame is the message, for every message shorter than 2^16.
pub proof fn lemma_noise_frame_roundtrip(msg: Seq<u8>)
    requires
        msg.len() < 0x10000,
    ensures
        noise_frame(msg).len() == 2 + msg.len(),
        be_value(noise_frame(msg).take(2)) == msg.len(),
        noise_frame(msg).skip(2) == msg,
{
    lemma_pow256_values();
    let h = be_bytes(msg.len() % 0x10000, 2);
    lemma_be_bytes_len(msg.len() % 0x10000, 2);
    lemma_be_roundtrip(msg.len() % 0x10000, 2);
    assert(noise_frame(msg).take(2) =~= h);
    assert(noise_frame(msg).skip(2) =~= msg);
}

} // verus!
