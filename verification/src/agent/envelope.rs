//! Identity files, contact cards and signed agent envelopes: their signing
//! layout, their signature and key checks, and the receiver's time window.
use crate::bytes::{append_bytes, append_le, append_u64_le, le_bytes, u64_le};
use crate::crypto::keys::{spec_ed25519_sign, spec_ed25519_verify, KeyPair, PublicKey};
use crate::hex::{hex_codes, hex_decode, hex_decoded, hex_encode, ascii_chars, HexError};
use crate::wire_format::signing::{handshake_sig_bytes, handshake_sig_message};
use vstd::prelude::*;
use vstd::string::StringSliceAdditionalSpecFns;
use vstd::utf8::encode_utf8;

verus! {

/// Schema version of the agent envelope this code writes and accepts.
pub const AGENT_ENVELOPE_SCHEMA_VERSION: u16 = 1;

/// Signing domain of an agent envelope: `scp-agent-envelope-v0`.
pub const AGENT_ENVELOPE_SIGNING_DOMAIN: [u8; 21] = [
    0x73u8, 0x63, 0x70, 0x2d, 0x61, 0x67, 0x65, 0x6e, 0x74, 0x2d, 0x65, 0x6e, 0x76, 0x65, 0x6c, 0x6f,
    0x70, 0x65, 0x2d, 0x76, 0x30,
];

/// Longest lifetime an agent envelope may declare (one day).
pub const MAX_AGENT_ENVELOPE_TTL_SECS: u64 = 86_400;

/// How far in the future an envelope's creation time may lie.
pub const MAX_AGENT_ENVELOPE_FUTURE_SKEW_SECS: u64 = 300;

/// An identity file: the operational and handshake keys in hexadecimal,
/// secrets included, with the handshake key's signature and expiry.
pub struct IdentityFile {
    pub ops_pub: String,
    pub ops_priv: String,
    pub handshake_pub: String,
    pub handshake_priv: String,
    pub handshake_sig: String,
    pub handshake_expires_at: u64,
}

/// The shareable public card of an identity.
pub struct ContactCard {
    pub ops_pub: String,
    pub handshake_pub: String,
    pub handshake_sig: String,
    pub handshake_expires_at: u64,
}

/// Where a reply to an agent envelope goes.
pub struct AgentReplyTo {
    pub relays: Vec<String>,
    pub mailbox: String,
}

/// A signed agent envelope.
pub struct AgentEnvelopeV0 {
    pub schema_version: u16,
    pub task_id: String,
    pub kind: String,
    pub from: ContactCard,
    pub reply_to: AgentReplyTo,
    pub created_at: u64,
    pub ttl: u64,
    pub body: String,
    pub sig: String,
}

/// An agent envelope before it is signed.
pub struct AgentEnvelopeDraft {
    pub task_id: String,
    pub kind: String,
    pub from: ContactCard,
    pub reply_to: AgentReplyTo,
    pub created_at: u64,
    pub ttl: u64,
    pub body: String,
}

/// Where an envelope stands in time for its receiver.
pub enum AgentEnvelopeTimeStatus {
    /// Within its lifetime, which ends at `expires_at`.
    Current { expires_at: u64 },
    /// Past its lifetime.
    Expired,
    /// Not acceptable at all, for the reason given.
    Invalid(String),
}

/// Why a hexadecimal field could not be read.
#[derive(Debug, Clone, PartialEq, Eq, Structural)]
pub enum FieldProblem {
    Hex(HexError),
    Length { expected: usize, got: usize },
}

/// A named field that could not be read.
#[derive(Debug, Clone, PartialEq, Eq)]
pub struct FieldError {
    pub field: String,
    pub problem: FieldProblem,
}

/// Why a contact card's keys were refused.
#[derive(Debug, Clone, PartialEq, Eq)]
pub enum CardError {
    Field(FieldError),
    /// The handshake key's signature does not verify under the ops key.
    SignatureInvalid,
}

/// Why an agent envelope was refused.
#[derive(Debug, Clone, PartialEq, Eq)]
pub enum EnvelopeError {
    UnsupportedSchema(u16),
    ZeroTtl,
    TtlTooLarge,
    SenderCard(CardError),
    Field(FieldError),
    /// The envelope's signature does not verify under the sender's ops key.
    SignatureInvalid,
}

/// The bytes of `n` hexadecimal text (UTF-8 `text`), if it denotes exactly
/// `n` bytes.
pub open spec fn hex_field(text: Seq<char>, n: nat) -> Option<Seq<u8>> {
    match hex_decoded(encode_utf8(text)) {
        Ok(v) => if v.len() == n { Some(v) } else { None },
        Err(_) => None,
    }
}

/// Read `n` bytes of hexadecimal text.
fn parse_hex_field<const N: usize>(hex: &str, field: &str) -> (r: Result<[u8; N], FieldError>)
    ensures
        match hex_field(hex@, N as nat) {
            Some(v) => r matches Ok(a) && a@ == v,
            None => r matches Err(e) && e.field@ == field@,
        },
{
    let bytes = match hex_decode(hex) {
        Ok(b) => b,
        Err(e) => {
            return Err(FieldError { field: field.to_owned(), problem: FieldProblem::Hex(e) });
        },
    };
    if bytes.len() != N {
        return Err(FieldError { field: field.to_owned(), problem: FieldProblem::Length { expected: N, got: bytes.len() } });
    }
    let mut arr: [u8; N] = [0u8; N];
    let mut i: usize = 0;
    while i < N
        invariant
            0 <= i <= N,
            bytes@.len() == N,
            arr@.len() == N,
            forall|j: int| 0 <= j < i ==> arr@[j] == bytes@[j],
        decreases N - i,
    {
        arr[i] = bytes[i];
        i += 1;
    }
    assert(arr@ =~= bytes@);
    Ok(arr)
}

/// Read 32 bytes of hexadecimal text.
pub fn parse_hex32(hex: &str, field: &str) -> (r: Result<[u8; 32], FieldError>)
    ensures
        match hex_field(hex@, 32) {
            Some(v) => r matches Ok(a) && a@ == v,
            None => r matches Err(e) && e.field@ == field@,
        },
{
    parse_hex_field(hex, field)
}

/// Read 64 bytes of hexadecimal text.
pub fn parse_hex64(hex: &str, field: &str) -> (r: Result<[u8; 64], FieldError>)
    ensures
        match hex_field(hex@, 64) {
            Some(v) => r matches Ok(a) && a@ == v,
            None => r matches Err(e) && e.field@ == field@,
        },
{
    parse_hex_field(hex, field)
}

/// The keys of a card whose handshake key is validly signed by its ops key.
pub open spec fn card_keys(card: ContactCard) -> Option<(Seq<u8>, Seq<u8>)> {
    match (hex_field(card.ops_pub@, 32), hex_field(card.handshake_pub@, 32), hex_field(card.handshake_sig@, 64)) {
        (Some(ops), Some(hs), Some(sig)) => if spec_ed25519_verify(
            ops,
            handshake_sig_bytes(hs, card.handshake_expires_at),
            sig,
        ) {
            Some((ops, hs))
        } else {
            None
        },
        _ => None,
    }
}

/// The card's ops and handshake keys, if its handshake key is validly
/// signed by its ops key.
pub fn verified_card_keys(card: &ContactCard) -> (r: Result<([u8; 32], [u8; 32]), CardError>)
    ensures
        match card_keys(*card) {
            Some((ops, hs)) => r matches Ok((a, b)) && a@ == ops && b@ == hs,
            None => r is Err,
        },
        (hex_field(card.ops_pub@, 32) is Some && hex_field(card.handshake_pub@, 32) is Some
            && hex_field(card.handshake_sig@, 64) is Some && card_keys(*card) is None) ==> r == Err::<
            ([u8; 32], [u8; 32]),
            CardError,
        >(CardError::SignatureInvalid),
{
    let ops_pub = match parse_hex32(card.ops_pub.as_str(), "ops_pub") {
        Ok(k) => k,
        Err(e) => {
            return Err(CardError::Field(e));
        },
    };
    let hs_pub = match parse_hex32(card.handshake_pub.as_str(), "handshake_pub") {
        Ok(k) => k,
        Err(e) => {
            return Err(CardError::Field(e));
        },
    };
    let sig_msg = handshake_sig_message(&hs_pub, card.handshake_expires_at);
    let sig = match parse_hex64(card.handshake_sig.as_str(), "handshake_sig") {
        Ok(s) => s,
        Err(e) => {
            return Err(CardError::Field(e));
        },
    };
    if !PublicKey(ops_pub).verify(sig_msg.as_slice(), &sig) {
        return Err(CardError::SignatureInvalid);
    }
    Ok((ops_pub, hs_pub))
}

/// The public card of an identity.
pub fn contact_card_from_identity(identity: &IdentityFile) -> (c: ContactCard)
    ensures
        c.ops_pub == identity.ops_pub,
        c.handshake_pub == identity.handshake_pub,
        c.handshake_sig == identity.handshake_sig,
        c.handshake_expires_at == identity.handshake_expires_at,
{
    ContactCard {
        ops_pub: identity.ops_pub.clone(),
        handshake_pub: identity.handshake_pub.clone(),
        handshake_sig: identity.handshake_sig.clone(),
        handshake_expires_at: identity.handshake_expires_at,
    }
}

/// A length-prefixed text field: its UTF-8 length (8 bytes, LE), then its bytes.
pub open spec fn str_field(s: Seq<char>) -> Seq<u8> {
    le_bytes(encode_utf8(s).len(), 8) + encode_utf8(s)
}

/// Length-prefixed text fields, one after another.
pub open spec fn str_fields(ss: Seq<Seq<char>>) -> Seq<u8>
    decreases ss.len(),
{
    if ss.len() == 0 {
        Seq::empty()
    } else {
        str_fields(ss.drop_last()) + str_field(ss.last())
    }
}

/// A contact card's signed encoding.
pub open spec fn card_field(c: ContactCard) -> Seq<u8> {
    str_field(c.ops_pub@) + str_field(c.handshake_pub@) + str_field(c.handshake_sig@) + u64_le(c.handshake_expires_at)
}

/// A reply address's signed encoding: the relay count (8 bytes, LE), each
/// relay, then the mailbox.
pub open spec fn reply_field(r: AgentReplyTo) -> Seq<u8> {
    le_bytes(r.relays@.len(), 8) + str_fields(r.relays@.map_values(|s: String| s@)) + str_field(r.mailbox@)
}

/// What an envelope's signature covers: the signing domain, then every
/// field but the signature.
pub open spec fn signing_bytes(e: AgentEnvelopeV0) -> Seq<u8> {
    AGENT_ENVELOPE_SIGNING_DOMAIN@ + le_bytes(e.schema_version as nat, 2) + str_field(e.task_id@) + str_field(e.kind@)
        + card_field(e.from) + reply_field(e.reply_to) + u64_le(e.created_at) + u64_le(e.ttl) + str_field(e.body@)
}

/// Append a length-prefixed text field.
pub fn push_str(out: &mut Vec<u8>, value: &str)
    ensures
        final(out)@ == old(out)@ + str_field(value@),
{
    let b = value.as_bytes();
    append_le(out, b.len() as u64, 8);
    append_bytes(out, b);
}

/// Append a 16-bit value, little-endian.
pub fn push_u16(out: &mut Vec<u8>, value: u16)
    ensures
        final(out)@ == old(out)@ + le_bytes(value as nat, 2),
{
    append_le(out, value as u64, 2);
}

/// Append a 64-bit value, little-endian.
pub fn push_u64(out: &mut Vec<u8>, value: u64)
    ensures
        final(out)@ == old(out)@ + u64_le(value),
{
    append_u64_le(out, value);
}

/// Append a contact card's signed encoding.
pub fn push_contact_card(out: &mut Vec<u8>, card: &ContactCard)
    ensures
        final(out)@ == old(out)@ + card_field(*card),
{
    push_str(out, card.ops_pub.as_str());
    push_str(out, card.handshake_pub.as_str());
    push_str(out, card.handshake_sig.as_str());
    push_u64(out, card.handshake_expires_at);
    assert(out@ =~= old(out)@ + card_field(*card));
}

/// Append a reply address's signed encoding.
pub fn push_reply_to(out: &mut Vec<u8>, reply_to: &AgentReplyTo)
    ensures
        final(out)@ == old(out)@ + reply_field(*reply_to),
{
    let ghost texts = reply_to.relays@.map_values(|s: String| s@);
    append_le(out, reply_to.relays.len() as u64, 8);
    let ghost head = out@;
    let mut i: usize = 0;
    while i < reply_to.relays.len()
        invariant
            0 <= i <= reply_to.relays@.len(),
            texts == reply_to.relays@.map_values(|s: String| s@),
            out@ == head + str_fields(texts.subrange(0, i as int)),
        decreases reply_to.relays@.len() - i,
    {
        push_str(out, reply_to.relays[i].as_str());
        proof {
            let s = texts.subrange(0, i + 1);
            assert(s.drop_last() =~= texts.subrange(0, i as int));
            assert(s.last() == reply_to.relays@[i as int]@);
        }
        i += 1;
    }
    assert(texts.subrange(0, texts.len() as int) =~= texts);
    push_str(out, reply_to.mailbox.as_str());
    assert(out@ =~= old(out)@ + reply_field(*reply_to));
}

/// The bytes an envelope's signature covers.
pub fn agent_envelope_signing_bytes(envelope: &AgentEnvelopeV0) -> (out: Vec<u8>)
    ensures
        out@ == signing_bytes(*envelope),
{
    let mut out: Vec<u8> = Vec::new();
    append_bytes(&mut out, AGENT_ENVELOPE_SIGNING_DOMAIN.as_slice());
    push_u16(&mut out, envelope.schema_version);
    push_str(&mut out, envelope.task_id.as_str());
    push_str(&mut out, envelope.kind.as_str());
    push_contact_card(&mut out, &envelope.from);
    push_reply_to(&mut out, &envelope.reply_to);
    push_u64(&mut out, envelope.created_at);
    push_u64(&mut out, envelope.ttl);
    push_str(&mut out, envelope.body.as_str());
    assert(out@ =~= signing_bytes(*envelope));
    out
}

/// Sign a draft with the identity's operational key: schema version 1,
/// every draft field, and the hexadecimal Ed25519 signature of the signing
/// bytes. Refused when the identity's ops keys are not 32-byte hex.
pub fn build_agent_envelope(identity: &IdentityFile, draft: AgentEnvelopeDraft) -> (r: Result<AgentEnvelopeV0, FieldError>)
    ensures
        (hex_field(identity.ops_pub@, 32) is Some && hex_field(identity.ops_priv@, 32) is Some) <==> r is Ok,
        r matches Ok(e) ==> {
            &&& e.schema_version == AGENT_ENVELOPE_SCHEMA_VERSION
            &&& e.task_id == draft.task_id
            &&& e.kind == draft.kind
            &&& e.from == draft.from
            &&& e.reply_to == draft.reply_to
            &&& e.created_at == draft.created_at
            &&& e.ttl == draft.ttl
            &&& e.body == draft.body
            &&& e.sig@ == ascii_chars(hex_codes(spec_ed25519_sign(hex_field(identity.ops_priv@, 32).unwrap(), signing_bytes(e))))
        },
{
    let ops_pub = parse_hex32(identity.ops_pub.as_str(), "ops_pub")?;
    let ops_priv = parse_hex32(identity.ops_priv.as_str(), "ops_priv")?;
    let keypair = KeyPair { public: ops_pub, secret: ops_priv };
    let mut envelope = AgentEnvelopeV0 {
        schema_version: AGENT_ENVELOPE_SCHEMA_VERSION,
        task_id: draft.task_id,
        kind: draft.kind,
        from: draft.from,
        reply_to: draft.reply_to,
        created_at: draft.created_at,
        ttl: draft.ttl,
        body: draft.body,
        sig: String::new(),
    };
    let msg = agent_envelope_signing_bytes(&envelope);
    let sig = keypair.sign(msg.as_slice());
    envelope.sig = hex_encode(sig.as_slice());
    Ok(envelope)
}

/// Whether an envelope passes every receiver check but its time window:
/// schema 1, a lifetime of 1 to 86 400 seconds, a validly signed sender
/// card, and a signature by the sender's ops key over the signing bytes.
pub open spec fn envelope_valid(e: AgentEnvelopeV0) -> bool {
    &&& e.schema_version == AGENT_ENVELOPE_SCHEMA_VERSION
    &&& e.ttl != 0
    &&& e.ttl <= MAX_AGENT_ENVELOPE_TTL_SECS
    &&& card_keys(e.from) is Some
    &&& hex_field(e.sig@, 64) is Some
    &&& spec_ed25519_verify(card_keys(e.from).unwrap().0, signing_bytes(e), hex_field(e.sig@, 64).unwrap())
}

/// Check an envelope's schema, lifetime bound, sender card and signature.
pub fn verify_agent_envelope(envelope: &AgentEnvelopeV0) -> (r: Result<(), EnvelopeError>)
    ensures
        r is Ok <==> envelope_valid(*envelope),
        envelope.schema_version != AGENT_ENVELOPE_SCHEMA_VERSION ==> r == Err::<(), EnvelopeError>(
            EnvelopeError::UnsupportedSchema(envelope.schema_version),
        ),
        envelope.schema_version == AGENT_ENVELOPE_SCHEMA_VERSION && envelope.ttl == 0 ==> r == Err::<
            (),
            EnvelopeError,
        >(EnvelopeError::ZeroTtl),
        envelope.schema_version == AGENT_ENVELOPE_SCHEMA_VERSION && envelope.ttl
            > MAX_AGENT_ENVELOPE_TTL_SECS ==> r == Err::<(), EnvelopeError>(EnvelopeError::TtlTooLarge),
{
    if envelope.schema_version != AGENT_ENVELOPE_SCHEMA_VERSION {
        return Err(EnvelopeError::UnsupportedSchema(envelope.schema_version));
    }
    if envelope.ttl == 0 {
        return Err(EnvelopeError::ZeroTtl);
    }
    if envelope.ttl > MAX_AGENT_ENVELOPE_TTL_SECS {
        return Err(EnvelopeError::TtlTooLarge);
    }
    let (from_ops_pub, _hs) = match verified_card_keys(&envelope.from) {
        Ok(k) => k,
        Err(e) => {
            return Err(EnvelopeError::SenderCard(e));
        },
    };
    let sig = match parse_hex64(envelope.sig.as_str(), "sig") {
        Ok(s) => s,
        Err(e) => {
            return Err(EnvelopeError::Field(e));
        },
    };
    let msg = agent_envelope_signing_bytes(envelope);
    if !PublicKey(from_ops_pub).verify(msg.as_slice(), &sig) {
        return Err(EnvelopeError::SignatureInvalid);
    }
    Ok(())
}

/// The receiver's time verdict at `now`: invalid when created more than
/// 300 s in the future or when the expiry overflows; expired after
/// `created_at + ttl`; current until then.
pub open spec fn time_status(created_at: u64, ttl: u64, now: u64) -> Option<Option<u64>> {
    let limit: int = if now + MAX_AGENT_ENVELOPE_FUTURE_SKEW_SECS > u64::MAX {
        u64::MAX as int
    } else {
        now + MAX_AGENT_ENVELOPE_FUTURE_SKEW_SECS
    };
    if created_at > limit || created_at + ttl > u64::MAX {
        None
    } else if now > created_at + ttl {
        Some(None)
    } else {
        Some(Some((created_at + ttl) as u64))
    }
}

/// Where an envelope stands in time at `now` (receiver-enforced expiry).
pub fn agent_envelope_time_status(envelope: &AgentEnvelopeV0, now: u64) -> (s: AgentEnvelopeTimeStatus)
    ensures
        match time_status(envelope.created_at, envelope.ttl, now) {
            None => s is Invalid,
            Some(None) => s is Expired,
            Some(Some(t)) => s == AgentEnvelopeTimeStatus::Current { expires_at: t },
        },
{
    if envelope.created_at > now.saturating_add(MAX_AGENT_ENVELOPE_FUTURE_SKEW_SECS) {
        return AgentEnvelopeTimeStatus::Invalid(
            "agent envelope created_at is more than 300 seconds in the future".to_owned(),
        );
    }
    let expires_at = match envelope.created_at.checked_add(envelope.ttl) {
        Some(t) => t,
        None => {
            return AgentEnvelopeTimeStatus::Invalid("agent envelope expiry overflow".to_owned());
        },
    };
    if now > expires_at {
        AgentEnvelopeTimeStatus::Expired
    } else {
        AgentEnvelopeTimeStatus::Current { expires_at }
    }
}

/// An envelope is current exactly through the last second of its lifetime
/// and expired from the next one, whenever its creation time is not too
/// far ahead.
pub proof fn lemma_expiry_boundary(created_at: u64, ttl: u64, now: u64)
    requires
        created_at + ttl <= u64::MAX,
        created_at <= now,
    ensures
        now <= created_at + ttl ==> time_status(created_at, ttl, now) == Some(Some((created_at + ttl) as u64)),
        now > created_at + ttl ==> time_status(created_at, ttl, now) == Some(None::<u64>),
{
}

} // verus!
