//! The agent envelope's signing layout is unambiguous: the signed bytes
//! determine every field they cover, so no two envelopes that differ in a
//! signed field share a signature message.
use crate::agent::envelope::{card_field, reply_field, signing_bytes, str_field, str_fields, AgentEnvelopeV0, AgentReplyTo, ContactCard};
use crate::bytes::{le_bytes, lemma_le_bytes_injective, lemma_le_bytes_len, lemma_pow256_values, lemma_u64_le_roundtrip, u64_le};
use vstd::prelude::*;
use vstd::utf8::{encode_utf8, encode_utf8_decode_utf8};

verus! {

/// 2^64: the bound of an eight-byte length prefix.
pub open spec fn two_pow_64() -> nat {
    0x1_0000_0000_0000_0000
}

/// The UTF-8 length of a text fits its eight-byte length prefix.
pub open spec fn text_fits(s: Seq<char>) -> bool {
    encode_utf8(s).len() < two_pow_64()
}

/// Every text of an envelope, and its relay count, fit their length prefixes
/// (as the lengths of in-memory strings and vectors always do).
pub open spec fn envelope_fits(e: AgentEnvelopeV0) -> bool {
    &&& text_fits(e.task_id@)
    &&& text_fits(e.kind@)
    &&& text_fits(e.body@)
    &&& text_fits(e.from.ops_pub@)
    &&& text_fits(e.from.handshake_pub@)
    &&& text_fits(e.from.handshake_sig@)
    &&& text_fits(e.reply_to.mailbox@)
    &&& e.reply_to.relays@.len() < two_pow_64()
    &&& forall|i: int| 0 <= i < e.reply_to.relays@.len() ==> text_fits(#[trigger] e.reply_to.relays@[i]@)
}

/// Two concatenations with equal-length heads split alike.
proof fn lemma_cancel_prefix(a: Seq<u8>, r1: Seq<u8>, b: Seq<u8>, r2: Seq<u8>)
    requires
        a.len() == b.len(),
        a + r1 == b + r2,
    ensures
        a == b,
        r1 == r2,
{
    assert(a =~= (a + r1).subrange(0, a.len() as int));
    assert(b =~= (b + r2).subrange(0, b.len() as int));
    assert(r1 =~= (a + r1).subrange(a.len() as int, (a + r1).len() as int));
    assert(r2 =~= (b + r2).subrange(b.len() as int, (b + r2).len() as int));
}

/// Two eight-byte encodings followed by anything split alike.
proof fn lemma_u64_cancel(x: u64, r1: Seq<u8>, y: u64, r2: Seq<u8>)
    requires
        u64_le(x) + r1 == u64_le(y) + r2,
    ensures
        x == y,
        r1 == r2,
{
    lemma_u64_le_roundtrip(x);
    lemma_u64_le_roundtrip(y);
    lemma_cancel_prefix(u64_le(x), r1, u64_le(y), r2);
}

/// A length-prefixed text followed by anything splits alike.
proof fn lemma_str_field_cancel(s1: Seq<char>, r1: Seq<u8>, s2: Seq<char>, r2: Seq<u8>)
    requires
        text_fits(s1),
        text_fits(s2),
        str_field(s1) + r1 == str_field(s2) + r2,
    ensures
        s1 == s2,
        r1 == r2,
{
    let e1 = encode_utf8(s1);
    let e2 = encode_utf8(s2);
    lemma_le_bytes_len(e1.len(), 8);
    lemma_le_bytes_len(e2.len(), 8);
    assert(str_field(s1) + r1 =~= le_bytes(e1.len(), 8) + (e1 + r1));
    assert(str_field(s2) + r2 =~= le_bytes(e2.len(), 8) + (e2 + r2));
    lemma_cancel_prefix(le_bytes(e1.len(), 8), e1 + r1, le_bytes(e2.len(), 8), e2 + r2);
    lemma_pow256_values();
    lemma_le_bytes_injective(e1.len(), e2.len(), 8);
    lemma_cancel_prefix(e1, r1, e2, r2);
    encode_utf8_decode_utf8(s1);
    encode_utf8_decode_utf8(s2);
}

/// Length-prefixed texts, read from the front.
proof fn lemma_str_fields_front(ss: Seq<Seq<char>>)
    requires
        ss.len() > 0,
    ensures
        str_fields(ss) == str_field(ss[0]) + str_fields(ss.drop_first()),
    decreases ss.len(),
{
    if ss.len() == 1 {
        assert(ss.drop_last().len() == 0);
        assert(ss.drop_first().len() == 0);
        assert(str_fields(ss.drop_last()) == Seq::<u8>::empty());
        assert(str_fields(ss.drop_first()) == Seq::<u8>::empty());
        assert(ss.last() == ss[0]);
        assert(str_fields(ss) =~= str_field(ss[0]) + str_fields(ss.drop_first()));
    } else {
        lemma_str_fields_front(ss.drop_last());
        assert(ss.drop_last().drop_first() =~= ss.drop_first().drop_last());
        assert(ss.drop_first().last() == ss.last());
        assert(ss.drop_last()[0] == ss[0]);
        assert(str_fields(ss) =~= str_field(ss[0]) + str_fields(ss.drop_first()));
    }
}

/// Equally many length-prefixed texts followed by anything split alike.
proof fn lemma_str_fields_cancel(ss1: Seq<Seq<char>>, r1: Seq<u8>, ss2: Seq<Seq<char>>, r2: Seq<u8>)
    requires
        ss1.len() == ss2.len(),
        forall|i: int| 0 <= i < ss1.len() ==> text_fits(#[trigger] ss1[i]),
        forall|i: int| 0 <= i < ss2.len() ==> text_fits(#[trigger] ss2[i]),
        str_fields(ss1) + r1 == str_fields(ss2) + r2,
    ensures
        ss1 == ss2,
        r1 == r2,
    decreases ss1.len(),
{
    if ss1.len() == 0 {
        assert(str_fields(ss1) + r1 =~= r1);
        assert(str_fields(ss2) + r2 =~= r2);
        assert(ss1 =~= ss2);
    } else {
        lemma_str_fields_front(ss1);
        lemma_str_fields_front(ss2);
        let t1 = str_fields(ss1.drop_first()) + r1;
        let t2 = str_fields(ss2.drop_first()) + r2;
        assert(str_fields(ss1) + r1 =~= str_field(ss1[0]) + t1);
        assert(str_fields(ss2) + r2 =~= str_field(ss2[0]) + t2);
        assert(text_fits(ss1[0]));
        assert(text_fits(ss2[0]));
        lemma_str_field_cancel(ss1[0], t1, ss2[0], t2);
        assert forall|i: int| 0 <= i < ss1.drop_first().len() implies text_fits(#[trigger] ss1.drop_first()[i]) by {
            assert(text_fits(ss1[i + 1]));
        }
        assert forall|i: int| 0 <= i < ss2.drop_first().len() implies text_fits(#[trigger] ss2.drop_first()[i]) by {
            assert(text_fits(ss2[i + 1]));
        }
        lemma_str_fields_cancel(ss1.drop_first(), r1, ss2.drop_first(), r2);
        assert(ss1 =~= ss2) by {
            assert forall|i: int| 0 <= i < ss1.len() implies ss1[i] == ss2[i] by {
                if i > 0 {
                    assert(ss1[i] == ss1.drop_first()[i - 1]);
                    assert(ss2[i] == ss2.drop_first()[i - 1]);
                }
            }
        }
    }
}

/// The texts of a relay list.
pub open spec fn relay_texts(relays: Seq<String>) -> Seq<Seq<char>> {
    relays.map_values(|s: String| s@)
}

/// Concatenation is associative.
proof fn lemma_assoc(a: Seq<u8>, b: Seq<u8>, c: Seq<u8>)
    ensures
        (a + b) + c == a + (b + c),
{
    assert((a + b) + c =~= a + (b + c));
}

/// A sender card's encoding followed by anything splits alike.
proof fn lemma_card_cancel(c1: ContactCard, a1: Seq<u8>, c2: ContactCard, a2: Seq<u8>)
    requires
        text_fits(c1.ops_pub@),
        text_fits(c1.handshake_pub@),
        text_fits(c1.handshake_sig@),
        text_fits(c2.ops_pub@),
        text_fits(c2.handshake_pub@),
        text_fits(c2.handshake_sig@),
        card_field(c1) + a1 == card_field(c2) + a2,
    ensures
        c1.ops_pub@ == c2.ops_pub@,
        c1.handshake_pub@ == c2.handshake_pub@,
        c1.handshake_sig@ == c2.handshake_sig@,
        c1.handshake_expires_at == c2.handshake_expires_at,
        a1 == a2,
{
    let (o1, h1, g1, u1) = (str_field(c1.ops_pub@), str_field(c1.handshake_pub@), str_field(c1.handshake_sig@), u64_le(c1.handshake_expires_at));
    let (o2, h2, g2, u2) = (str_field(c2.ops_pub@), str_field(c2.handshake_pub@), str_field(c2.handshake_sig@), u64_le(c2.handshake_expires_at));
    lemma_assoc((o1 + h1) + g1, u1, a1);
    lemma_assoc(o1 + h1, g1, u1 + a1);
    lemma_assoc(o1, h1, g1 + (u1 + a1));
    lemma_assoc((o2 + h2) + g2, u2, a2);
    lemma_assoc(o2 + h2, g2, u2 + a2);
    lemma_assoc(o2, h2, g2 + (u2 + a2));
    lemma_str_field_cancel(c1.ops_pub@, h1 + (g1 + (u1 + a1)), c2.ops_pub@, h2 + (g2 + (u2 + a2)));
    lemma_str_field_cancel(c1.handshake_pub@, g1 + (u1 + a1), c2.handshake_pub@, g2 + (u2 + a2));
    lemma_str_field_cancel(c1.handshake_sig@, u1 + a1, c2.handshake_sig@, u2 + a2);
    lemma_u64_cancel(c1.handshake_expires_at, a1, c2.handshake_expires_at, a2);
}

/// A reply address's encoding followed by anything splits alike.
proof fn lemma_reply_cancel(r1: AgentReplyTo, a1: Seq<u8>, r2: AgentReplyTo, a2: Seq<u8>)
    requires
        text_fits(r1.mailbox@),
        text_fits(r2.mailbox@),
        r1.relays@.len() < two_pow_64(),
        r2.relays@.len() < two_pow_64(),
        forall|i: int| 0 <= i < r1.relays@.len() ==> text_fits(#[trigger] r1.relays@[i]@),
        forall|i: int| 0 <= i < r2.relays@.len() ==> text_fits(#[trigger] r2.relays@[i]@),
        reply_field(r1) + a1 == reply_field(r2) + a2,
    ensures
        relay_texts(r1.relays@) == relay_texts(r2.relays@),
        r1.mailbox@ == r2.mailbox@,
        a1 == a2,
{
    lemma_pow256_values();
    let n1 = r1.relays@.len();
    let n2 = r2.relays@.len();
    let ts1 = relay_texts(r1.relays@);
    let ts2 = relay_texts(r2.relays@);
    let (l1, f1, m1) = (le_bytes(n1, 8), str_fields(ts1), str_field(r1.mailbox@));
    let (l2, f2, m2) = (le_bytes(n2, 8), str_fields(ts2), str_field(r2.mailbox@));
    lemma_assoc(l1 + f1, m1, a1);
    lemma_assoc(l1, f1, m1 + a1);
    lemma_assoc(l2 + f2, m2, a2);
    lemma_assoc(l2, f2, m2 + a2);
    lemma_le_bytes_len(n1, 8);
    lemma_le_bytes_len(n2, 8);
    lemma_cancel_prefix(l1, f1 + (m1 + a1), l2, f2 + (m2 + a2));
    lemma_le_bytes_injective(n1, n2, 8);
    assert forall|i: int| 0 <= i < ts1.len() implies text_fits(#[trigger] ts1[i]) by {
        assert(text_fits(r1.relays@[i]@));
    }
    assert forall|i: int| 0 <= i < ts2.len() implies text_fits(#[trigger] ts2[i]) by {
        assert(text_fits(r2.relays@[i]@));
    }
    lemma_str_fields_cancel(ts1, m1 + a1, ts2, m2 + a2);
    lemma_str_field_cancel(r1.mailbox@, a1, r2.mailbox@, a2);
}

/// The closing fields: creation time, lifetime and body.
proof fn lemma_tail_cancel(e1: AgentEnvelopeV0, e2: AgentEnvelopeV0)
    requires
        text_fits(e1.body@),
        text_fits(e2.body@),
        u64_le(e1.created_at) + (u64_le(e1.ttl) + str_field(e1.body@)) == u64_le(e2.created_at) + (u64_le(e2.ttl)
            + str_field(e2.body@)),
    ensures
        e1.created_at == e2.created_at,
        e1.ttl == e2.ttl,
        e1.body@ == e2.body@,
{
    lemma_u64_cancel(e1.created_at, u64_le(e1.ttl) + str_field(e1.body@), e2.created_at, u64_le(e2.ttl) + str_field(e2.body@));
    lemma_u64_cancel(e1.ttl, str_field(e1.body@), e2.ttl, str_field(e2.body@));
    assert(str_field(e1.body@) + Seq::<u8>::empty() =~= str_field(e1.body@));
    assert(str_field(e2.body@) + Seq::<u8>::empty() =~= str_field(e2.body@));
    lemma_str_field_cancel(e1.body@, Seq::empty(), e2.body@, Seq::empty());
}

/// An envelope's signing bytes, read from the front: the domain, the
/// version, then the fields each followed by all the rest.
proof fn lemma_signing_bytes_front(e: AgentEnvelopeV0)
    ensures
        signing_bytes(e) == crate::agent::envelope::AGENT_ENVELOPE_SIGNING_DOMAIN@ + (le_bytes(e.schema_version as nat, 2) + (
        str_field(e.task_id@) + (str_field(e.kind@) + (card_field(e.from) + (reply_field(e.reply_to) + (u64_le(e.created_at)
            + (u64_le(e.ttl) + str_field(e.body@)))))))),
{
    let d = crate::agent::envelope::AGENT_ENVELOPE_SIGNING_DOMAIN@;
    let v = le_bytes(e.schema_version as nat, 2);
    let (st, sk, cf, rf) = (str_field(e.task_id@), str_field(e.kind@), card_field(e.from), reply_field(e.reply_to));
    let (uc, ut, sb) = (u64_le(e.created_at), u64_le(e.ttl), str_field(e.body@));
    let t3 = uc + (ut + sb);
    lemma_assoc(((((((d + v) + st) + sk) + cf) + rf) + uc), ut, sb);
    lemma_assoc((((((d + v) + st) + sk) + cf) + rf), uc, ut + sb);
    lemma_assoc(((((d + v) + st) + sk) + cf), rf, t3);
    lemma_assoc((((d + v) + st) + sk), cf, rf + t3);
    lemma_assoc(((d + v) + st), sk, cf + (rf + t3));
    lemma_assoc((d + v), st, sk + (cf + (rf + t3)));
    lemma_assoc(d, v, st + (sk + (cf + (rf + t3))));
}

/// The signature message of an agent envelope determines every field it
/// covers: envelopes whose signing bytes coincide carry the same schema
/// version, task, kind, sender card, reply address, creation time, lifetime
/// and body. A signature over one envelope therefore speaks for no envelope
/// that differs from it in any of those fields.
pub proof fn lemma_signing_bytes_determine_fields(e1: AgentEnvelopeV0, e2: AgentEnvelopeV0)
    requires
        envelope_fits(e1),
        envelope_fits(e2),
        signing_bytes(e1) == signing_bytes(e2),
    ensures
        e1.schema_version == e2.schema_version,
        e1.task_id@ == e2.task_id@,
        e1.kind@ == e2.kind@,
        e1.from.ops_pub@ == e2.from.ops_pub@,
        e1.from.handshake_pub@ == e2.from.handshake_pub@,
        e1.from.handshake_sig@ == e2.from.handshake_sig@,
        e1.from.handshake_expires_at == e2.from.handshake_expires_at,
        relay_texts(e1.reply_to.relays@) == relay_texts(e2.reply_to.relays@),
        e1.reply_to.mailbox@ == e2.reply_to.mailbox@,
        e1.created_at == e2.created_at,
        e1.ttl == e2.ttl,
        e1.body@ == e2.body@,
{
    lemma_pow256_values();
    lemma_signing_bytes_front(e1);
    lemma_signing_bytes_front(e2);
    let d = crate::agent::envelope::AGENT_ENVELOPE_SIGNING_DOMAIN@;
    let tail1 = u64_le(e1.created_at) + (u64_le(e1.ttl) + str_field(e1.body@));
    let tail2 = u64_le(e2.created_at) + (u64_le(e2.ttl) + str_field(e2.body@));
    let after1 = reply_field(e1.reply_to) + tail1;
    let after2 = reply_field(e2.reply_to) + tail2;
    let rest1 = card_field(e1.from) + after1;
    let rest2 = card_field(e2.from) + after2;
    let mid1 = str_field(e1.task_id@) + (str_field(e1.kind@) + rest1);
    let mid2 = str_field(e2.task_id@) + (str_field(e2.kind@) + rest2);
    let v1 = le_bytes(e1.schema_version as nat, 2);
    let v2 = le_bytes(e2.schema_version as nat, 2);
    lemma_cancel_prefix(d, v1 + mid1, d, v2 + mid2);
    lemma_le_bytes_len(e1.schema_version as nat, 2);
    lemma_le_bytes_len(e2.schema_version as nat, 2);
    lemma_cancel_prefix(v1, mid1, v2, mid2);
    lemma_le_bytes_injective(e1.schema_version as nat, e2.schema_version as nat, 2);
    lemma_str_field_cancel(e1.task_id@, str_field(e1.kind@) + rest1, e2.task_id@, str_field(e2.kind@) + rest2);
    lemma_str_field_cancel(e1.kind@, rest1, e2.kind@, rest2);
    lemma_card_cancel(e1.from, after1, e2.from, after2);
    lemma_reply_cancel(e1.reply_to, tail1, e2.reply_to, tail2);
    lemma_tail_cancel(e1, e2);
}

} // verus!
