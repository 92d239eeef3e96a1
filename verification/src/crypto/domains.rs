//! SCP protocol domain separation labels.
use vstd::prelude::*;

verus! {

/// SCP protocol domain separation labels.
///
/// Every hash, key derivation, and signing operation goes through
/// `scp_derive_key` with the relevant DomainLabel, so key material derived
/// under one label cannot be confused with material derived under another.
#[derive(Debug, Clone, Copy, PartialEq, Eq, Structural)]
pub enum DomainLabel {
    Transport,
    Recovery,
    Relay,
    Vitality,
    /// Used when hashing FlashTranscript objects for key derivation input.
    Transcript,
    /// Tunnel consent hash.
    Tunnel,
}

/// The protocol-stable context string of each label.
pub open spec fn domain_context(d: DomainLabel) -> Seq<char> {
    match d {
        DomainLabel::Transport => "scp:transport:v1:"@,
        DomainLabel::Recovery => "scp:recovery:v1:"@,
        DomainLabel::Relay => "scp:relay:v1:"@,
        DomainLabel::Vitality => "scp:vitality:v1:"@,
        DomainLabel::Transcript => "scp:transcript:v1:"@,
        DomainLabel::Tunnel => "scp:tunnel:v1:"@,
    }
}

/// The 32-byte BLAKE3 key derived under `context` from `key_material`
/// (`blake3::derive_key`).
pub uninterp spec fn spec_blake3_derive_key(context: Seq<char>, key_material: Seq<u8>) -> Seq<u8>;

impl DomainLabel {
    /// Returns the canonical context string passed to BLAKE3 `derive_key`.
    ///
    /// These strings are protocol-stable: they must never change after deployment.
    pub fn as_context(&self) -> (ctx: &'static str)
        ensures
            ctx@ == domain_context(*self),
    {
        match self {
            DomainLabel::Transport => "scp:transport:v1:",
            DomainLabel::Recovery => "scp:recovery:v1:",
            DomainLabel::Relay => "scp:relay:v1:",
            DomainLabel::Vitality => "scp:vitality:v1:",
            DomainLabel::Transcript => "scp:transcript:v1:",
            DomainLabel::Tunnel => "scp:tunnel:v1:",
        }
    }
}

/// Calls `blake3::derive_key(context, key_material)`. Trusted: the result is
/// the BLAKE3 derive-key output, a function of the context string and the
/// key material alone.
#[verifier::external_body]
fn blake3_derive_key(context: &str, key_material: &[u8]) -> (key: [u8; 32])
    ensures
        key@ == spec_blake3_derive_key(context@, key_material@),
{
    blake3::derive_key(context, key_material)
}

/// Domain-separated key derivation — the canonical entrypoint for all SCP key material.
pub fn scp_derive_key(domain: DomainLabel, key_material: &[u8]) -> (key: [u8; 32])
    ensures
        key@ == spec_blake3_derive_key(domain_context(domain), key_material@),
{
    blake3_derive_key(domain.as_context(), key_material)
}

/// Distinct labels carry distinct context strings, so derivations under two
/// labels never share a BLAKE3 context.
pub proof fn lemma_domain_contexts_distinct(a: DomainLabel, b: DomainLabel)
    requires
        a != b,
    ensures
        domain_context(a) != domain_context(b),
{
    reveal_strlit("scp:transport:v1:");
    reveal_strlit("scp:recovery:v1:");
    reveal_strlit("scp:relay:v1:");
    reveal_strlit("scp:vitality:v1:");
    reveal_strlit("scp:transcript:v1:");
    reveal_strlit("scp:tunnel:v1:");
    let ca = domain_context(a);
    let cb = domain_context(b);
    if ca.len() == cb.len() {
        assert(ca[4] != cb[4] || ca[5] != cb[5]);
    }
}

// ── Backwards-compatible byte constants ────────────────────────────────────
/// "scp:transport:v1:"
pub const SCP_DOMAIN_TRANSPORT: [u8; 17] = [
    0x73u8, 0x63, 0x70, 0x3a, 0x74, 0x72, 0x61, 0x6e, 0x73, 0x70, 0x6f, 0x72, 0x74, 0x3a, 0x76,
    0x31, 0x3a,
];

/// "scp:relay:v1:"
pub const SCP_DOMAIN_RELAY: [u8; 13] = [
    0x73u8, 0x63, 0x70, 0x3a, 0x72, 0x65, 0x6c, 0x61, 0x79, 0x3a, 0x76, 0x31, 0x3a,
];

/// "scp:recovery:v1:"
pub const SCP_DOMAIN_RECOVERY: [u8; 16] = [
    0x73u8, 0x63, 0x70, 0x3a, 0x72, 0x65, 0x63, 0x6f, 0x76, 0x65, 0x72, 0x79, 0x3a, 0x76, 0x31,
    0x3a,
];

/// "scp:vitality:v1:"
pub const SCP_DOMAIN_VITALITY: [u8; 16] = [
    0x73u8, 0x63, 0x70, 0x3a, 0x76, 0x69, 0x74, 0x61, 0x6c, 0x69, 0x74, 0x79, 0x3a, 0x76, 0x31,
    0x3a,
];

/// "scp:tunnel:v1:"
pub const SCP_DOMAIN_TUNNEL: [u8; 14] = [
    0x73u8, 0x63, 0x70, 0x3a, 0x74, 0x75, 0x6e, 0x6e, 0x65, 0x6c, 0x3a, 0x76, 0x31, 0x3a,
];

} // verus!
