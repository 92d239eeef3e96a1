//! Corridor vitality: discrete states and the relationship-scoped store of
//! reaffirmation timestamps.
use crate::byte_map::ByteMap;
use crate::wire_format::constants::{
    VITALITY_ACTIVE, VITALITY_BURNED, VITALITY_DORMANT, VITALITY_SEVERED, VITALITY_SUSPENDED, VITALITY_WARM,
};
use vstd::prelude::*;

verus! {

/// The vitality state of a cryptographic corridor.
///
/// Vitality is probabilistic and non-binary; these states represent
/// discretized bands of the V(t,i,r,p) function output.
#[derive(Debug, Clone, PartialEq, Eq, Structural)]
pub enum VitalityState {
    /// High vitality — recent, reciprocal exchange.
    Active,
    /// Stable low-frequency trust — corridor is healthy but quiet.
    Warm,
    /// Cooling — no recent exchange; reaffirmation suggested.
    Dormant,
    /// Reduced visibility — contact suspended by one party.
    Suspended,
    /// Explicit revocation — corridor formally closed.
    Severed,
    /// Security distrust — cryptographic incident detected.
    Burned,
}

/// The states through which communication is permitted.
pub open spec fn spec_is_open(v: VitalityState) -> bool {
    v is Active || v is Warm || v is Dormant
}

/// The protocol-stable wire byte of each state
/// (0=Active 1=Warm 2=Dormant 3=Suspended 4=Severed 5=Burned).
pub open spec fn spec_vitality_byte(v: VitalityState) -> u8 {
    match v {
        VitalityState::Active => 0,
        VitalityState::Warm => 1,
        VitalityState::Dormant => 2,
        VitalityState::Suspended => 3,
        VitalityState::Severed => 4,
        VitalityState::Burned => 5,
    }
}

impl VitalityState {
    /// Returns true if any communication is permitted through this corridor.
    pub fn is_open(&self) -> (b: bool)
        ensures
            b == spec_is_open(*self),
            b <==> !(*self is Suspended || *self is Severed || *self is Burned),
            b <==> spec_vitality_byte(*self) < 3,
    {
        match self {
            VitalityState::Active | VitalityState::Warm | VitalityState::Dormant => true,
            _ => false,
        }
    }
}

/// The wire byte of a vitality state.
pub fn vitality_to_byte(v: &VitalityState) -> (b: u8)
    ensures
        b == spec_vitality_byte(*v),
{
    match v {
        VitalityState::Active => 0,
        VitalityState::Warm => 1,
        VitalityState::Dormant => 2,
        VitalityState::Suspended => 3,
        VitalityState::Severed => 4,
        VitalityState::Burned => 5,
    }
}

/// The vitality state carried by a wire byte, if the byte is one of the six.
pub fn vitality_from_byte(b: u8) -> (v: Option<VitalityState>)
    ensures
        match v {
            Some(s) => spec_vitality_byte(s) == b,
            None => b > 5,
        },
{
    match b {
        0 => Some(VitalityState::Active),
        1 => Some(VitalityState::Warm),
        2 => Some(VitalityState::Dormant),
        3 => Some(VitalityState::Suspended),
        4 => Some(VitalityState::Severed),
        5 => Some(VitalityState::Burned),
        _ => None,
    }
}

/// The open corridors are exactly the three highest vitality bands: a state
/// is open precisely when its wire byte is below that of `Suspended`, so
/// `Suspended`, `Severed` and `Burned` are closed and `Active`, `Warm` and
/// `Dormant` open.
pub proof fn lemma_open_states(v: VitalityState)
    ensures
        spec_is_open(v) <==> spec_vitality_byte(v) < 3,
        !spec_is_open(VitalityState::Suspended),
        !spec_is_open(VitalityState::Severed),
        !spec_is_open(VitalityState::Burned),
        spec_is_open(VitalityState::Active),
        spec_is_open(VitalityState::Warm),
        spec_is_open(VitalityState::Dormant),
{
}

/// Each state's wire byte is the protocol constant of that state.
pub proof fn lemma_vitality_bytes_are_the_protocol_constants()
    ensures
        spec_vitality_byte(VitalityState::Active) == VITALITY_ACTIVE,
        spec_vitality_byte(VitalityState::Warm) == VITALITY_WARM,
        spec_vitality_byte(VitalityState::Dormant) == VITALITY_DORMANT,
        spec_vitality_byte(VitalityState::Suspended) == VITALITY_SUSPENDED,
        spec_vitality_byte(VitalityState::Severed) == VITALITY_SEVERED,
        spec_vitality_byte(VitalityState::Burned) == VITALITY_BURNED,
{
}

/// Distinct states have distinct wire bytes, and decoding a state's byte
/// gives the state back.
pub proof fn lemma_vitality_byte_injective(a: VitalityState, b: VitalityState)
    ensures
        spec_vitality_byte(a) == spec_vitality_byte(b) ==> a == b,
        spec_vitality_byte(a) <= 5,
{
}

/// Relationship-scoped store for vitality reaffirmation timestamps.
///
/// Keyed by bilateral consent hash (`tunnel_consent_hash(party_a, party_b)`).
/// The store is the sole source of truth for elapsed-time computation; nothing
/// else — sends, receives, or queries — updates the stored timestamp.
pub struct VitalityEvidenceStore {
    evidence: ByteMap<u64>,
}

impl View for VitalityEvidenceStore {
    type V = Map<Seq<u8>, u64>;

    closed spec fn view(&self) -> Map<Seq<u8>, u64> {
        self.evidence@
    }
}

impl VitalityEvidenceStore {
    /// The store's internal map is well formed.
    pub closed spec fn wf(&self) -> bool {
        self.evidence.wf()
    }

    pub fn new() -> (s: Self)
        ensures
            s.wf(),
            s@ == Map::<Seq<u8>, u64>::empty(),
    {
        VitalityEvidenceStore { evidence: ByteMap::new() }
    }

    /// Establish vitality evidence for a new bilateral consent relationship.
    ///
    /// Returns `true` on first call for `consent_hash`. Returns `false` if
    /// evidence already exists — the stored timestamp is never overwritten.
    pub fn initialize_at(&mut self, consent_hash: [u8; 32], established_at: u64) -> (fresh: bool)
        requires
            old(self).wf(),
        ensures
            final(self).wf(),
            fresh == !old(self)@.dom().contains(consent_hash@),
            fresh ==> final(self)@ == old(self)@.insert(consent_hash@, established_at),
            !fresh ==> final(self)@ == old(self)@,
    {
        if self.evidence.contains_key(&consent_hash) {
            return false;
        }
        self.evidence.insert(consent_hash, established_at);
        true
    }

    /// Record an explicit bilateral reaffirmation for an initialized relationship.
    ///
    /// Returns `true` on success. Returns `false` if `consent_hash` has no
    /// initialized evidence — no record is created and no state changes.
    pub fn record_reaffirmation(&mut self, consent_hash: [u8; 32], now: u64) -> (ok: bool)
        requires
            old(self).wf(),
        ensures
            final(self).wf(),
            ok == old(self)@.dom().contains(consent_hash@),
            ok ==> final(self)@ == old(self)@.insert(consent_hash@, now),
            !ok ==> final(self)@ == old(self)@,
    {
        if !self.evidence.contains_key(&consent_hash) {
            return false;
        }
        self.evidence.insert(consent_hash, now);
        true
    }

    /// The last reaffirmation time on record for `consent_hash`, if the
    /// relationship was initialized.
    pub fn last_reaffirmed_at(&self, consent_hash: &[u8; 32]) -> (t: Option<u64>)
        requires
            self.wf(),
        ensures
            match t {
                Some(v) => self@.dom().contains(consent_hash@) && self@[consent_hash@] == v,
                None => !self@.dom().contains(consent_hash@),
            },
    {
        match self.evidence.get(consent_hash) {
            Some(v) => Some(*v),
            None => None,
        }
    }

    /// Seconds elapsed since the last reaffirmation of `consent_hash` at time
    /// `now` (zero when `now` precedes it), or `None` for an unknown
    /// relationship, which callers treat as closed.
    pub fn elapsed_since_reaffirmation(&self, consent_hash: &[u8; 32], now: u64) -> (t: Option<u64>)
        requires
            self.wf(),
        ensures
            match t {
                Some(v) => self@.dom().contains(consent_hash@) && v == (if now >= self@[consent_hash@] {
                    now - self@[consent_hash@]
                } else {
                    0
                }),
                None => !self@.dom().contains(consent_hash@),
            },
    {
        match self.evidence.get(consent_hash) {
            Some(last) => Some(now.saturating_sub(*last)),
            None => None,
        }
    }

    /// The input a state computation for `consent_hash` at `now` starts
    /// from: the seconds elapsed since the last reaffirmation (zero when
    /// `now` precedes it), or, failing closed, `Suspended` for a
    /// relationship with no evidence.
    pub fn elapsed_or_suspended(&self, consent_hash: &[u8; 32], now: u64) -> (r: Result<u64, VitalityState>)
        requires
            self.wf(),
        ensures
            !self@.dom().contains(consent_hash@) ==> r == Err::<u64, VitalityState>(VitalityState::Suspended),
            self@.dom().contains(consent_hash@) ==> r == Ok::<u64, VitalityState>(
                if now >= self@[consent_hash@] {
                    (now - self@[consent_hash@]) as u64
                } else {
                    0
                },
            ),
    {
        match self.elapsed_since_reaffirmation(consent_hash, now) {
            Some(t) => Ok(t),
            None => Err(VitalityState::Suspended),
        }
    }
}

impl Default for VitalityEvidenceStore {
    fn default() -> (s: Self)
        ensures
            s.wf(),
            s@ == Map::<Seq<u8>, u64>::empty(),
    {
        Self::new()
    }
}

} // verus!
