//! Per-provider equivocation records by semantic class.
use crate::byte_map::ByteMap;
use crate::transport::quorum::EquivocationEvidence;
use vstd::prelude::*;

verus! {

/// The semantic class of a state claim.
#[derive(Debug, Clone, Copy, PartialEq, Eq, Hash, Structural)]
pub enum SemanticClassId {
    Monotonic,
    SoftState,
    ConsensusRelevant,
}

/// A provider's equivocation record in one semantic class.
#[derive(Debug, Clone, Copy, PartialEq, Eq, Structural)]
pub struct ClassReputation {
    pub equivocations: u32,
    pub last_equivocation_at: u64,
}

impl Default for ClassReputation {
    fn default() -> (r: Self)
        ensures
            r == (ClassReputation { equivocations: 0, last_equivocation_at: 0 }),
    {
        ClassReputation { equivocations: 0, last_equivocation_at: 0 }
    }
}

/// Equivocation records by provider and semantic class, with an optional
/// half-life for decayed weights.
pub struct ProviderReputation {
    monotonic: ByteMap<ClassReputation>,
    soft_state: ByteMap<ClassReputation>,
    consensus_relevant: ByteMap<ClassReputation>,
    half_life_secs: Option<u64>,
}

/// The record of `provider_id` in a class map, zero when absent.
pub open spec fn record_in(m: Map<Seq<u8>, ClassReputation>, provider_id: Seq<u8>) -> ClassReputation {
    if m.contains_key(provider_id) {
        m[provider_id]
    } else {
        ClassReputation { equivocations: 0, last_equivocation_at: 0 }
    }
}

/// The class map after one equivocation by `id` recorded at `now`.
pub open spec fn bumped(m: Map<Seq<u8>, ClassReputation>, id: Seq<u8>, now: u64) -> Map<Seq<u8>, ClassReputation> {
    m.insert(
        id,
        ClassReputation { equivocations: (record_in(m, id).equivocations + 1) as u32, last_equivocation_at: now },
    )
}

impl ProviderReputation {
    pub closed spec fn wf(&self) -> bool {
        &&& self.monotonic.wf()
        &&& self.soft_state.wf()
        &&& self.consensus_relevant.wf()
    }

    /// Recording `evidence` does not overflow either provider's count.
    pub open spec fn has_room_for(&self, evidence: EquivocationEvidence) -> bool {
        let a = self.spec_query(evidence.provider_a_id@, SemanticClassId::ConsensusRelevant).equivocations;
        let b = self.spec_query(evidence.provider_b_id@, SemanticClassId::ConsensusRelevant).equivocations;
        if evidence.provider_a_id@ == evidence.provider_b_id@ {
            a + 2 <= u32::MAX
        } else {
            a < u32::MAX && b < u32::MAX
        }
    }

    /// The configured decay half-life in seconds, if any.
    pub closed spec fn spec_half_life(&self) -> Option<u64> {
        self.half_life_secs
    }

    /// The configured decay half-life in seconds, if any.
    pub fn half_life_secs(&self) -> (h: Option<u64>)
        ensures
            h == self.spec_half_life(),
    {
        self.half_life_secs
    }

    /// Configure (or clear) the decay half-life.
    pub fn set_half_life_secs(&mut self, h: Option<u64>)
        ensures
            final(self).spec_half_life() == h,
            final(self).wf() == old(self).wf(),
            forall|c: SemanticClassId| #[trigger] final(self).class_map(c) == old(self).class_map(c),
    {
        self.half_life_secs = h;
    }

    /// The class map of `class`.
    pub closed spec fn class_map(&self, class: SemanticClassId) -> Map<Seq<u8>, ClassReputation> {
        match class {
            SemanticClassId::Monotonic => self.monotonic@,
            SemanticClassId::SoftState => self.soft_state@,
            SemanticClassId::ConsensusRelevant => self.consensus_relevant@,
        }
    }

    /// The record of `provider_id` in `class` (zero when never recorded).
    pub open spec fn spec_query(&self, provider_id: Seq<u8>, class: SemanticClassId) -> ClassReputation {
        record_in(self.class_map(class), provider_id)
    }

    pub fn new() -> (r: Self)
        ensures
            r.wf(),
            r.spec_half_life() is None,
            forall|c: SemanticClassId| #[trigger] r.class_map(c) == Map::<Seq<u8>, ClassReputation>::empty(),
    {
        ProviderReputation {
            monotonic: ByteMap::new(),
            soft_state: ByteMap::new(),
            consensus_relevant: ByteMap::new(),
            half_life_secs: None,
        }
    }

    /// Both providers of the evidence get one more consensus-relevant
    /// equivocation, stamped `now` (a provider named twice gets two).
    pub fn record_equivocation_at(&mut self, evidence: &EquivocationEvidence, now: u64)
        requires
            old(self).wf(),
            old(self).has_room_for(*evidence),
        ensures
            final(self).wf(),
            final(self).spec_half_life() == old(self).spec_half_life(),
            final(self).class_map(SemanticClassId::ConsensusRelevant) == bumped(
                bumped(old(self).class_map(SemanticClassId::ConsensusRelevant), evidence.provider_a_id@, now),
                evidence.provider_b_id@,
                now,
            ),
            final(self).class_map(SemanticClassId::Monotonic) == old(self).class_map(SemanticClassId::Monotonic),
            final(self).class_map(SemanticClassId::SoftState) == old(self).class_map(SemanticClassId::SoftState),
    {
        self.bump(&evidence.provider_a_id, now);
        self.bump(&evidence.provider_b_id, now);
    }

    fn bump(&mut self, id: &[u8; 32], now: u64)
        requires
            old(self).wf(),
            record_in(old(self).consensus_relevant@, id@).equivocations < u32::MAX,
        ensures
            final(self).wf(),
            final(self).spec_half_life() == old(self).spec_half_life(),
            final(self).consensus_relevant@ == bumped(old(self).consensus_relevant@, id@, now),
            final(self).monotonic@ == old(self).monotonic@,
            final(self).soft_state@ == old(self).soft_state@,
    {
        let count = match self.consensus_relevant.get(id) {
            Some(r) => r.equivocations,
            None => 0,
        };
        self.consensus_relevant.insert(*id, ClassReputation { equivocations: count + 1, last_equivocation_at: now });
    }

    /// Record an equivocation at the current wall-clock time.
    pub fn record_equivocation(&mut self, evidence: &EquivocationEvidence)
        requires
            old(self).wf(),
            old(self).has_room_for(*evidence),
        ensures
            final(self).wf(),
            final(self).spec_half_life() == old(self).spec_half_life(),
            exists|now: u64|
                final(self).class_map(SemanticClassId::ConsensusRelevant) == bumped(
                    bumped(old(self).class_map(SemanticClassId::ConsensusRelevant), evidence.provider_a_id@, now),
                    evidence.provider_b_id@,
                    now,
                ),
            final(self).class_map(SemanticClassId::Monotonic) == old(self).class_map(SemanticClassId::Monotonic),
            final(self).class_map(SemanticClassId::SoftState) == old(self).class_map(SemanticClassId::SoftState),
    {
        let now = crate::clock::unix_time_secs();
        self.record_equivocation_at(evidence, now);
    }

    /// The record of `provider_id` in `class`, zero when never recorded.
    pub fn query(&self, provider_id: &[u8; 32], class: &SemanticClassId) -> (r: ClassReputation)
        requires
            self.wf(),
        ensures
            r == self.spec_query(provider_id@, *class),
    {
        let m = match class {
            SemanticClassId::Monotonic => &self.monotonic,
            SemanticClassId::SoftState => &self.soft_state,
            SemanticClassId::ConsensusRelevant => &self.consensus_relevant,
        };
        match m.get(provider_id) {
            Some(r) => *r,
            None => ClassReputation { equivocations: 0, last_equivocation_at: 0 },
        }
    }

    /// The raw equivocation count of `provider_id` in `class`.
    pub fn equivocation_count(&self, provider_id: &[u8; 32], class: &SemanticClassId) -> (n: u32)
        requires
            self.wf(),
        ensures
            n == self.spec_query(provider_id@, *class).equivocations,
    {
        self.query(provider_id, class).equivocations
    }
}

impl Default for ProviderReputation {
    fn default() -> (r: Self)
        ensures
            r.wf(),
            r.spec_half_life() is None,
            forall|c: SemanticClassId| #[trigger] r.class_map(c) == Map::<Seq<u8>, ClassReputation>::empty(),
    {
        Self::new()
    }
}

} // verus!
