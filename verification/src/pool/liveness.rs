//! Provider liveness: consecutive failures and silence since last response.
use crate::byte_map::ByteMap;
use vstd::prelude::*;

verus! {

/// What the pool knows of one provider's liveness.
#[derive(Debug, Clone, Copy, PartialEq, Eq, Structural)]
pub struct LivenessState {
    pub last_seen_secs: u64,
    pub consecutive_failures: u32,
}

/// Thresholds past which a provider counts as dead.
#[derive(Debug, Clone, Copy, PartialEq, Eq, Structural)]
pub struct LivenessConfig {
    pub max_consecutive_failures: u32,
    pub max_silence_secs: u64,
}

/// A provider is live when it has no record, or when it has failed fewer
/// times in a row than allowed and has been silent for less than allowed.
pub open spec fn spec_is_live(state: Option<LivenessState>, config: LivenessConfig, now: u64) -> bool {
    match state {
        None => true,
        Some(s) => s.consecutive_failures < config.max_consecutive_failures && (if now >= s.last_seen_secs {
            now - s.last_seen_secs
        } else {
            0
        }) < config.max_silence_secs,
    }
}

/// A provider's record after a failure at `now`: the failure run grows by
/// one (saturating); a provider never recorded before counts as seen at `now`.
pub open spec fn after_failure(state: Option<LivenessState>, now: u64) -> LivenessState {
    match state {
        Some(s) => LivenessState {
            consecutive_failures: if s.consecutive_failures == u32::MAX {
                u32::MAX
            } else {
                (s.consecutive_failures + 1) as u32
            },
            ..s
        },
        None => LivenessState { last_seen_secs: now, consecutive_failures: 1 },
    }
}

/// Liveness records by provider id.
pub struct LivenessTable {
    states: ByteMap<LivenessState>,
}

impl LivenessTable {
    pub closed spec fn wf(&self) -> bool {
        self.states.wf()
    }

    pub closed spec fn spec_states(&self) -> Map<Seq<u8>, LivenessState> {
        self.states@
    }

    /// The record of `id`, if any.
    pub open spec fn spec_state(&self, id: Seq<u8>) -> Option<LivenessState> {
        if self.spec_states().contains_key(id) {
            Some(self.spec_states()[id])
        } else {
            None
        }
    }

    pub fn new() -> (t: Self)
        ensures
            t.wf(),
            t.spec_states() == Map::<Seq<u8>, LivenessState>::empty(),
    {
        LivenessTable { states: ByteMap::new() }
    }

    /// Whether `id` is live at `now` under `config`.
    pub fn is_live_at(&self, id: &[u8; 32], config: &LivenessConfig, now: u64) -> (b: bool)
        requires
            self.wf(),
        ensures
            b == spec_is_live(self.spec_state(id@), *config, now),
    {
        match self.states.get(id) {
            None => true,
            Some(s) => s.consecutive_failures < config.max_consecutive_failures && now.saturating_sub(
                s.last_seen_secs,
            ) < config.max_silence_secs,
        }
    }

    /// A response at `now`: the provider was seen now and its failure run ends.
    pub fn record_response_at(&mut self, id: [u8; 32], now: u64)
        requires
            old(self).wf(),
        ensures
            final(self).wf(),
            final(self).spec_states() == old(self).spec_states().insert(
                id@,
                LivenessState { last_seen_secs: now, consecutive_failures: 0 },
            ),
    {
        self.states.insert(id, LivenessState { last_seen_secs: now, consecutive_failures: 0 });
    }

    /// A failure at `now`: the failure run grows by one (saturating); a
    /// provider never recorded before counts as seen at `now`.
    pub fn record_failure_at(&mut self, id: [u8; 32], now: u64)
        requires
            old(self).wf(),
        ensures
            final(self).wf(),
            final(self).spec_states() == old(self).spec_states().insert(
                id@,
                after_failure(old(self).spec_state(id@), now),
            ),
    {
        let next = match self.states.get(&id) {
            Some(s) => LivenessState { consecutive_failures: s.consecutive_failures.saturating_add(1), ..*s },
            None => LivenessState { last_seen_secs: now, consecutive_failures: 1 },
        };
        self.states.insert(id, next);
    }

    /// Forget a provider.
    pub fn remove(&mut self, id: &[u8; 32])
        requires
            old(self).wf(),
        ensures
            final(self).wf(),
            final(self).spec_states() == old(self).spec_states().remove(id@),
    {
        self.states.remove(id);
    }
}

/// Failures alone kill a provider: once its failure run reaches the limit
/// it is dead at every time until a response is recorded.
pub proof fn lemma_failures_kill(state: LivenessState, config: LivenessConfig, now: u64)
    requires
        state.consecutive_failures >= config.max_consecutive_failures,
    ensures
        !spec_is_live(Some(state), config, now),
{
}

} // verus!
