//! Eviction records: re-admission cooldowns, a lifetime re-admission limit
//! and operator bans.
use crate::byte_map::ByteMap;
use crate::pool::admission::AdmissionError;
use crate::pool::reputation::SemanticClassId;
use vstd::prelude::*;

verus! {

/// Errors returned by `evict()`.
#[derive(Debug, Clone, Copy, PartialEq, Eq, Structural)]
pub enum EvictionError {
    /// `provider_id` was not found in the active or dormant set.
    NotFound,
    /// Removing this dormant provider would leave fewer dormant providers
    /// than the active window, making future rotation impossible.
    WouldViolateDormantFloor,
    /// Eviction gate not configured.
    NotConfigured,
}

/// Why a provider was permanently removed from the pool.
#[derive(Debug, Clone, Copy, PartialEq, Eq, Structural)]
pub enum EvictionReason {
    /// Provider equivocated on a consensus-relevant state claim.
    Equivocation { semantic_class: SemanticClassId, count: u32 },
    /// Provider exceeded the liveness failure threshold.
    LivenessExhausted,
    /// Operator-initiated permanent ban, lifted only by `lift_ban()`.
    OperatorBan,
}

/// Per-provider eviction metadata, kept for the pool's lifetime.
#[derive(Debug, Clone, Copy, PartialEq, Eq, Structural)]
pub struct EvictionRecord {
    /// Unix timestamp when the eviction was recorded.
    pub evicted_at_secs: u64,
    /// Why the provider was evicted.
    pub reason: EvictionReason,
    /// How many times the provider has been re-admitted after prior
    /// evictions; never reset on re-eviction.
    pub re_admission_count: u32,
}

/// Pool-level configuration for eviction and re-admission limits.
#[derive(Debug, Clone, Copy, PartialEq, Eq, Structural)]
pub struct EvictionConfig {
    /// Seconds a `LivenessExhausted` provider must wait before re-applying.
    pub liveness_cooldown_secs: u64,
    /// Seconds an `Equivocation` provider must wait before re-applying.
    pub equivocation_cooldown_secs: u64,
    /// Maximum total re-admissions across the provider's lifetime.
    pub max_re_admissions: u32,
}

impl Default for EvictionConfig {
    /// 5-minute liveness cooldown, 1-hour equivocation cooldown, 3 re-admissions.
    fn default() -> (c: Self)
        ensures
            c == (EvictionConfig { liveness_cooldown_secs: 300, equivocation_cooldown_secs: 3600, max_re_admissions: 3 }),
    {
        EvictionConfig { liveness_cooldown_secs: 300, equivocation_cooldown_secs: 3600, max_re_admissions: 3 }
    }
}

/// Runtime eviction state: records by provider id and the configuration.
pub struct EvictionState {
    pub records: ByteMap<EvictionRecord>,
    pub config: EvictionConfig,
}

/// The admission gate an eviction record imposes at time `now`: a ban
/// blocks for good; an exhausted re-admission count blocks; otherwise the
/// reason's cooldown blocks until it has fully elapsed.
pub open spec fn eviction_gate(record: Option<EvictionRecord>, config: EvictionConfig, now: u64) -> Option<AdmissionError> {
    match record {
        None => None,
        Some(r) => match r.reason {
            EvictionReason::OperatorBan => Some(AdmissionError::Banned),
            _ => if r.re_admission_count >= config.max_re_admissions {
                Some(AdmissionError::MaxReAdmissionsExceeded)
            } else {
                let cooldown = match r.reason {
                    EvictionReason::LivenessExhausted => config.liveness_cooldown_secs,
                    _ => config.equivocation_cooldown_secs,
                };
                let elapsed: int = if now >= r.evicted_at_secs { now - r.evicted_at_secs } else { 0 };
                if elapsed < cooldown {
                    let eligible: int = r.evicted_at_secs + cooldown;
                    Some(AdmissionError::EvictionCooldown {
                        eligible_at_secs: if eligible > u64::MAX { u64::MAX } else { eligible as u64 },
                    })
                } else {
                    None
                }
            },
        },
    }
}

impl EvictionState {
    pub open spec fn wf(&self) -> bool {
        self.records.wf()
    }

    /// The record of `id`, if it was ever evicted (and not un-banned).
    pub open spec fn spec_record(&self, id: Seq<u8>) -> Option<EvictionRecord> {
        if self.records@.contains_key(id) {
            Some(self.records@[id])
        } else {
            None
        }
    }

    pub fn new(config: EvictionConfig) -> (s: Self)
        ensures
            s.wf(),
            s.config == config,
            s.records@ == Map::<Seq<u8>, EvictionRecord>::empty(),
    {
        EvictionState { records: ByteMap::new(), config }
    }

    /// Whether a provider may request admission at `now_secs`: `None` if
    /// eligible, or the blocking error.
    pub fn check_admission(&self, provider_id: &[u8; 32], now_secs: u64) -> (r: Option<AdmissionError>)
        requires
            self.wf(),
        ensures
            r == eviction_gate(self.spec_record(provider_id@), self.config, now_secs),
    {
        let record = match self.records.get(provider_id) {
            Some(r) => *r,
            None => {
                return None;
            },
        };
        match record.reason {
            EvictionReason::OperatorBan => {
                return Some(AdmissionError::Banned);
            },
            _ => {},
        }
        if record.re_admission_count >= self.config.max_re_admissions {
            return Some(AdmissionError::MaxReAdmissionsExceeded);
        }
        let cooldown_secs = match record.reason {
            EvictionReason::LivenessExhausted => self.config.liveness_cooldown_secs,
            _ => self.config.equivocation_cooldown_secs,
        };
        let elapsed = now_secs.saturating_sub(record.evicted_at_secs);
        if elapsed < cooldown_secs {
            let eligible_at_secs = record.evicted_at_secs.saturating_add(cooldown_secs);
            return Some(AdmissionError::EvictionCooldown { eligible_at_secs });
        }
        None
    }

    /// Create or update an eviction record: time and reason are refreshed,
    /// the lifetime re-admission counter is kept (zero for a first eviction).
    pub fn record_eviction(&mut self, provider_id: [u8; 32], reason: EvictionReason, evicted_at_secs: u64)
        requires
            old(self).wf(),
        ensures
            final(self).wf(),
            final(self).config == old(self).config,
            final(self).records@ == old(self).records@.insert(
                provider_id@,
                EvictionRecord {
                    evicted_at_secs,
                    reason,
                    re_admission_count: match old(self).spec_record(provider_id@) {
                        Some(r) => r.re_admission_count,
                        None => 0,
                    },
                },
            ),
    {
        let count = match self.records.get(&provider_id) {
            Some(r) => r.re_admission_count,
            None => 0,
        };
        self.records.insert(provider_id, EvictionRecord { evicted_at_secs, reason, re_admission_count: count });
    }

    /// Count one re-admission of a previously evicted provider (saturating).
    pub fn record_readmission(&mut self, provider_id: &[u8; 32])
        requires
            old(self).wf(),
        ensures
            final(self).wf(),
            final(self).config == old(self).config,
            final(self).records@ == match old(self).spec_record(provider_id@) {
                Some(r) => old(self).records@.insert(
                    provider_id@,
                    EvictionRecord {
                        re_admission_count: if r.re_admission_count == u32::MAX {
                            u32::MAX
                        } else {
                            (r.re_admission_count + 1) as u32
                        },
                        ..r
                    },
                ),
                None => old(self).records@,
            },
    {
        let existing = match self.records.get(provider_id) {
            Some(r) => Some(*r),
            None => None,
        };
        match existing {
            Some(r) => {
                let updated = EvictionRecord { re_admission_count: r.re_admission_count.saturating_add(1), ..r };
                self.records.insert(*provider_id, updated);
            },
            None => {},
        }
    }

    /// Lift an operator ban by removing the eviction record entirely.
    /// Returns `true` if a ban record was found and removed.
    pub fn lift_ban(&mut self, provider_id: &[u8; 32]) -> (lifted: bool)
        requires
            old(self).wf(),
        ensures
            final(self).wf(),
            final(self).config == old(self).config,
            lifted == (old(self).spec_record(provider_id@) matches Some(r) && r.reason
                == EvictionReason::OperatorBan),
            lifted ==> final(self).records@ == old(self).records@.remove(provider_id@),
            !lifted ==> final(self).records@ == old(self).records@,
    {
        let is_ban = match self.records.get(provider_id) {
            Some(r) => match r.reason {
                EvictionReason::OperatorBan => true,
                _ => false,
            },
            None => false,
        };
        if is_ban {
            self.records.remove(provider_id);
        }
        is_ban
    }

    /// Inspect a provider's eviction record.
    pub fn record(&self, provider_id: &[u8; 32]) -> (r: Option<&EvictionRecord>)
        requires
            self.wf(),
        ensures
            match r {
                Some(rec) => self.spec_record(provider_id@) == Some(*rec),
                None => self.spec_record(provider_id@) is None,
            },
    {
        self.records.get(provider_id)
    }
}

/// An operator ban blocks re-admission at every time until it is lifted.
pub proof fn lemma_ban_blocks_forever(record: EvictionRecord, config: EvictionConfig, now: u64)
    requires
        record.reason == EvictionReason::OperatorBan,
    ensures
        eviction_gate(Some(record), config, now) == Some(AdmissionError::Banned),
{
}

/// Outside a ban and below the re-admission limit, a cooldown blocks
/// exactly until it has elapsed.
pub proof fn lemma_cooldown_elapses(record: EvictionRecord, config: EvictionConfig, now: u64)
    requires
        record.reason != EvictionReason::OperatorBan,
        record.re_admission_count < config.max_re_admissions,
        now >= record.evicted_at_secs,
    ensures
        ({
            let cooldown = match record.reason {
                EvictionReason::LivenessExhausted => config.liveness_cooldown_secs,
                _ => config.equivocation_cooldown_secs,
            };
            eviction_gate(Some(record), config, now) is None <==> now - record.evicted_at_secs >= cooldown
        }),
{
}

} // verus!
