//! The integer core of a provider pool: tiers, admission and eviction
//! gates, liveness, receipt-bound accounting, reputation and epochs.
use crate::clock::{duration_nanos, instant_elapsed, instant_now, unix_time_secs};
use crate::crypto::keys::os_random_bytes;
use crate::pool::admission::{admission_verdict, AdmissionConfig, AdmissionError, AdmissionState, PendingAdmission};
use crate::pool::eviction::{eviction_gate, EvictionConfig, EvictionError, EvictionReason, EvictionRecord, EvictionState};
use crate::pool::exposure::{receipt_verdict, AdmissibilityError, AdmissibleExposureTracker, SelectionReceipt};
use crate::pool::metrics::EpochPhase;
use crate::pool::liveness::{after_failure, spec_is_live, LivenessConfig, LivenessTable};
use crate::pool::random::{lemire_uniform, RandomSource};
use crate::pool::reputation::{bumped, ProviderReputation, SemanticClassId};
use crate::pool::rotation::{spec_resets_at, ChurnBudget, DeferralReason, ExposureResetPolicy};
use crate::pool::tiers::{rotation_swaps, select_random_k, ProviderTiers};
use crate::transport::quorum::EquivocationEvidence;
use vstd::prelude::*;

verus! {

broadcast use {vstd::seq_lib::group_to_multiset_ensures, vstd::multiset::group_multiset_axioms};

/// How many receipts a tracker with `len` of `max` receipts outstanding and
/// next observation id `next` issues for `k` selections: one per selection
/// until the outstanding bound or the id counter is reached.
pub open spec fn receipts_issued(len: nat, max: nat, next: nat, k: nat) -> nat {
    let room: nat = if len >= max { 0 } else { (max - len) as nat };
    let counter: nat = if next >= u64::MAX { 0 } else { (u64::MAX - next) as nat };
    vstd::math::min(vstd::math::min(k as int, room as int), counter as int) as nat
}

/// The outstanding receipts after `n` receipts for `ids` are issued under
/// consecutive ids from `next`.
pub open spec fn outstanding_after(
    out: Map<u64, [u8; 32]>,
    next: u64,
    ids: Seq<[u8; 32]>,
    n: int,
) -> Map<u64, [u8; 32]> {
    out.union_prefer_right(Map::new(|k: u64| next <= k < next + n, |k: u64| ids[k - next]))
}

/// The source of a rotation's random words and of its activation choices:
/// the index of the dormant provider to activate next, chosen by the
/// pool's activation strategy from the pool as it stands.
pub trait RotationChooser<P>: RandomSource {
    fn pick_dormant(&mut self, pool: &PoolCore<P>) -> usize;
}

/// The sample size of a threshold selection over `n` live providers: the
/// most allowed, `max_k`, capped at `n`, but never fewer than `min_k`
/// capped at `n`.
pub fn threshold_k(min_k: usize, max_k: usize, n: usize) -> (k: usize)
    ensures
        k == vstd::math::max(vstd::math::min(max_k as int, n as int), vstd::math::min(min_k as int, n as int)),
        k <= n,
{
    let hi = if max_k < n { max_k } else { n };
    let lo = if min_k < n { min_k } else { n };
    if hi < lo {
        lo
    } else {
        hi
    }
}

/// Whether a rotation policy may fire in epoch phase `phase`: none right
/// after a reset, only those that do not read the estimator while it
/// reconverges, all once it is steady.
pub open spec fn spec_policy_admissible(phase: EpochPhase, estimator_dependent: bool) -> bool {
    match phase {
        EpochPhase::PostReset => false,
        EpochPhase::Reconverging => !estimator_dependent,
        EpochPhase::Steady => true,
    }
}

/// Whether a rotation policy may fire in epoch phase `phase`.
pub fn policy_admissible(phase: EpochPhase, estimator_dependent: bool) -> (b: bool)
    ensures
        b == spec_policy_admissible(phase, estimator_dependent),
{
    match phase {
        EpochPhase::PostReset => false,
        EpochPhase::Reconverging => !estimator_dependent,
        EpochPhase::Steady => true,
    }
}

/// The integer state of a provider pool.
pub struct PoolCore<P> {
    tiers: ProviderTiers<P>,
    liveness: LivenessTable,
    liveness_config: LivenessConfig,
    admission: Option<AdmissionState>,
    eviction: Option<EvictionState>,
    admissible_tracker: Option<AdmissibleExposureTracker>,
    reputation: ProviderReputation,
    epoch_count: u32,
    query_count: u64,
    budget: ChurnBudget,
    reset_policy: ExposureResetPolicy,
    last_churn: Option<usize>,
}

impl<P> PoolCore<P> {
    pub closed spec fn spec_tiers(&self) -> ProviderTiers<P> {
        self.tiers
    }

    pub closed spec fn spec_liveness(&self) -> LivenessTable {
        self.liveness
    }

    pub closed spec fn spec_liveness_config(&self) -> LivenessConfig {
        self.liveness_config
    }

    pub closed spec fn spec_admission(&self) -> Option<AdmissionState> {
        self.admission
    }

    pub closed spec fn spec_eviction(&self) -> Option<EvictionState> {
        self.eviction
    }

    pub closed spec fn spec_tracker(&self) -> Option<AdmissibleExposureTracker> {
        self.admissible_tracker
    }

    pub closed spec fn spec_reputation(&self) -> ProviderReputation {
        self.reputation
    }

    pub closed spec fn spec_epoch_count(&self) -> u32 {
        self.epoch_count
    }

    pub closed spec fn spec_query_count(&self) -> u64 {
        self.query_count
    }

    pub closed spec fn spec_budget(&self) -> ChurnBudget {
        self.budget
    }

    pub closed spec fn spec_reset_policy(&self) -> ExposureResetPolicy {
        self.reset_policy
    }

    pub closed spec fn spec_last_churn(&self) -> Option<usize> {
        self.last_churn
    }

    /// Whether `id` is in either tier.
    pub open spec fn in_pool(&self, id: Seq<u8>) -> bool {
        self.spec_tiers().holds(id)
    }

    /// Every component keeps its own invariant.
    pub closed spec fn wf(&self) -> bool {
        &&& self.liveness.wf()
        &&& self.reputation.wf()
        &&& (self.admission matches Some(a) ==> a.wf())
        &&& (self.eviction matches Some(e) ==> e.wf())
        &&& (self.admissible_tracker matches Some(t) ==> t.wf() && t.spec_epoch() == self.epoch_count)
    }

    /// An unbounded active window, no liveness limits, a one-provider churn
    /// budget, no admission or eviction gate, no receipt tracking.
    pub fn new() -> (c: Self)
        ensures
            c.wf(),
            c.spec_tiers().spec_active().len() == 0,
            c.spec_tiers().spec_dormant().len() == 0,
            c.spec_tiers().spec_window() == usize::MAX,
            c.spec_admission() is None,
            c.spec_eviction() is None,
            c.spec_tracker() is None,
            c.spec_epoch_count() == 0,
            c.spec_query_count() == 0,
            c.spec_liveness_config() == (LivenessConfig { max_consecutive_failures: u32::MAX, max_silence_secs: u64::MAX }),
    {
        PoolCore {
            tiers: ProviderTiers::new(usize::MAX),
            liveness: LivenessTable::new(),
            liveness_config: LivenessConfig { max_consecutive_failures: u32::MAX, max_silence_secs: u64::MAX },
            admission: None,
            eviction: None,
            admissible_tracker: None,
            reputation: ProviderReputation::new(),
            epoch_count: 0,
            query_count: 0,
            budget: ChurnBudget { min_churn: 1, max_churn: 1 },
            reset_policy: ExposureResetPolicy::Never,
            last_churn: None,
        }
    }

    /// The running state other than the tiers and reputation is the same in
    /// `self` and `post`: liveness records, epoch and query counters, and the
    /// last churn count.
    pub open spec fn keeps_counters(self, post: Self) -> bool {
        &&& post.spec_liveness() == self.spec_liveness()
        &&& post.spec_epoch_count() == self.spec_epoch_count()
        &&& post.spec_query_count() == self.spec_query_count()
        &&& post.spec_last_churn() == self.spec_last_churn()
    }

    /// The admission gate, eviction gate and receipt tracker are the same in
    /// `self` and `post`.
    pub open spec fn keeps_gates(self, post: Self) -> bool {
        &&& post.spec_admission() == self.spec_admission()
        &&& post.spec_eviction() == self.spec_eviction()
        &&& post.spec_tracker() == self.spec_tracker()
    }

    /// The liveness thresholds, churn budget and reset policy are the same
    /// in `self` and `post`.
    pub open spec fn keeps_policy(self, post: Self) -> bool {
        &&& post.spec_liveness_config() == self.spec_liveness_config()
        &&& post.spec_budget() == self.spec_budget()
        &&& post.spec_reset_policy() == self.spec_reset_policy()
    }

    /// Set the size of the active window; the providers stay where they are.
    pub fn set_active_window(&mut self, n: usize)
        requires
            old(self).wf(),
        ensures
            final(self).wf(),
            final(self).spec_tiers().spec_window() == n,
            final(self).spec_tiers().spec_active() == old(self).spec_tiers().spec_active(),
            final(self).spec_tiers().spec_dormant() == old(self).spec_tiers().spec_dormant(),
            final(self).spec_reputation() == old(self).spec_reputation(),
            old(self).keeps_counters(*final(self)),
            old(self).keeps_gates(*final(self)),
            old(self).keeps_policy(*final(self)),
    {
        self.tiers.set_active_window(n);
    }

    /// Set the churn budget of later rotations.
    pub fn set_churn_budget(&mut self, budget: ChurnBudget)
        requires
            old(self).wf(),
        ensures
            final(self).wf(),
            final(self).spec_budget() == budget,
            final(self).spec_tiers() == old(self).spec_tiers(),
            final(self).spec_reputation() == old(self).spec_reputation(),
            final(self).spec_liveness_config() == old(self).spec_liveness_config(),
            final(self).spec_reset_policy() == old(self).spec_reset_policy(),
            old(self).keeps_counters(*final(self)),
            old(self).keeps_gates(*final(self)),
    {
        self.budget = budget;
    }

    /// Set the exposure reset policy of receipt trackers enabled later.
    pub fn set_reset_policy(&mut self, policy: ExposureResetPolicy)
        requires
            old(self).wf(),
        ensures
            final(self).wf(),
            final(self).spec_reset_policy() == policy,
            final(self).spec_tiers() == old(self).spec_tiers(),
            final(self).spec_reputation() == old(self).spec_reputation(),
            final(self).spec_liveness_config() == old(self).spec_liveness_config(),
            final(self).spec_budget() == old(self).spec_budget(),
            old(self).keeps_counters(*final(self)),
            old(self).keeps_gates(*final(self)),
    {
        self.reset_policy = policy;
    }

    /// Liveness thresholds: dead at `max_consecutive_failures` failures in a
    /// row, or after `max_silence_secs` of silence.
    pub fn set_liveness(&mut self, max_consecutive_failures: u32, max_silence_secs: u64)
        requires
            old(self).wf(),
        ensures
            final(self).wf(),
            final(self).spec_liveness_config() == (LivenessConfig { max_consecutive_failures, max_silence_secs }),
            final(self).spec_tiers() == old(self).spec_tiers(),
            final(self).spec_reputation() == old(self).spec_reputation(),
            final(self).spec_budget() == old(self).spec_budget(),
            final(self).spec_reset_policy() == old(self).spec_reset_policy(),
            old(self).keeps_counters(*final(self)),
            old(self).keeps_gates(*final(self)),
    {
        self.liveness_config = LivenessConfig { max_consecutive_failures, max_silence_secs };
    }

    /// Enable the admission gate.
    pub fn set_admission(&mut self, config: AdmissionConfig)
        requires
            old(self).wf(),
        ensures
            final(self).wf(),
            final(self).spec_admission() matches Some(a) && a.config == config && a.budget_count == 0
                && a.pending@ == Map::<Seq<u8>, PendingAdmission>::empty(),
            final(self).spec_tiers() == old(self).spec_tiers(),
            final(self).spec_reputation() == old(self).spec_reputation(),
            final(self).spec_eviction() == old(self).spec_eviction(),
            final(self).spec_tracker() == old(self).spec_tracker(),
            old(self).keeps_counters(*final(self)),
            old(self).keeps_policy(*final(self)),
    {
        self.admission = Some(AdmissionState::new(config));
    }

    /// Enable the eviction gate.
    pub fn set_eviction(&mut self, config: EvictionConfig)
        requires
            old(self).wf(),
        ensures
            final(self).wf(),
            final(self).spec_eviction() matches Some(e) && e.config == config && e.records@
                == Map::<Seq<u8>, EvictionRecord>::empty(),
            final(self).spec_tiers() == old(self).spec_tiers(),
            final(self).spec_reputation() == old(self).spec_reputation(),
            final(self).spec_admission() == old(self).spec_admission(),
            final(self).spec_tracker() == old(self).spec_tracker(),
            old(self).keeps_counters(*final(self)),
            old(self).keeps_policy(*final(self)),
    {
        self.eviction = Some(EvictionState::new(config));
    }

    /// Enable receipt-bound accounting with at most `max_outstanding_receipts`
    /// unresolved receipts, under the pool's current reset policy. The
    /// tracker's epoch starts at the pool's epoch count and follows it, so
    /// receipts carry the pool's epoch.
    pub fn set_admissible_tracking(&mut self, max_outstanding_receipts: usize)
        requires
            old(self).wf(),
        ensures
            final(self).wf(),
            final(self).spec_tracker() matches Some(t) && t.spec_max_outstanding() == max_outstanding_receipts
                && t.spec_outstanding() == Map::<u64, [u8; 32]>::empty() && t.spec_reset_policy()
                == old(self).spec_reset_policy() && t.spec_epoch() == old(self).spec_epoch_count() && t.spec_next_observation_id() == 0
                && t.spec_selection_total() == 0 && t.spec_response_total() == 0 && t.spec_failure_total() == 0,
            final(self).spec_tiers() == old(self).spec_tiers(),
            final(self).spec_reputation() == old(self).spec_reputation(),
            final(self).spec_admission() == old(self).spec_admission(),
            final(self).spec_eviction() == old(self).spec_eviction(),
            old(self).keeps_counters(*final(self)),
            old(self).keeps_policy(*final(self)),
    {
        self.admissible_tracker = Some(AdmissibleExposureTracker::new(self.reset_policy, max_outstanding_receipts, self.epoch_count));
    }

    /// Configure the reputation decay half-life; the reputation records are
    /// kept.
    pub fn set_reputation_half_life(&mut self, half_life_secs: u64)
        requires
            old(self).wf(),
        ensures
            final(self).wf(),
            final(self).spec_reputation().spec_half_life() == Some(half_life_secs),
            forall|c: SemanticClassId| #[trigger] final(self).spec_reputation().class_map(c)
                == old(self).spec_reputation().class_map(c),
            final(self).spec_tiers() == old(self).spec_tiers(),
            old(self).keeps_counters(*final(self)),
            old(self).keeps_gates(*final(self)),
            old(self).keeps_policy(*final(self)),
    {
        self.reputation.set_half_life_secs(Some(half_life_secs));
    }

    /// Whether the admission gate is configured.
    pub fn has_admission(&self) -> (b: bool)
        ensures
            b == self.spec_admission() is Some,
    {
        self.admission.is_some()
    }

    /// The reputation records.
    pub fn reputation(&self) -> (r: &ProviderReputation)
        ensures
            *r == self.spec_reputation(),
    {
        &self.reputation
    }

    /// The tiers.
    pub fn tiers(&self) -> (t: &ProviderTiers<P>)
        ensures
            *t == self.spec_tiers(),
    {
        &self.tiers
    }

    /// The receipt tracker, if configured.
    pub fn admissible_tracker(&self) -> (t: &Option<AdmissibleExposureTracker>)
        ensures
            *t == self.spec_tracker(),
    {
        &self.admissible_tracker
    }

    /// What a challenge request for `id` at Unix time `now_secs` makes of
    /// the pool `self`, given whether the budget window has elapsed and the
    /// fresh `challenge`, giving `r` and `post`. Without an admission gate:
    /// `NotConfigured`. The eviction gate runs first, so a rejected provider
    /// never consumes budget; then a provider already in the pool
    /// (`AlreadyInPool`) or with a pending challenge (`PendingChallenge`) is
    /// refused; all of these leave the pool unchanged. Then, counting from
    /// zero when the window has elapsed, a full budget refuses with
    /// `BudgetExhausted`, and otherwise one admit is claimed and `challenge`
    /// becomes pending for `id`. Only the admission gate changes.
    pub open spec fn admission_request_outcome(
        self,
        id: Seq<u8>,
        now_secs: u64,
        window_elapsed: bool,
        challenge: [u8; 32],
        r: Result<[u8; 32], AdmissionError>,
        post: Self,
    ) -> bool {
        match self.spec_admission() {
            None => r == Err::<[u8; 32], AdmissionError>(AdmissionError::NotConfigured) && post == self,
            Some(a) => {
                let gate = match self.spec_eviction() {
                    Some(e) => eviction_gate(e.spec_record(id), e.config, now_secs),
                    None => None,
                };
                let start: int = if window_elapsed { 0 } else { a.budget_count as int };
                if gate is Some {
                    r == Err::<[u8; 32], AdmissionError>(gate.unwrap()) && post == self
                } else if self.in_pool(id) {
                    r == Err::<[u8; 32], AdmissionError>(AdmissionError::AlreadyInPool) && post == self
                } else if a.pending@.contains_key(id) {
                    r == Err::<[u8; 32], AdmissionError>(AdmissionError::PendingChallenge) && post == self
                } else {
                    &&& post.spec_tiers() == self.spec_tiers()
                    &&& post.spec_reputation() == self.spec_reputation()
                    &&& post.spec_eviction() == self.spec_eviction()
                    &&& post.spec_tracker() == self.spec_tracker()
                    &&& self.keeps_counters(post)
                    &&& self.keeps_policy(post)
                    &&& if start >= a.config.max_admits_per_window {
                        &&& r == Err::<[u8; 32], AdmissionError>(AdmissionError::BudgetExhausted)
                        &&& post.spec_admission() matches Some(fa) && fa.budget_count == start && fa.pending
                            == a.pending && fa.config == a.config
                    } else {
                        &&& r == Ok::<[u8; 32], AdmissionError>(challenge)
                        &&& post.spec_admission() matches Some(fa) && fa.budget_count == start + 1 && fa.config
                            == a.config && fa.pending@.dom() == a.pending@.dom().insert(id)
                            && fa.pending@[id].challenge == challenge && (forall|k: Seq<u8>|
                            k != id && #[trigger] a.pending@.contains_key(k) ==> fa.pending@[k] == a.pending@[k])
                    }
                }
            },
        }
    }

    /// Issue an admission challenge at Unix time `now_secs`, given whether
    /// the budget window has elapsed.
    pub fn request_admission_at(
        &mut self,
        provider_id: [u8; 32],
        now_secs: u64,
        window_elapsed: bool,
        challenge: [u8; 32],
    ) -> (r: Result<[u8; 32], AdmissionError>)
        requires
            old(self).wf(),
        ensures
            final(self).wf(),
            old(self).admission_request_outcome(provider_id@, now_secs, window_elapsed, challenge, r, *final(self)),
    {
        if self.admission.is_none() {
            return Err(AdmissionError::NotConfigured);
        }
        match &self.eviction {
            Some(e) => match e.check_admission(&provider_id, now_secs) {
                Some(err) => {
                    return Err(err);
                },
                None => {},
            },
            None => {},
        }
        if self.tiers.contains(&provider_id) {
            return Err(AdmissionError::AlreadyInPool);
        }
        let mut admission = self.admission.take().unwrap();
        if admission.pending.contains_key(&provider_id) {
            self.admission = Some(admission);
            return Err(AdmissionError::PendingChallenge);
        }
        if !admission.claim_budget_at(window_elapsed) {
            self.admission = Some(admission);
            return Err(AdmissionError::BudgetExhausted);
        }
        admission.pending.insert(provider_id, PendingAdmission { challenge, issued_at: instant_now() });
        self.admission = Some(admission);
        Ok(challenge)
    }

    /// Issue an admission challenge: a fresh random 32-byte challenge the
    /// candidate must sign. Budget is claimed on each successful call and
    /// is not refunded by expired or failed challenges. This is
    /// `request_admission_at` at the clock's Unix time, with the budget
    /// window measured on the monotonic clock; with no eviction gate, a
    /// provider outside the pool with nothing pending is owed a challenge
    /// while fewer admits than the budget have been claimed.
    pub fn request_admission(&mut self, provider_id: [u8; 32]) -> (r: Result<[u8; 32], AdmissionError>)
        requires
            old(self).wf(),
        ensures
            final(self).wf(),
            exists|now_secs: u64, window_elapsed: bool, challenge: [u8; 32]|
                old(self).admission_request_outcome(provider_id@, now_secs, window_elapsed, challenge, r, *final(self)),
            old(self).spec_admission() is None ==> r == Err::<[u8; 32], AdmissionError>(AdmissionError::NotConfigured),
            old(self).spec_admission() is Some && old(self).spec_eviction() is None && old(self).in_pool(provider_id@)
                ==> r == Err::<[u8; 32], AdmissionError>(AdmissionError::AlreadyInPool),
            old(self).spec_admission() matches Some(a) && old(self).spec_eviction() is None && !old(self).in_pool(provider_id@)
                && a.pending@.contains_key(provider_id@) ==> r == Err::<[u8; 32], AdmissionError>(AdmissionError::PendingChallenge),
            old(self).spec_admission() matches Some(a) && old(self).spec_eviction() is None && !old(self).in_pool(provider_id@)
                && !a.pending@.contains_key(provider_id@) && a.budget_count < a.config.max_admits_per_window ==> (r matches Ok(c)
                && final(self).spec_admission() matches Some(fa) && fa.pending@.contains_key(provider_id@)
                && fa.pending@[provider_id@].challenge == c),
    {
        let window_elapsed = match &self.admission {
            Some(a) => {
                let elapsed = instant_elapsed(&a.budget_window_start);
                duration_nanos(&elapsed) >= duration_nanos(&a.config.window_duration)
            },
            None => false,
        };
        let challenge: [u8; 32] = os_random_bytes();
        let now = unix_time_secs();
        self.request_admission_at(provider_id, now, window_elapsed, challenge)
    }

    /// What completing the admission of `id` with signature `sig` and
    /// provider value `provider` makes of the pool `self`, given whether the
    /// pending challenge has expired, giving `r` and `post`. Without an
    /// admission gate: `NotConfigured`; otherwise the verdict on the pending
    /// challenge decides, and a refusal leaves the pool unchanged. On
    /// success the challenge is consumed, a previous eviction counts one
    /// more re-admission (saturating), and the provider is placed like
    /// `add`: into the active window while it has room, dormant otherwise.
    pub open spec fn admission_completion_outcome(
        self,
        id: [u8; 32],
        sig: [u8; 64],
        provider: P,
        expired: bool,
        r: Result<(), AdmissionError>,
        post: Self,
    ) -> bool {
        match self.spec_admission() {
            None => r == Err::<(), AdmissionError>(AdmissionError::NotConfigured) && post == self,
            Some(a) => {
                let v = admission_verdict(a.pending@, id@, sig@, expired);
                &&& r == v
                &&& v is Err ==> post == self
                &&& v is Ok ==> {
                    &&& post.spec_admission() matches Some(fa) && fa.pending@ == a.pending@.remove(id@)
                        && fa.budget_count == a.budget_count && fa.config == a.config
                    &&& match self.spec_eviction() {
                        None => post.spec_eviction() is None,
                        Some(e) => post.spec_eviction() matches Some(fe) && fe.config == e.config
                            && fe.records@ == match e.spec_record(id@) {
                            Some(rec) => e.records@.insert(
                                id@,
                                EvictionRecord {
                                    re_admission_count: if rec.re_admission_count == u32::MAX {
                                        u32::MAX
                                    } else {
                                        (rec.re_admission_count + 1) as u32
                                    },
                                    ..rec
                                },
                            ),
                            None => e.records@,
                        },
                    }
                    &&& post.spec_tiers().spec_window() == self.spec_tiers().spec_window()
                    &&& self.spec_tiers().spec_active().len() < self.spec_tiers().spec_window() ==> {
                        &&& post.spec_tiers().spec_active() == self.spec_tiers().spec_active().push((id, provider))
                        &&& post.spec_tiers().spec_dormant() == self.spec_tiers().spec_dormant()
                    }
                    &&& self.spec_tiers().spec_active().len() >= self.spec_tiers().spec_window() ==> {
                        &&& post.spec_tiers().spec_dormant() == self.spec_tiers().spec_dormant().push((id, provider))
                        &&& post.spec_tiers().spec_active() == self.spec_tiers().spec_active()
                    }
                    &&& post.spec_reputation() == self.spec_reputation()
                    &&& post.spec_tracker() == self.spec_tracker()
                    &&& self.keeps_counters(post)
                    &&& self.keeps_policy(post)
                }
            },
        }
    }

    /// Complete an admission, given whether the pending challenge has
    /// expired.
    pub fn complete_admission_at(&mut self, provider_id: [u8; 32], sig: &[u8; 64], provider: P, expired: bool) -> (r: Result<(), AdmissionError>)
        requires
            old(self).wf(),
        ensures
            final(self).wf(),
            old(self).admission_completion_outcome(provider_id, *sig, provider, expired, r, *final(self)),
    {
        match &self.admission {
            None => {
                return Err(AdmissionError::NotConfigured);
            },
            Some(a) => {
                let v = a.verify_at(&provider_id, sig, expired);
                if v.is_err() {
                    return v;
                }
            },
        }
        let mut admission = self.admission.take().unwrap();
        admission.pending.remove(&provider_id);
        self.admission = Some(admission);
        match &mut self.eviction {
            Some(e) => {
                e.record_readmission(&provider_id);
            },
            None => {},
        }
        self.tiers.place(provider_id, provider);
        Ok(())
    }

    /// Verify a signed challenge response and admit the provider: as
    /// `complete_admission_at`, with the challenge's age measured on the
    /// monotonic clock. On success the challenge is consumed and the
    /// provider placed in one of the tiers.
    pub fn complete_admission(&mut self, provider_id: [u8; 32], sig: &[u8; 64], provider: P) -> (r: Result<(), AdmissionError>)
        requires
            old(self).wf(),
        ensures
            final(self).wf(),
            exists|expired: bool| old(self).admission_completion_outcome(provider_id, *sig, provider, expired, r, *final(self)),
            old(self).spec_admission() is None ==> r == Err::<(), AdmissionError>(AdmissionError::NotConfigured),
            r is Err ==> *final(self) == *old(self),
            r is Ok ==> (old(self).spec_admission() matches Some(a) && final(self).spec_admission() matches Some(fa)
                && fa.pending@ == a.pending@.remove(provider_id@)),
            r is Ok ==> final(self).spec_tiers().spec_active() == old(self).spec_tiers().spec_active().push((provider_id, provider))
                || final(self).spec_tiers().spec_dormant() == old(self).spec_tiers().spec_dormant().push((provider_id, provider)),
    {
        let expired = match &self.admission {
            Some(a) => match a.pending.get(&provider_id) {
                Some(p) => {
                    let age = instant_elapsed(&p.issued_at);
                    duration_nanos(&age) > duration_nanos(&a.config.challenge_ttl)
                },
                None => false,
            },
            None => false,
        };
        self.complete_admission_at(provider_id, sig, provider, expired)
    }

    /// What evicting `id` for `reason` at Unix time `now` makes of the pool
    /// `self`, giving `r` and `post`. Refused, with the pool unchanged,
    /// without an eviction gate (`NotConfigured`) and as the tiers refuse
    /// (`NotFound`, `WouldViolateDormantFloor`). Otherwise: one entry with
    /// that id leaves its tier (so a provider held once is gone), its
    /// liveness record is dropped, and its eviction record holds `now` and
    /// `reason` and keeps its lifetime re-admission count; nothing else
    /// changes.
    pub open spec fn evict_outcome(
        self,
        id: Seq<u8>,
        reason: EvictionReason,
        now: u64,
        r: Result<(), EvictionError>,
        post: Self,
    ) -> bool {
        match self.spec_eviction() {
            None => r == Err::<(), EvictionError>(EvictionError::NotConfigured) && post == self,
            Some(e) => match self.spec_tiers().eviction_refusal(id) {
                Some(err) => r == Err::<(), EvictionError>(err) && post == self,
                None => {
                    &&& r is Ok
                    &&& post.spec_eviction() matches Some(fe) && fe.config == e.config && fe.records@
                        == e.records@.insert(
                        id,
                        EvictionRecord {
                            evicted_at_secs: now,
                            reason,
                            re_admission_count: match e.spec_record(id) {
                                Some(rec) => rec.re_admission_count,
                                None => 0,
                            },
                        },
                    )
                    &&& post.spec_liveness().spec_states() == self.spec_liveness().spec_states().remove(id)
                    &&& post.spec_tiers().spec_active().len() + post.spec_tiers().spec_dormant().len() + 1
                        == self.spec_tiers().spec_active().len() + self.spec_tiers().spec_dormant().len()
                    &&& post.spec_tiers().spec_window() == self.spec_tiers().spec_window()
                    &&& self.spec_tiers().held_at_most_once(id) ==> !post.in_pool(id)
                    &&& post.spec_liveness_config() == self.spec_liveness_config()
                    &&& post.spec_admission() == self.spec_admission()
                    &&& post.spec_tracker() == self.spec_tracker()
                    &&& post.spec_reputation() == self.spec_reputation()
                    &&& post.spec_epoch_count() == self.spec_epoch_count()
                    &&& post.spec_query_count() == self.spec_query_count()
                    &&& post.spec_budget() == self.spec_budget()
                    &&& post.spec_reset_policy() == self.spec_reset_policy()
                    &&& post.spec_last_churn() == self.spec_last_churn()
                },
            },
        }
    }

    /// Remove a provider for good at Unix time `now`, recording why.
    pub fn evict_at(&mut self, provider_id: &[u8; 32], reason: EvictionReason, now: u64) -> (r: Result<(), EvictionError>)
        requires
            old(self).wf(),
        ensures
            final(self).wf(),
            old(self).evict_outcome(provider_id@, reason, now, r, *final(self)),
    {
        if self.eviction.is_none() {
            return Err(EvictionError::NotConfigured);
        }
        let res = self.tiers.remove_for_eviction(provider_id);
        match res {
            Err(e) => {
                return Err(e);
            },
            Ok(()) => {},
        }
        self.liveness.remove(provider_id);
        let mut ev = self.eviction.take().unwrap();
        ev.record_eviction(*provider_id, reason, now);
        self.eviction = Some(ev);
        Ok(())
    }

    /// Remove a provider for good at the current wall-clock time: as
    /// `evict_at` at some Unix time read from the clock.
    pub fn evict(&mut self, provider_id: &[u8; 32], reason: EvictionReason) -> (r: Result<(), EvictionError>)
        requires
            old(self).wf(),
        ensures
            final(self).wf(),
            exists|now: u64| old(self).evict_outcome(provider_id@, reason, now, r, *final(self)),
    {
        let now = unix_time_secs();
        self.evict_at(provider_id, reason, now)
    }

    /// Lift an operator ban. `true` iff a ban record was removed.
    pub fn lift_eviction_ban(&mut self, provider_id: &[u8; 32]) -> (lifted: bool)
        requires
            old(self).wf(),
        ensures
            final(self).wf(),
            final(self).spec_tiers() == old(self).spec_tiers(),
            old(self).spec_eviction() is None ==> !lifted,
            old(self).spec_eviction() matches Some(e) ==> lifted == (e.spec_record(provider_id@) matches Some(rec)
                && rec.reason == EvictionReason::OperatorBan),
    {
        match &mut self.eviction {
            Some(e) => e.lift_ban(provider_id),
            None => false,
        }
    }

    /// A provider's eviction record, if it was evicted and eviction is configured.
    pub fn eviction_record(&self, provider_id: &[u8; 32]) -> (r: Option<&EvictionRecord>)
        requires
            self.wf(),
        ensures
            self.spec_eviction() is None ==> r is None,
            self.spec_eviction() matches Some(e) ==> match r {
                Some(rec) => e.spec_record(provider_id@) == Some(*rec),
                None => e.spec_record(provider_id@) is None,
            },
    {
        match &self.eviction {
            Some(e) => e.record(provider_id),
            None => None,
        }
    }

    /// Add a provider directly (only without an admission gate).
    pub fn add(&mut self, provider_id: [u8; 32], provider: P)
        requires
            old(self).wf(),
            old(self).spec_admission() is None,
        ensures
            final(self).wf(),
            final(self).spec_tiers().spec_window() == old(self).spec_tiers().spec_window(),
            final(self).spec_reputation() == old(self).spec_reputation(),
            old(self).keeps_counters(*final(self)),
            old(self).keeps_gates(*final(self)),
            old(self).keeps_policy(*final(self)),
            old(self).spec_tiers().spec_active().len() < old(self).spec_tiers().spec_window() ==> {
                &&& final(self).spec_tiers().spec_active() == old(self).spec_tiers().spec_active().push((provider_id, provider))
                &&& final(self).spec_tiers().spec_dormant() == old(self).spec_tiers().spec_dormant()
            },
            old(self).spec_tiers().spec_active().len() >= old(self).spec_tiers().spec_window() ==> {
                &&& final(self).spec_tiers().spec_dormant() == old(self).spec_tiers().spec_dormant().push((provider_id, provider))
                &&& final(self).spec_tiers().spec_active() == old(self).spec_tiers().spec_active()
            },
    {
        self.tiers.place(provider_id, provider);
    }

    /// Total universe size (active + dormant).
    pub fn len(&self) -> (n: usize)
        requires
            self.spec_tiers().spec_active().len() + self.spec_tiers().spec_dormant().len() <= usize::MAX,
        ensures
            n == self.spec_tiers().spec_active().len() + self.spec_tiers().spec_dormant().len(),
    {
        self.tiers.active_len() + self.tiers.dormant_len()
    }

    pub fn is_empty(&self) -> (b: bool)
        ensures
            b == (self.spec_tiers().spec_active().len() == 0 && self.spec_tiers().spec_dormant().len() == 0),
    {
        self.tiers.active_len() == 0 && self.tiers.dormant_len() == 0
    }

    /// Number of rotations since pool creation.
    pub fn epoch_count(&self) -> (e: u32)
        ensures
            e == self.spec_epoch_count(),
    {
        self.epoch_count
    }

    /// Whether `provider_id` is live at `now`.
    pub fn is_live_at(&self, provider_id: &[u8; 32], now: u64) -> (b: bool)
        requires
            self.wf(),
        ensures
            b == spec_is_live(self.spec_liveness().spec_state(provider_id@), self.spec_liveness_config(), now),
    {
        self.liveness.is_live_at(provider_id, &self.liveness_config, now)
    }

    /// A successful response from a provider at `now`: seen now, failure run reset.
    pub fn record_response_at(&mut self, provider_id: [u8; 32], now: u64)
        requires
            old(self).wf(),
        ensures
            final(self).wf(),
            final(self).spec_tiers() == old(self).spec_tiers(),
            final(self).spec_liveness().spec_states() == old(self).spec_liveness().spec_states().insert(
                provider_id@,
                crate::pool::liveness::LivenessState { last_seen_secs: now, consecutive_failures: 0 },
            ),
    {
        self.liveness.record_response_at(provider_id, now);
    }

    /// A failed or unresponsive query to a provider at `now`.
    pub fn record_failure_at(&mut self, provider_id: [u8; 32], now: u64)
        requires
            old(self).wf(),
        ensures
            final(self).wf(),
            final(self).spec_tiers() == old(self).spec_tiers(),
            final(self).spec_tracker() == old(self).spec_tracker(),
            final(self).spec_liveness().spec_states() == old(self).spec_liveness().spec_states().insert(
                provider_id@,
                after_failure(old(self).spec_liveness().spec_state(provider_id@), now),
            ),
            final(self).spec_liveness_config() == old(self).spec_liveness_config(),
            final(self).spec_reputation() == old(self).spec_reputation(),
            final(self).spec_admission() == old(self).spec_admission(),
            final(self).spec_eviction() == old(self).spec_eviction(),
    {
        self.liveness.record_failure_at(provider_id, now);
    }

    /// Record a response against a receipt (telemetry only).
    pub fn record_admissible_response(&mut self, receipt: &SelectionReceipt) -> (r: Result<(), AdmissibilityError>)
        requires
            old(self).wf(),
        ensures
            final(self).wf(),
            final(self).spec_tiers() == old(self).spec_tiers(),
            final(self).spec_liveness() == old(self).spec_liveness(),
            old(self).spec_tracker() is None ==> r == Err::<(), AdmissibilityError>(AdmissibilityError::NotConfigured),
            old(self).spec_tracker() matches Some(t) ==> r == receipt_verdict(t.spec_epoch(), t.spec_outstanding(), *receipt)
                && (final(self).spec_tracker() matches Some(ft) && (r is Ok ==> ft.spec_outstanding()
                == t.spec_outstanding().remove(receipt.spec_observation_id()) && ft.spec_response_total()
                == t.spec_response_total() + 1) && (r is Err ==> ft == t)),
    {
        match &mut self.admissible_tracker {
            None => Err(AdmissibilityError::NotConfigured),
            Some(t) => t.record_admissible_response(receipt),
        }
    }

    /// Record a failure against a receipt (telemetry only).
    pub fn record_admissible_failure(&mut self, receipt: &SelectionReceipt) -> (r: Result<(), AdmissibilityError>)
        requires
            old(self).wf(),
        ensures
            final(self).wf(),
            final(self).spec_tiers() == old(self).spec_tiers(),
            final(self).spec_liveness() == old(self).spec_liveness(),
            old(self).spec_tracker() is None ==> r == Err::<(), AdmissibilityError>(AdmissibilityError::NotConfigured),
            old(self).spec_tracker() matches Some(t) ==> r == receipt_verdict(t.spec_epoch(), t.spec_outstanding(), *receipt)
                && (final(self).spec_tracker() matches Some(ft) && (r is Ok ==> ft.spec_outstanding()
                == t.spec_outstanding().remove(receipt.spec_observation_id()) && ft.spec_failure_total()
                == t.spec_failure_total() + 1) && (r is Err ==> ft == t)),
    {
        match &mut self.admissible_tracker {
            None => Err(AdmissibilityError::NotConfigured),
            Some(t) => t.record_admissible_failure(receipt),
        }
    }

    /// Record an equivocation against both providers of the evidence.
    pub fn record_equivocation(&mut self, evidence: &EquivocationEvidence)
        requires
            old(self).wf(),
            old(self).spec_reputation().has_room_for(*evidence),
        ensures
            final(self).wf(),
            final(self).spec_tiers() == old(self).spec_tiers(),
            final(self).spec_liveness() == old(self).spec_liveness(),
            final(self).spec_tracker() == old(self).spec_tracker(),
            final(self).spec_reputation().spec_half_life() == old(self).spec_reputation().spec_half_life(),
            exists|now: u64|
                final(self).spec_reputation().class_map(SemanticClassId::ConsensusRelevant) == bumped(
                    bumped(
                        old(self).spec_reputation().class_map(SemanticClassId::ConsensusRelevant),
                        evidence.provider_a_id@,
                        now,
                    ),
                    evidence.provider_b_id@,
                    now,
                ),
            final(self).spec_reputation().class_map(SemanticClassId::Monotonic) == old(self).spec_reputation().class_map(
                SemanticClassId::Monotonic,
            ),
            final(self).spec_reputation().class_map(SemanticClassId::SoftState) == old(self).spec_reputation().class_map(
                SemanticClassId::SoftState,
            ),
    {
        self.reputation.record_equivocation(evidence);
    }

    /// Receipts may be issued only below the outstanding bound.
    pub fn check_receipt_capacity(&self) -> (r: Result<(), AdmissibilityError>)
        requires
            self.wf(),
        ensures
            r is Err <==> (self.spec_tracker() matches Some(t) && t.spec_outstanding().len() >= t.spec_max_outstanding()),
            r is Err ==> r == Err::<(), AdmissibilityError>(AdmissibilityError::ReceiptCapacityExhausted),
    {
        match &self.admissible_tracker {
            Some(t) => {
                if t.outstanding_len() >= t.max_outstanding_receipts() {
                    return Err(AdmissibilityError::ReceiptCapacityExhausted);
                }
                Ok(())
            },
            None => Ok(()),
        }
    }

    /// One receipt per selected provider, in order, in the tracker's
    /// current epoch, under consecutive observation ids; issuance stops at
    /// the first refusal (a partial list) — when the outstanding receipts
    /// reach their bound or the id counter is exhausted. Without tracking,
    /// no receipts and nothing changes.
    pub fn issue_receipts(&mut self, ids: &Vec<[u8; 32]>) -> (rs: Vec<SelectionReceipt>)
        requires
            old(self).wf(),
        ensures
            final(self).wf(),
            final(self).spec_tiers() == old(self).spec_tiers(),
            final(self).spec_liveness() == old(self).spec_liveness(),
            old(self).spec_tracker() is None ==> rs@.len() == 0 && *final(self) == *old(self),
            rs@.len() <= ids@.len(),
            forall|i: int| 0 <= i < rs@.len() ==> (#[trigger] rs@[i]).spec_provider_id() == ids@[i],
            forall|i: int| 0 <= i < rs@.len() ==> (#[trigger] rs@[i]).spec_epoch_count() == old(self).spec_epoch_count(),
            final(self).spec_tracker() matches Some(ft) ==> forall|i: int| 0 <= i < rs@.len() ==>
                ft.spec_outstanding().contains_key((#[trigger] rs@[i]).spec_observation_id())
                && ft.spec_outstanding()[rs@[i].spec_observation_id()] == ids@[i],
            old(self).spec_tracker() matches Some(t) ==> {
                let n = receipts_issued(
                    t.spec_outstanding().len(),
                    t.spec_max_outstanding() as nat,
                    t.spec_next_observation_id() as nat,
                    ids@.len(),
                );
                &&& rs@.len() == n
                &&& forall|i: int| 0 <= i < rs@.len() ==> (#[trigger] rs@[i]).spec_observation_id()
                    == t.spec_next_observation_id() + i
                &&& final(self).spec_tracker() matches Some(ft) && {
                    &&& ft.spec_outstanding() == outstanding_after(
                        t.spec_outstanding(),
                        t.spec_next_observation_id(),
                        ids@,
                        n as int,
                    )
                    &&& ft.spec_outstanding().len() == t.spec_outstanding().len() + n
                    &&& ft.spec_next_observation_id() == t.spec_next_observation_id() + n
                    &&& ft.spec_selection_total() == t.spec_selection_total() + n
                    &&& ft.spec_response_total() == t.spec_response_total()
                    &&& ft.spec_failure_total() == t.spec_failure_total()
                    &&& ft.spec_appearances() == t.spec_appearances()
                    &&& ft.spec_epoch() == t.spec_epoch()
                    &&& ft.spec_max_outstanding() == t.spec_max_outstanding()
                    &&& ft.spec_reset_policy() == t.spec_reset_policy()
                }
            },
    {
        let mut rs: Vec<SelectionReceipt> = Vec::new();
        let mut tracker = match self.admissible_tracker.take() {
            Some(t) => t,
            None => {
                return rs;
            },
        };
        let epoch = tracker.current_epoch_count();
        let ghost e0 = tracker.spec_epoch();
        let ghost t0 = tracker;
        let ghost out0 = tracker.spec_outstanding();
        let ghost next0 = tracker.spec_next_observation_id();
        proof {
            tracker.lemma_outstanding_within_bound();
            assert(outstanding_after(out0, next0, ids@, 0) =~= out0);
        }
        let mut i: usize = 0;
        while i < ids.len()
            invariant
                tracker.wf(),
                tracker.spec_epoch() == e0,
                epoch == e0,
                0 <= i <= ids@.len(),
                rs@.len() == i,
                t0.spec_epoch() == e0,
                out0 == t0.spec_outstanding(),
                next0 == t0.spec_next_observation_id(),
                tracker.spec_outstanding() == outstanding_after(out0, next0, ids@, i as int),
                tracker.spec_outstanding().len() == out0.len() + i,
                out0.len() + i <= t0.spec_max_outstanding(),
                next0 + i <= u64::MAX,
                tracker.spec_next_observation_id() == next0 + i,
                tracker.spec_selection_total() == t0.spec_selection_total() + i,
                tracker.spec_response_total() == t0.spec_response_total(),
                tracker.spec_failure_total() == t0.spec_failure_total(),
                tracker.spec_appearances() == t0.spec_appearances(),
                tracker.spec_max_outstanding() == t0.spec_max_outstanding(),
                tracker.spec_reset_policy() == t0.spec_reset_policy(),
                forall|k: int| 0 <= k < rs@.len() ==> (#[trigger] rs@[k]).spec_provider_id() == ids@[k],
                forall|k: int| 0 <= k < rs@.len() ==> (#[trigger] rs@[k]).spec_epoch_count() == e0,
                forall|k: int| 0 <= k < rs@.len() ==> (#[trigger] rs@[k]).spec_observation_id() == next0 + k,
                forall|k: int| 0 <= k < rs@.len() ==> tracker.spec_outstanding().contains_key((#[trigger] rs@[k]).spec_observation_id())
                    && tracker.spec_outstanding()[rs@[k].spec_observation_id()] == ids@[k],
            ensures
                i == ids@.len() || out0.len() + i >= t0.spec_max_outstanding() || next0 + i == u64::MAX,
            decreases ids@.len() - i,
        {
            let ghost before = tracker;
            match tracker.issue_receipt(epoch, ids[i]) {
                Ok(r) => {
                    proof {
                        let after = outstanding_after(out0, next0, ids@, i + 1);
                        assert(tracker.spec_outstanding() =~= after);
                    }
                    rs.push(r);
                },
                Err(_) => {
                    break;
                },
            }
            i += 1;
        }
        proof {
            let n = receipts_issued(
                out0.len(),
                t0.spec_max_outstanding() as nat,
                next0 as nat,
                ids@.len(),
            );
            assert(rs@.len() == n);
        }
        self.admissible_tracker = Some(tracker);
        rs
    }

    /// Indices of the live active providers at `now`.
    pub fn live_active_indices(&self, now: u64) -> (r: Vec<usize>)
        requires
            self.wf(),
        ensures
            r@.no_duplicates(),
            forall|i: usize| #[trigger] r@.contains(i) <==> (i < self.spec_tiers().spec_active().len() && spec_is_live(
                self.spec_liveness().spec_state(self.spec_tiers().spec_active()[i as int].0@),
                self.spec_liveness_config(),
                now,
            )),
    {
        self.tiers.live_active_indices(&self.liveness, &self.liveness_config, now)
    }

    /// `k` distinct live active providers at `now` drawn uniformly (all of
    /// them when fewer are live), as indices into the active tier.
    pub fn select_random_live<R: RandomSource>(&self, rng: &mut R, k: usize, now: u64) -> (r: Vec<usize>)
        requires
            self.wf(),
        ensures
            r@.no_duplicates(),
            forall|i: usize| #[trigger] r@.contains(i) ==> (i < self.spec_tiers().spec_active().len() && spec_is_live(
                self.spec_liveness().spec_state(self.spec_tiers().spec_active()[i as int].0@),
                self.spec_liveness_config(),
                now,
            )),
            exists|live: Seq<usize>| {
                &&& live.no_duplicates()
                &&& forall|i: usize| #[trigger] live.contains(i) <==> (i < self.spec_tiers().spec_active().len() && spec_is_live(
                    self.spec_liveness().spec_state(self.spec_tiers().spec_active()[i as int].0@),
                    self.spec_liveness_config(),
                    now,
                ))
                &&& r@.len() == if k < live.len() { k as int } else { live.len() as int }
            },
    {
        let live = self.live_active_indices(now);
        select_random_k(rng, &live, k)
    }

    /// Why a rotation must wait, before any policy is consulted: no dormant
    /// provider, or fewer dormant providers than a non-empty window.
    pub fn rotation_precheck(&self) -> (r: Option<DeferralReason>)
        ensures
            self.spec_tiers().spec_dormant().len() == 0 ==> r == Some(DeferralReason::DormantEmpty),
            self.spec_tiers().spec_dormant().len() > 0 && self.spec_tiers().spec_window() > 0
                && self.spec_tiers().spec_dormant().len() < self.spec_tiers().spec_window() ==> r
                == Some(DeferralReason::DormantBelowFloor),
            self.spec_tiers().spec_dormant().len() > 0 && !(self.spec_tiers().spec_window() > 0
                && self.spec_tiers().spec_dormant().len() < self.spec_tiers().spec_window()) ==> r is None,
    {
        if self.tiers.dormant_len() == 0 {
            return Some(DeferralReason::DormantEmpty);
        }
        let w = self.tiers.active_window();
        if w > 0 && self.tiers.dormant_len() < w {
            return Some(DeferralReason::DormantBelowFloor);
        }
        None
    }

    /// Why a rotation attempt must wait, in the order the gates are
    /// consulted: no dormant provider; fewer dormant providers than a
    /// non-empty window; the cooldown since the last rotation has not
    /// elapsed; the policy may not fire in the estimator's epoch `phase`.
    /// `None` when the policy itself is to be consulted. Nothing changes.
    pub fn rotation_deferral(&self, cooldown_elapsed: bool, phase: EpochPhase, estimator_dependent: bool) -> (r: Option<
        DeferralReason,
    >)
        ensures
            r == if self.spec_tiers().spec_dormant().len() == 0 {
                Some(DeferralReason::DormantEmpty)
            } else if self.spec_tiers().spec_window() > 0 && self.spec_tiers().spec_dormant().len()
                < self.spec_tiers().spec_window() {
                Some(DeferralReason::DormantBelowFloor)
            } else if !cooldown_elapsed {
                Some(DeferralReason::Cooldown)
            } else if !spec_policy_admissible(phase, estimator_dependent) {
                Some(DeferralReason::EstimatorNotConverged)
            } else {
                None
            },
    {
        match self.rotation_precheck() {
            Some(reason) => Some(reason),
            None => {
                if !cooldown_elapsed {
                    Some(DeferralReason::Cooldown)
                } else if !policy_admissible(phase, estimator_dependent) {
                    Some(DeferralReason::EstimatorNotConverged)
                } else {
                    None
                }
            },
        }
    }

    /// Count one policy check toward a query-count policy and report the
    /// new count (saturating).
    pub fn bump_query_count(&mut self) -> (n: u64)
        requires
            old(self).wf(),
        ensures
            final(self).wf(),
            n == final(self).spec_query_count(),
            n == if old(self).spec_query_count() == u64::MAX { u64::MAX } else { (old(self).spec_query_count() + 1) as u64 },
            final(self).spec_tiers() == old(self).spec_tiers(),
    {
        self.query_count = self.query_count.saturating_add(1);
        self.query_count
    }

    /// The churn count for the next rotation.
    pub fn churn_count<R: RandomSource>(&self, rng: &mut R) -> (n: usize)
        requires
            self.spec_tiers().spec_active().len() < u64::MAX,
        ensures
            ({
                let max_possible = vstd::math::min(
                    vstd::math::min(self.spec_budget().max_churn as int, self.spec_tiers().spec_active().len() as int),
                    self.spec_tiers().spec_dormant().len() as int,
                );
                vstd::math::min(self.spec_budget().min_churn as int, max_possible) <= n <= max_possible
            }),
    {
        self.tiers.churn_count(rng, &self.budget)
    }

    /// Retire a random active provider (first half of a swap).
    pub fn retire_random<R: RandomSource>(&mut self, rng: &mut R) -> (e: ([u8; 32], P))
        requires
            old(self).wf(),
            old(self).spec_tiers().spec_active().len() > 0,
        ensures
            final(self).wf(),
            final(self).spec_tiers().spec_dormant() == old(self).spec_tiers().spec_dormant(),
            final(self).spec_tiers().spec_active().len() + 1 == old(self).spec_tiers().spec_active().len(),
            final(self).spec_tiers().universe().insert(e) =~= old(self).spec_tiers().universe(),
    {
        let ghost before = self.tiers.spec_active();
        let e = self.tiers.retire_random(rng);
        proof {
            let i = choose|i: int| 0 <= i < before.len() && e == before[i] && self.tiers.spec_active()
                == crate::pool::tiers::swap_removed(before, i);
            crate::pool::tiers::lemma_swap_remove_multiset(before, i);
        }
        e
    }

    /// Activate the dormant provider at index `j`.
    pub fn activate(&mut self, j: usize)
        requires
            old(self).wf(),
            j < old(self).spec_tiers().spec_dormant().len(),
        ensures
            final(self).wf(),
            final(self).spec_tiers().spec_active().len() == old(self).spec_tiers().spec_active().len() + 1,
            final(self).spec_tiers().spec_dormant().len() + 1 == old(self).spec_tiers().spec_dormant().len(),
            final(self).spec_tiers().universe() =~= old(self).spec_tiers().universe(),
    {
        let ghost before = self.tiers.spec_dormant();
        self.tiers.activate(j);
        proof {
            crate::pool::tiers::lemma_swap_remove_multiset(before, j as int);
        }
    }

    /// Return retired providers to the dormant tier.
    pub fn restore(&mut self, retired: Vec<([u8; 32], P)>)
        requires
            old(self).wf(),
        ensures
            final(self).wf(),
            final(self).spec_tiers().spec_active() == old(self).spec_tiers().spec_active(),
            final(self).spec_tiers().spec_dormant() == old(self).spec_tiers().spec_dormant() + retired@,
    {
        self.tiers.restore(retired);
    }

    /// Close an epoch after a rotation of `churn` providers: the churn is
    /// remembered, the query count restarts, the epoch count grows
    /// (saturating) and every outstanding receipt is drained. Returns
    /// whether the reset policy resets the exposure counters now.
    pub fn finish_rotation(&mut self, churn: usize) -> (reset: bool)
        requires
            old(self).wf(),
        ensures
            final(self).wf(),
            final(self).spec_tiers() == old(self).spec_tiers(),
            final(self).spec_last_churn() == Some(churn),
            final(self).spec_query_count() == 0,
            final(self).spec_epoch_count() == if old(self).spec_epoch_count() == u32::MAX {
                u32::MAX
            } else {
                (old(self).spec_epoch_count() + 1) as u32
            },
            reset == spec_resets_at(old(self).spec_reset_policy(), final(self).spec_epoch_count()),
            old(self).spec_tracker() is None ==> final(self).spec_tracker() is None,
            final(self).spec_tracker() matches Some(t) ==> t.spec_outstanding() == Map::<u64, [u8; 32]>::empty()
                && t.spec_epoch() == final(self).spec_epoch_count(),
    {
        self.last_churn = Some(churn);
        self.query_count = 0;
        self.epoch_count = self.epoch_count.saturating_add(1);
        let reset = self.reset_policy.resets_at(self.epoch_count);
        match &mut self.admissible_tracker {
            Some(t) => t.drain_epoch(self.epoch_count),
            None => {},
        }
        reset
    }

    /// The churn of the last rotation, if any.
    pub fn last_churn(&self) -> (c: Option<usize>)
        ensures
            c == self.spec_last_churn(),
    {
        self.last_churn
    }

    /// The churn budget.
    pub fn churn_budget(&self) -> (b: ChurnBudget)
        ensures
            b == self.spec_budget(),
    {
        self.budget
    }

    /// A whole uniform rotation: swap a drawn number of random active
    /// providers for uniformly drawn dormant ones, then close the epoch.
    /// The pool's providers and both tier sizes are unchanged.
    pub fn rotate_uniform<R: RandomSource>(&mut self, rng: &mut R) -> (reset: bool)
        requires
            old(self).wf(),
            old(self).spec_tiers().spec_active().len() < u64::MAX,
        ensures
            final(self).wf(),
            final(self).spec_tiers().spec_active().len() == old(self).spec_tiers().spec_active().len(),
            final(self).spec_tiers().spec_dormant().len() == old(self).spec_tiers().spec_dormant().len(),
            final(self).spec_tiers().universe() =~= old(self).spec_tiers().universe(),
            final(self).spec_query_count() == 0,
            final(self).spec_tracker() matches Some(t) ==> t.spec_outstanding() == Map::<u64, [u8; 32]>::empty(),
            final(self).spec_last_churn() matches Some(n) && rotation_swaps(
                old(self).spec_tiers().spec_active(),
                old(self).spec_tiers().spec_dormant(),
                final(self).spec_tiers().spec_active(),
                final(self).spec_tiers().spec_dormant(),
                n as nat,
            ) && ({
                let max_possible = vstd::math::min(
                    vstd::math::min(old(self).spec_budget().max_churn as int, old(self).spec_tiers().spec_active().len() as int),
                    old(self).spec_tiers().spec_dormant().len() as int,
                );
                vstd::math::min(old(self).spec_budget().min_churn as int, max_possible) <= n <= max_possible
            }),
            final(self).spec_epoch_count() == if old(self).spec_epoch_count() == u32::MAX {
                u32::MAX
            } else {
                (old(self).spec_epoch_count() + 1) as u32
            },
    {
        let budget = self.budget;
        let n = self.tiers.rotate_uniform(rng, &budget);
        self.finish_rotation(n)
    }

    /// A whole rotation with chosen activations: draw the churn count,
    /// retire that many random active providers, then activate as many
    /// dormant providers, each the one `chooser` picks from the pool as it
    /// stands (a pick outside the dormant tier is replaced by a uniform
    /// draw), so a just-retired provider is never re-selected at once; then
    /// return the retired ones to the dormant tier and close the epoch.
    /// The pool's providers and both tier sizes are unchanged.
    pub fn rotate_with<C: RotationChooser<P>>(&mut self, chooser: &mut C) -> (reset: bool)
        requires
            old(self).wf(),
            old(self).spec_tiers().spec_active().len() < u64::MAX,
        ensures
            final(self).wf(),
            final(self).spec_tiers().spec_window() == old(self).spec_tiers().spec_window(),
            final(self).spec_tiers().spec_active().len() == old(self).spec_tiers().spec_active().len(),
            final(self).spec_tiers().spec_dormant().len() == old(self).spec_tiers().spec_dormant().len(),
            final(self).spec_tiers().universe() =~= old(self).spec_tiers().universe(),
            final(self).spec_query_count() == 0,
            final(self).spec_tracker() matches Some(t) ==> t.spec_outstanding() == Map::<u64, [u8; 32]>::empty(),
            final(self).spec_last_churn() matches Some(n) && rotation_swaps(
                old(self).spec_tiers().spec_active(),
                old(self).spec_tiers().spec_dormant(),
                final(self).spec_tiers().spec_active(),
                final(self).spec_tiers().spec_dormant(),
                n as nat,
            ) && ({
                let max_possible = vstd::math::min(
                    vstd::math::min(old(self).spec_budget().max_churn as int, old(self).spec_tiers().spec_active().len() as int),
                    old(self).spec_tiers().spec_dormant().len() as int,
                );
                vstd::math::min(old(self).spec_budget().min_churn as int, max_possible) <= n <= max_possible
            }),
            final(self).spec_epoch_count() == if old(self).spec_epoch_count() == u32::MAX {
                u32::MAX
            } else {
                (old(self).spec_epoch_count() + 1) as u32
            },
    {
        let budget = self.budget;
        let n = self.tiers.churn_count(chooser, &budget);
        let ghost active0 = self.tiers.spec_active();
        let ghost dormant0 = self.tiers.spec_dormant();
        let ghost a0 = active0.len();
        let ghost d0 = dormant0.len();
        let ghost u0 = self.tiers.universe();
        let ghost w0 = self.tiers.spec_window();
        let ghost e0 = self.epoch_count;
        let mut retired: Vec<([u8; 32], P)> = Vec::new();
        let mut t: usize = 0;
        while t < n
            invariant
                self.wf(),
                self.epoch_count == e0,
                n <= a0,
                n <= d0,
                0 <= t <= n,
                self.tiers.spec_active().len() == a0 - t,
                self.tiers.spec_dormant().len() == d0,
                retired@.len() == t,
                self.tiers.spec_window() == w0,
                self.tiers.universe().add(retired@.to_multiset()) =~= u0,
                self.tiers.spec_active().to_multiset().add(retired@.to_multiset()) =~= active0.to_multiset(),
                self.tiers.spec_dormant() == dormant0,
            decreases n - t,
        {
            let ghost before = self.tiers.spec_active();
            let e = self.tiers.retire_random(chooser);
            proof {
                let i = choose|i: int| 0 <= i < before.len() && e == before[i] && self.tiers.spec_active()
                    == crate::pool::tiers::swap_removed(before, i);
                crate::pool::tiers::lemma_swap_remove_multiset(before, i);
            }
            retired.push(e);
            t += 1;
        }
        let ghost kept = self.tiers.spec_active().to_multiset();
        let ghost mut activated: Seq<([u8; 32], P)> = Seq::empty();
        let mut s: usize = 0;
        while s < n
            invariant
                self.wf(),
                self.epoch_count == e0,
                n <= a0,
                n <= d0,
                0 <= s <= n,
                self.tiers.spec_active().len() == a0 - n + s,
                self.tiers.spec_dormant().len() == d0 - s,
                retired@.len() == n,
                self.tiers.spec_window() == w0,
                self.tiers.universe().add(retired@.to_multiset()) =~= u0,
                activated.len() == s,
                self.tiers.spec_active().to_multiset() =~= kept.add(activated.to_multiset()),
                self.tiers.spec_dormant().to_multiset().add(activated.to_multiset()) =~= dormant0.to_multiset(),
            decreases n - s,
        {
            let d = self.tiers.dormant_len();
            let pick = chooser.pick_dormant(self);
            let j = if pick < d {
                pick
            } else {
                lemire_uniform(chooser, d as u64) as usize
            };
            let ghost before = self.tiers.spec_dormant();
            let ghost before_active = self.tiers.spec_active();
            self.tiers.activate(j);
            proof {
                crate::pool::tiers::lemma_swap_remove_multiset(before, j as int);
                let e = before[j as int];
                assert(activated.push(e).to_multiset() =~= activated.to_multiset().insert(e));
                assert(self.tiers.spec_active().to_multiset() =~= before_active.to_multiset().insert(e));
                activated = activated.push(e);
            }
            s += 1;
        }
        let ghost dpre = self.tiers.spec_dormant();
        let ghost rv = retired@;
        self.tiers.restore(retired);
        proof {
            vstd::seq_lib::lemma_multiset_commutative(dpre, rv);
            assert(self.tiers.spec_dormant() == dpre + rv);
            assert(self.tiers.universe() =~= self.tiers.spec_active().to_multiset().add(dpre.to_multiset()).add(
                rv.to_multiset(),
            ));
            assert(active0.to_multiset() =~= kept.add(rv.to_multiset()));
            assert(dormant0.to_multiset() =~= dpre.to_multiset().add(activated.to_multiset()));
            assert(rotation_swaps(active0, dormant0, self.tiers.spec_active(), self.tiers.spec_dormant(), n as nat)) by {
                assert(self.tiers.spec_dormant() == dpre + rv);
            }
        }
        self.finish_rotation(n)
    }
}

/// Outcomes are accepted only against receipts this pool issued: a pool
/// accepts a receipt exactly when it is outstanding in the current epoch
/// for the provider it names.
pub proof fn lemma_outcome_needs_issued_receipt<P>(pool: PoolCore<P>, receipt: SelectionReceipt)
    requires
        pool.spec_tracker() is Some,
    ensures
        receipt_verdict(pool.spec_tracker().unwrap().spec_epoch(), pool.spec_tracker().unwrap().spec_outstanding(), receipt) is Ok
            <==> (receipt.spec_epoch_count() == pool.spec_tracker().unwrap().spec_epoch()
            && pool.spec_tracker().unwrap().spec_outstanding().contains_key(receipt.spec_observation_id())
            && pool.spec_tracker().unwrap().spec_outstanding()[receipt.spec_observation_id()]@ == receipt.spec_provider_id()@),
{
}

} // verus!
