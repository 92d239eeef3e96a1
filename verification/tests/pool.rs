use scp::crypto::keys::KeyPair;
use scp::pool::admission::{admission_challenge_message, AdmissionConfig, AdmissionError};
use scp::pool::dummy::{DummyQueryBudget, MAX_DUMMY_QUERIES_PER_MINUTE};
use scp::pool::engine::{policy_admissible, threshold_k, PoolCore, RotationChooser};
use scp::pool::eviction::{EvictionConfig, EvictionError, EvictionReason};
use scp::pool::exposure::AdmissibilityError;
use scp::pool::metrics::EpochPhase;
use scp::pool::random::{lemire_candidate, lemire_uniform, OsRandom, RandomSource};
use scp::pool::rotation::{DeferralReason, ExposureResetPolicy};
use scp::pool::tiers::select_random_k;
use std::time::Duration;

/// A deterministic word source: a 64-bit linear congruential sequence.
struct Lcg(u64);

impl RandomSource for Lcg {
    fn next_u64(&mut self) -> u64 {
        self.0 = self.0.wrapping_mul(6364136223846793005).wrapping_add(1442695040888963407);
        self.0
    }
}

fn pool_with(ids: &[u8]) -> PoolCore<u8> {
    let mut pool = PoolCore::new();
    for &id in ids {
        pool.add([id; 32], id);
    }
    pool
}

#[test]
fn recording_the_same_receipt_twice_is_rejected() {
    let mut pool = pool_with(&[1]);
    pool.set_admissible_tracking(16);
    let receipts = pool.issue_receipts(&vec![[1u8; 32]]);
    assert_eq!(receipts.len(), 1);
    assert_eq!(receipts[0].provider_id(), [1u8; 32]);
    assert_eq!(pool.record_admissible_failure(&receipts[0]), Ok(()));
    assert_eq!(pool.record_admissible_failure(&receipts[0]), Err(AdmissibilityError::UnknownReceipt));
    let totals = pool.admissible_tracker().as_ref().unwrap().totals();
    assert_eq!(totals, (0, 1, 1));
}

#[test]
fn a_receipt_tampered_to_a_different_provider_is_rejected() {
    let mut pool = pool_with(&[1]);
    pool.set_admissible_tracking(16);
    let receipts = pool.issue_receipts(&vec![[1u8; 32]]);
    let tampered = receipts[0].clone().with_provider_id([99u8; 32]);
    assert_eq!(pool.record_admissible_failure(&tampered), Err(AdmissibilityError::ProviderMismatch));
    assert_eq!(pool.record_admissible_failure(&receipts[0]), Ok(()));
    assert_eq!(pool.admissible_tracker().as_ref().unwrap().totals(), (0, 1, 1));
}

#[test]
fn capacity_exhaustion_refuses_further_selection() {
    let mut pool = pool_with(&[1, 2]);
    pool.set_admissible_tracking(1);
    assert_eq!(pool.check_receipt_capacity(), Ok(()));
    let receipts = pool.issue_receipts(&vec![[1u8; 32], [2u8; 32]]);
    assert_eq!(receipts.len(), 1);
    assert_eq!(pool.check_receipt_capacity(), Err(AdmissibilityError::ReceiptCapacityExhausted));
    pool.record_admissible_response(&receipts[0]).unwrap();
    assert_eq!(pool.check_receipt_capacity(), Ok(()));
}

#[test]
fn outcomes_without_tracking_are_refused() {
    let mut pool = pool_with(&[1]);
    assert_eq!(pool.check_receipt_capacity(), Ok(()));
    assert!(pool.issue_receipts(&vec![[1u8; 32]]).is_empty());
}

#[test]
fn rotation_drains_outstanding_receipts() {
    let mut pool: PoolCore<u8> = PoolCore::new();
    pool.set_active_window(2);
    for id in 1..=4u8 {
        pool.add([id; 32], id);
    }
    pool.set_admissible_tracking(16);
    let receipts = pool.issue_receipts(&vec![[1u8; 32]]);
    let mut rng = Lcg(7);
    pool.rotate_uniform(&mut rng);
    assert_eq!(pool.epoch_count(), 1);
    assert_eq!(pool.last_churn(), Some(1));
    assert_eq!(pool.record_admissible_response(&receipts[0]), Err(AdmissibilityError::StaleEpoch));
    assert_eq!(pool.len(), 4);
    assert_eq!(pool.tiers().active_len(), 2);
}

#[test]
fn active_window_places_overflow_in_dormant_tier() {
    let mut pool: PoolCore<u8> = PoolCore::new();
    pool.set_active_window(2);
    for id in 1..=5u8 {
        pool.add([id; 32], id);
    }
    assert_eq!(pool.tiers().active_len(), 2);
    assert_eq!(pool.tiers().dormant_len(), 3);
    assert_eq!(pool.rotation_precheck(), None);
    let small = pool_with(&[1]);
    assert_eq!(small.rotation_precheck(), Some(DeferralReason::DormantEmpty));
}

#[test]
fn failures_make_a_provider_dead() {
    let mut pool = pool_with(&[1, 2]);
    pool.set_liveness(2, u64::MAX);
    assert!(pool.is_live_at(&[1u8; 32], 100));
    pool.record_failure_at([1u8; 32], 100);
    assert!(pool.is_live_at(&[1u8; 32], 100));
    pool.record_failure_at([1u8; 32], 101);
    assert!(!pool.is_live_at(&[1u8; 32], 101));
    assert_eq!(pool.live_active_indices(101), vec![1]);
    pool.record_response_at([1u8; 32], 102);
    assert!(pool.is_live_at(&[1u8; 32], 102));
}

#[test]
fn silence_makes_a_provider_dead() {
    let mut pool = pool_with(&[1]);
    pool.set_liveness(u32::MAX, 60);
    pool.record_response_at([1u8; 32], 1_000);
    assert!(pool.is_live_at(&[1u8; 32], 1_059));
    assert!(!pool.is_live_at(&[1u8; 32], 1_060));
}

#[test]
fn selection_draws_distinct_live_providers() {
    let mut pool = pool_with(&[1, 2, 3, 4]);
    pool.set_liveness(1, u64::MAX);
    pool.record_failure_at([3u8; 32], 10);
    let mut rng = Lcg(42);
    let picked = pool.select_random_live(&mut rng, 2, 10);
    assert_eq!(picked.len(), 2);
    assert_ne!(picked[0], picked[1]);
    assert!(!picked.contains(&2));
    let all = pool.select_random_live(&mut rng, 10, 10);
    let mut sorted = all.clone();
    sorted.sort();
    assert_eq!(sorted, vec![0, 1, 3]);
}

#[test]
fn admission_challenge_signed_by_candidate_admits() {
    let candidate = KeyPair::generate();
    let mut pool: PoolCore<u8> = PoolCore::new();
    pool.set_admission(AdmissionConfig {
        max_admits_per_window: 2,
        window_duration: Duration::from_secs(3600),
        challenge_ttl: Duration::from_secs(60),
    });
    let challenge = pool.request_admission(candidate.public).unwrap();
    assert_eq!(pool.request_admission(candidate.public), Err(AdmissionError::PendingChallenge));
    let bad = candidate.sign(&[0u8; 10]);
    assert_eq!(pool.complete_admission(candidate.public, &bad, 7), Err(AdmissionError::SignatureInvalid));
    let sig = candidate.sign(&admission_challenge_message(&candidate.public, &challenge));
    assert_eq!(pool.complete_admission(candidate.public, &sig, 7), Ok(()));
    assert_eq!(pool.tiers().active_len(), 1);
    assert_eq!(pool.request_admission(candidate.public), Err(AdmissionError::AlreadyInPool));
    assert_eq!(pool.complete_admission(candidate.public, &sig, 7), Err(AdmissionError::ChallengeNotFound));
}

#[test]
fn admission_budget_is_claimed_per_request() {
    let mut pool: PoolCore<u8> = PoolCore::new();
    pool.set_admission(AdmissionConfig {
        max_admits_per_window: 1,
        window_duration: Duration::from_secs(3600),
        challenge_ttl: Duration::from_secs(60),
    });
    assert!(pool.request_admission([1u8; 32]).is_ok());
    assert_eq!(pool.request_admission([2u8; 32]), Err(AdmissionError::BudgetExhausted));
    let mut ungated: PoolCore<u8> = PoolCore::new();
    assert_eq!(ungated.request_admission([1u8; 32]), Err(AdmissionError::NotConfigured));
}

#[test]
fn admission_at_an_explicit_time_honours_the_window() {
    let mut pool: PoolCore<u8> = PoolCore::new();
    pool.set_admission(AdmissionConfig {
        max_admits_per_window: 1,
        window_duration: Duration::from_secs(3600),
        challenge_ttl: Duration::from_secs(60),
    });
    assert_eq!(pool.request_admission_at([1u8; 32], 0, false, [5u8; 32]), Ok([5u8; 32]));
    assert_eq!(pool.request_admission_at([2u8; 32], 0, false, [6u8; 32]), Err(AdmissionError::BudgetExhausted));
    assert_eq!(pool.request_admission_at([2u8; 32], 0, true, [6u8; 32]), Ok([6u8; 32]));
}

#[test]
fn expired_challenge_is_refused() {
    let candidate = KeyPair::generate();
    let mut pool: PoolCore<u8> = PoolCore::new();
    pool.set_admission(AdmissionConfig {
        max_admits_per_window: 4,
        window_duration: Duration::from_secs(3600),
        challenge_ttl: Duration::from_secs(60),
    });
    let challenge = pool.request_admission_at(candidate.public, 0, false, [9u8; 32]).unwrap();
    let sig = candidate.sign(&admission_challenge_message(&candidate.public, &challenge));
    assert_eq!(pool.complete_admission_at(candidate.public, &sig, 1, true), Err(AdmissionError::ChallengeExpired));
    assert_eq!(pool.complete_admission_at(candidate.public, &sig, 1, false), Ok(()));
}

#[test]
fn eviction_ban_blocks_readmission_until_lifted() {
    let mut pool = pool_with(&[1, 2]);
    assert_eq!(pool.evict_at(&[1u8; 32], EvictionReason::OperatorBan, 10), Err(EvictionError::NotConfigured));
    pool.set_eviction(EvictionConfig::default());
    assert_eq!(pool.evict_at(&[9u8; 32], EvictionReason::OperatorBan, 10), Err(EvictionError::NotFound));
    assert_eq!(pool.evict_at(&[1u8; 32], EvictionReason::OperatorBan, 10), Ok(()));
    assert_eq!(pool.tiers().active_len(), 1);
    let rec = pool.eviction_record(&[1u8; 32]).copied().unwrap();
    assert_eq!(rec.evicted_at_secs, 10);
    assert_eq!(rec.reason, EvictionReason::OperatorBan);
    assert!(pool.lift_eviction_ban(&[1u8; 32]));
    assert!(!pool.lift_eviction_ban(&[1u8; 32]));
}

#[test]
fn eviction_cooldown_gates_admission_requests() {
    let mut pool = pool_with(&[]);
    pool.add([1u8; 32], 1);
    pool.set_eviction(EvictionConfig { liveness_cooldown_secs: 300, equivocation_cooldown_secs: 3600, max_re_admissions: 3 });
    pool.evict_at(&[1u8; 32], EvictionReason::LivenessExhausted, 1_000).unwrap();
    pool.set_admission(AdmissionConfig {
        max_admits_per_window: 10,
        window_duration: Duration::from_secs(3600),
        challenge_ttl: Duration::from_secs(60),
    });
    assert_eq!(
        pool.request_admission_at([1u8; 32], 1_100, false, [0u8; 32]),
        Err(AdmissionError::EvictionCooldown { eligible_at_secs: 1_300 })
    );
    assert_eq!(pool.request_admission_at([1u8; 32], 1_300, false, [0u8; 32]), Ok([0u8; 32]));
}

#[test]
fn exposure_reset_policies() {
    assert!(!ExposureResetPolicy::Never.resets_at(3));
    assert!(ExposureResetPolicy::OnRotation.resets_at(3));
    assert!(ExposureResetPolicy::AfterEpochs { n: 3 }.resets_at(6));
    assert!(!ExposureResetPolicy::AfterEpochs { n: 3 }.resets_at(7));
    assert!(!ExposureResetPolicy::AfterEpochs { n: 0 }.resets_at(7));
    assert!(ExposureResetPolicy::AfterEpochs { n: 0 }.resets_at(0));
}

#[test]
fn epoch_phase_boundaries() {
    assert_eq!(EpochPhase::for_pool(9, 10), EpochPhase::PostReset);
    assert_eq!(EpochPhase::for_pool(10, 10), EpochPhase::Reconverging);
    assert_eq!(EpochPhase::for_pool(39, 10), EpochPhase::Reconverging);
    assert_eq!(EpochPhase::for_pool(40, 10), EpochPhase::Steady);
}

#[test]
fn dummy_budget_grants_three_per_window() {
    let mut b = DummyQueryBudget::new();
    for _ in 0..MAX_DUMMY_QUERIES_PER_MINUTE {
        assert!(b.claim_at(false));
    }
    assert!(!b.claim_at(false));
    assert!(b.claim_at(true));
}

#[test]
fn lemire_draws_stay_in_range() {
    assert_eq!(lemire_candidate(0, 10), None);
    assert_eq!(lemire_candidate(0, 0), Some(0));
    assert_eq!(lemire_candidate(1u64 << 63, 2), Some(1));
    assert_eq!(lemire_candidate(u64::MAX, 10), Some(9));
    let mut rng = Lcg(1);
    for range in 1..50u64 {
        assert!(lemire_uniform(&mut rng, range) < range);
    }
    let mut os = OsRandom;
    assert!(lemire_uniform(&mut os, 3) < 3);
}

#[test]
fn select_random_k_returns_distinct_candidates() {
    let mut rng = Lcg(3);
    let candidates = vec![4usize, 8, 15, 16, 23, 42];
    let picked = select_random_k(&mut rng, &candidates, 4);
    assert_eq!(picked.len(), 4);
    for (i, a) in picked.iter().enumerate() {
        assert!(candidates.contains(a));
        assert!(!picked[i + 1..].contains(a));
    }
    assert_eq!(select_random_k(&mut rng, &candidates, 0), Vec::<usize>::new());
}

/// Picks a fixed dormant index, drawing words from an LCG.
struct FixedPick(Lcg, usize);

impl RandomSource for FixedPick {
    fn next_u64(&mut self) -> u64 {
        self.0.next_u64()
    }
}

impl RotationChooser<u8> for FixedPick {
    fn pick_dormant(&mut self, _pool: &PoolCore<u8>) -> usize {
        self.1
    }
}

#[test]
fn eviction_floor_refuses_the_last_dormant_providers() {
    let mut pool = pool_with(&[]);
    pool.set_active_window(1);
    pool.add([1u8; 32], 1);
    pool.add([2u8; 32], 2);
    pool.add([3u8; 32], 3);
    pool.set_eviction(EvictionConfig::default());
    // Two dormant over a window of one: removing one leaves one, which is enough.
    assert_eq!(pool.evict_at(&[2u8; 32], EvictionReason::LivenessExhausted, 5), Ok(()));
    assert!(!pool.tiers().contains(&[2u8; 32]));
    // One dormant left: removing it would leave none.
    assert_eq!(pool.evict_at(&[3u8; 32], EvictionReason::LivenessExhausted, 6), Err(EvictionError::WouldViolateDormantFloor));
    assert!(pool.tiers().contains(&[3u8; 32]));
    // Active providers are not held to the floor.
    assert_eq!(pool.evict_at(&[1u8; 32], EvictionReason::LivenessExhausted, 7), Ok(()));
    assert_eq!(pool.tiers().active_len() + pool.tiers().dormant_len(), 1);
}

#[test]
fn eviction_keeps_the_readmission_count() {
    let candidate = KeyPair::generate();
    let mut pool = pool_with(&[]);
    pool.set_eviction(EvictionConfig { liveness_cooldown_secs: 0, equivocation_cooldown_secs: 0, max_re_admissions: 5 });
    pool.set_admission(AdmissionConfig {
        max_admits_per_window: 10,
        window_duration: Duration::from_secs(3600),
        challenge_ttl: Duration::from_secs(60),
    });
    pool.add(candidate.public, 1);
    pool.evict_at(&candidate.public, EvictionReason::LivenessExhausted, 10).unwrap();
    assert_eq!(pool.eviction_record(&candidate.public).copied().unwrap().re_admission_count, 0);
    let challenge = pool.request_admission_at(candidate.public, 20, false, [4u8; 32]).unwrap();
    let sig = candidate.sign(&admission_challenge_message(&candidate.public, &challenge));
    assert_eq!(pool.complete_admission_at(candidate.public, &sig, 1, false), Ok(()));
    assert!(pool.tiers().contains(&candidate.public));
    assert_eq!(pool.eviction_record(&candidate.public).copied().unwrap().re_admission_count, 1);
    pool.evict_at(&candidate.public, EvictionReason::OperatorBan, 30).unwrap();
    let rec = pool.eviction_record(&candidate.public).copied().unwrap();
    assert_eq!(rec.re_admission_count, 1);
    assert_eq!(rec.evicted_at_secs, 30);
    assert!(!pool.tiers().contains(&candidate.public));
}

#[test]
fn admission_request_refuses_members_and_pending_candidates() {
    let mut pool = pool_with(&[1]);
    assert_eq!(pool.request_admission([2u8; 32]), Err(AdmissionError::NotConfigured));
    pool.set_admission(AdmissionConfig {
        max_admits_per_window: 10,
        window_duration: Duration::from_secs(3600),
        challenge_ttl: Duration::from_secs(60),
    });
    assert_eq!(pool.request_admission([1u8; 32]), Err(AdmissionError::AlreadyInPool));
    assert!(pool.request_admission([2u8; 32]).is_ok());
    assert_eq!(pool.request_admission([2u8; 32]), Err(AdmissionError::PendingChallenge));
}

#[test]
fn rotation_deferrals_come_in_order() {
    let mut pool = pool_with(&[1, 2]);
    assert_eq!(pool.rotation_deferral(true, EpochPhase::Steady, false), Some(DeferralReason::DormantEmpty));
    pool.set_active_window(2);
    pool.add([3u8; 32], 3);
    assert_eq!(pool.rotation_deferral(false, EpochPhase::PostReset, true), Some(DeferralReason::DormantBelowFloor));
    pool.set_active_window(1);
    assert_eq!(pool.rotation_deferral(false, EpochPhase::PostReset, true), Some(DeferralReason::Cooldown));
    assert_eq!(pool.rotation_deferral(true, EpochPhase::PostReset, false), Some(DeferralReason::EstimatorNotConverged));
    assert_eq!(pool.rotation_deferral(true, EpochPhase::Reconverging, true), Some(DeferralReason::EstimatorNotConverged));
    assert_eq!(pool.rotation_deferral(true, EpochPhase::Reconverging, false), None);
    assert_eq!(pool.rotation_deferral(true, EpochPhase::Steady, true), None);
    assert!(!policy_admissible(EpochPhase::PostReset, false));
    assert!(policy_admissible(EpochPhase::Steady, true));
}

#[test]
fn threshold_sample_size_is_clamped() {
    assert_eq!(threshold_k(2, 5, 10), 5);
    assert_eq!(threshold_k(2, 5, 3), 3);
    assert_eq!(threshold_k(4, 2, 10), 4);
    assert_eq!(threshold_k(4, 2, 3), 3);
    assert_eq!(threshold_k(0, 0, 7), 0);
}

#[test]
fn chosen_rotation_swaps_and_closes_the_epoch() {
    let mut pool = pool_with(&[]);
    pool.set_active_window(2);
    pool.set_churn_budget(scp::pool::rotation::ChurnBudget { min_churn: 2, max_churn: 2 });
    pool.add([1u8; 32], 1);
    pool.add([2u8; 32], 2);
    pool.add([3u8; 32], 3);
    pool.add([4u8; 32], 4);
    // An out-of-range pick falls back to a uniform draw.
    let mut chooser = FixedPick(Lcg(7), 99);
    pool.rotate_with(&mut chooser);
    assert_eq!(pool.epoch_count(), 1);
    assert_eq!(pool.last_churn(), Some(2));
    assert_eq!(pool.tiers().active_len(), 2);
    assert_eq!(pool.tiers().dormant_len(), 2);
    // Both formerly dormant providers are now active.
    assert!(pool.tiers().active_ids().contains(&[3u8; 32]));
    assert!(pool.tiers().active_ids().contains(&[4u8; 32]));
    let mut chooser = FixedPick(Lcg(1), 0);
    pool.rotate_with(&mut chooser);
    assert_eq!(pool.epoch_count(), 2);
    assert!(pool.tiers().active_ids().contains(&[1u8; 32]));
    assert!(pool.tiers().active_ids().contains(&[2u8; 32]));
}

#[test]
fn uniform_rotation_after_setup_advances_the_epoch() {
    let mut pool = pool_with(&[]);
    pool.set_active_window(2);
    pool.set_churn_budget(scp::pool::rotation::ChurnBudget { min_churn: 2, max_churn: 2 });
    pool.add([1u8; 32], 1);
    pool.add([2u8; 32], 2);
    pool.add([3u8; 32], 3);
    pool.rotate_uniform(&mut Lcg(0));
    assert_eq!(pool.tiers().active_len(), 2);
    assert_eq!(pool.tiers().dormant_len(), 1);
    assert_eq!(pool.epoch_count(), 1);
    assert!(pool.tiers().active_ids().contains(&[3u8; 32]));
}

#[test]
fn receipts_after_rotation_carry_the_pool_epoch() {
    let mut pool = pool_with(&[]);
    pool.set_active_window(1);
    pool.add([1u8; 32], 1);
    pool.add([2u8; 32], 2);
    pool.rotate_uniform(&mut Lcg(3));
    assert_eq!(pool.epoch_count(), 1);
    pool.set_admissible_tracking(16);
    let active = pool.tiers().active_ids();
    let receipts = pool.issue_receipts(&active);
    assert_eq!(receipts.len(), 1);
    assert_eq!(receipts[0].epoch_count(), 1);
    assert_eq!(pool.record_admissible_response(&receipts[0]), Ok(()));
}

#[test]
fn rotation_of_distinct_providers_moves_exactly_the_churn() {
    let mut pool = pool_with(&[]);
    pool.set_active_window(3);
    pool.set_churn_budget(scp::pool::rotation::ChurnBudget { min_churn: 2, max_churn: 2 });
    for id in 1u8..=6 {
        pool.add([id; 32], id);
    }
    let before = pool.tiers().active_ids();
    let dormant_before: Vec<[u8; 32]> = (0..pool.tiers().dormant_len()).map(|i| pool.tiers().dormant_at(i).0).collect();
    pool.rotate_uniform(&mut Lcg(11));
    let after = pool.tiers().active_ids();
    let left = before.iter().filter(|id| !after.contains(id)).count();
    assert_eq!(left, 2);
    assert!(after.iter().filter(|id| !before.contains(id)).all(|id| dormant_before.contains(id)));
    assert_eq!(pool.tiers().active_len(), 3);
    assert_eq!(pool.tiers().dormant_len(), 3);
}
