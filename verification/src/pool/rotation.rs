//! Rotation bookkeeping shared by the pool: churn bounds, cooldowns, reset
//! policies and rotation outcomes.
use vstd::prelude::*;

verus! {

/// Bounds on per-rotation provider replacement count. The actual churn count
/// is drawn uniformly in `[min_churn, max_churn]` (clipped to what the tiers
/// allow), so the rotation rate itself is not fingerprintable.
#[derive(Debug, Clone, Copy)]
pub struct ChurnBudget {
    pub min_churn: usize,
    pub max_churn: usize,
}

/// When (and whether) a rotation resets the exposure counters.
#[derive(Clone, Copy, Debug)]
pub enum ExposureResetPolicy {
    /// Never reset. Full history accumulates across all epochs.
    Never,
    /// Reset on every rotation.
    OnRotation,
    /// Reset at epoch counts divisible by `n`.
    AfterEpochs { n: u32 },
}

/// Whether the policy resets the counters when the epoch count becomes
/// `epoch` (`u32::is_multiple_of`: a multiple of zero is only zero).
pub open spec fn spec_resets_at(policy: ExposureResetPolicy, epoch: u32) -> bool {
    match policy {
        ExposureResetPolicy::Never => false,
        ExposureResetPolicy::OnRotation => true,
        ExposureResetPolicy::AfterEpochs { n } => if n == 0 { epoch == 0 } else { epoch % n == 0 },
    }
}

impl ExposureResetPolicy {
    /// Whether this policy resets the counters at epoch count `epoch`.
    pub fn resets_at(&self, epoch: u32) -> (b: bool)
        ensures
            b == spec_resets_at(*self, epoch),
    {
        match self {
            ExposureResetPolicy::Never => false,
            ExposureResetPolicy::OnRotation => true,
            ExposureResetPolicy::AfterEpochs { n } => if *n == 0 { epoch == 0 } else { epoch % *n == 0 },
        }
    }
}

/// Minimum time that must elapse between two consecutive auto-rotations.
pub struct RotationCooldown {
    pub min_duration: std::time::Duration,
}

/// Outcome of a rotation attempt.
#[derive(Debug, Clone, Copy, PartialEq, Eq, Structural)]
pub enum RotationOutcome {
    /// Rotation was performed; active set changed.
    Rotated,
    /// Rotation was not performed.
    Deferred(DeferralReason),
}

/// Why a rotation attempt was deferred.
#[derive(Debug, Clone, Copy, PartialEq, Eq, Structural)]
pub enum DeferralReason {
    /// No dormant providers available to rotate in.
    DormantEmpty,
    /// Cooldown period has not elapsed since the last rotation.
    Cooldown,
    /// The estimator has insufficient history for this policy.
    EstimatorNotConverged,
    /// Dormant pool is smaller than the active window.
    DormantBelowFloor,
    /// Policy threshold not met; no rotation warranted.
    PolicyThresholdNotMet,
}

} // verus!
