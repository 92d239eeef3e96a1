//! Epoch phases of the exposure estimator.
use vstd::prelude::*;

verus! {

/// Adversarial epoch lifecycle phase, derived from the tracker's sample
/// count against the active pool size.
#[derive(Debug, Clone, Copy, PartialEq, Eq, Structural)]
pub enum EpochPhase {
    /// `total_samples < active_n`: estimator invalid.
    PostReset,
    /// `active_n ≤ total_samples < 4 * active_n`: estimator partially trustworthy.
    Reconverging,
    /// `total_samples ≥ 4 * active_n`: estimator asymptotically reliable.
    Steady,
}

impl EpochPhase {
    /// Classify the current epoch phase from tracker sample count and active pool size.
    pub fn for_pool(total_samples: u64, active_n: usize) -> (p: Self)
        ensures
            total_samples < active_n ==> p == EpochPhase::PostReset,
            active_n <= total_samples < 4 * active_n ==> p == EpochPhase::Reconverging,
            total_samples >= 4 * active_n ==> p == EpochPhase::Steady,
    {
        let n = active_n as u64;
        if total_samples < n {
            EpochPhase::PostReset
        } else if (total_samples as u128) < 4 * (n as u128) {
            EpochPhase::Reconverging
        } else {
            EpochPhase::Steady
        }
    }
}

} // verus!
