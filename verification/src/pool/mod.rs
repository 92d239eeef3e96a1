//! Provider pool bookkeeping: admission, eviction, receipt-bound outcome
//! accounting, reputation and rotation state, and the integer selection
//! engine over active and dormant tiers.
pub mod admission;
pub mod engine;
pub mod eviction;
pub mod dummy;
pub mod exposure;
pub mod liveness;
pub mod metrics;
pub mod random;
pub mod reputation;
pub mod rotation;
pub mod tiers;
