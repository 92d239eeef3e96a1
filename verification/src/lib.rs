//! Sovereign Communication Protocol core: wire formats, transport state
//! machines, ledger state, relay helpers and provider-pool bookkeeping.
pub mod agent;
pub mod byte_map;
pub mod bytes;
pub mod clock;
pub mod identity;
pub mod crypto;
pub mod delivery;
pub mod hex;
pub mod ledger;
pub mod pool;
pub mod recovery;
pub mod relay;
pub mod transport;
pub mod vitality;
pub mod wire_format;

