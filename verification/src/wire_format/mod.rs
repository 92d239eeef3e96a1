//! Protocol-stable byte layouts: constants, length-prefixed framing,
//! canonical signing messages, transcript serialization and version
//! negotiation.
pub mod constants;
pub mod framing;
pub mod signing;
pub mod transcript;
pub mod version;
