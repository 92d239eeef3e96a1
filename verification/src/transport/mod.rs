//! Flash transport: session identifiers, transcripts, replay protection,
//! the state-provider interface and multi-provider quorums, and the sender
//! and receiver halves of a burst.
pub mod corridor;
pub mod flash;
pub mod harness;
pub mod quorum;
pub mod replay;
pub mod session;
pub mod state;
pub mod transcript;
