//! Relay-side helpers: payload perturbation, relay discovery, the warm
//! session cache and the mailbox relay's store.
pub mod cache;
pub mod mailbox;
pub mod mesh;
pub mod perturbation;
