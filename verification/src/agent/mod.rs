//! The development endpoint's logic: command-line flags, contact cards,
//! signed agent envelopes and their receiver-side checks.
pub mod args;
pub mod envelope;
pub mod receive;
pub mod signed_fields;
