//! Directory-consensus subsystem of a Tor-like network client.
//!
//! The library parses a plaintext network status document into a validated
//! `Consensus` (validity window plus a bounded sequence of available relays),
//! keeps the last fetched document in a time-bounded filesystem cache, and
//! selects a guard relay from a parsed consensus by bounded rejection
//! sampling.

pub mod cache;
pub mod consensus;
pub mod errors;
pub mod flags;
pub mod laws;
pub mod relay;
pub mod text;
pub mod time;
