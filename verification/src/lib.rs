//! Resolution of the runtime parameter set for a STARK prover.
//!
//! A caller supplies a partially specified configuration (fields may be
//! absent) together with a trace-step count; the library produces a fully
//! populated configuration that downstream proving code can rely on without
//! further null-checking. The one field that needs a computed fallback is the
//! FRI folding schedule: explicit user input always wins, and only when it is
//! absent is an external schedule computation consulted.

pub mod config;
pub mod error;
pub mod hashes;
