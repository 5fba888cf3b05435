//! Verified orchestration logic for Valence platform runs: table iters, cascade deletion and
//! budgeted Deferred TTL sweeps.

pub mod text;
pub mod model;
pub mod registration;
pub mod ttl;
pub mod iter;
pub mod deletion;
pub mod enqueue;
pub mod ids;
