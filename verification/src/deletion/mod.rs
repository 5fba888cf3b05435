//! Cascade deletion: run bookkeeping, DAG waves, per-step work, sweeps and debug access checks.

pub mod boson_setup;
pub mod debug;
pub mod dispatch;
pub mod orchestrator;
pub mod run_service;
pub mod step_worker;
pub mod sweep;
