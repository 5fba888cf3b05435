//! Page through a Valence table and apply per-row logic from the schema.

pub mod boson_setup;
pub mod dispatch;
pub mod orchestrator;
pub mod paging;
pub mod row_worker;
pub mod run_service;
