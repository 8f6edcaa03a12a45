//! Local-first synchronization engine: dirty tracking, connectivity state,
//! an append-only sync log and the orchestrator that reconciles local rows
//! with a remote service.
pub mod connectivity;
pub mod entity;
pub mod orchestrator;
pub mod store;
pub mod sync_log;

