//! Control plane for sealing workers: per-worker control handles, the
//! registry of them, and the service that lists, pauses and resumes them.

pub mod state;
pub mod types;
pub mod cell;
pub mod ctrl;
pub mod service;
pub mod config;
