//! The providers of descriptors, the log paths and the run-state store.

pub mod service_homebrew;
pub mod service_log;
pub mod service_state;
pub mod service_user_agent;
