//! A manager of background services on one host: it resolves a formula to
//! the descriptor of a service, starts the service, stops it and reports on
//! it.
//!
//! The library decides and computes; it touches neither files nor programs.
//! What it needs from the host it takes as plain values, and what the host
//! is to do it hands back as plain values: see [`lifecycle`] for the steps
//! of a start and of a stop. The one thing it does itself is to signal the
//! processes of a service, in [`signals`].

pub mod error;
pub mod launchd_config;
pub mod lifecycle;
pub mod paths;
pub mod scan;
pub mod service_manager;
pub mod services;
pub mod signals;
pub mod text;
