//! A supervisor for one long-running local backend service.
//!
//! The library holds the decisions of the supervisor: the lifecycle state
//! machine, the spawn protocol, readiness polling, shutdown with escalation,
//! the reading of health responses and of listener listings. It performs no
//! I/O. The caller starts processes, opens sockets, sends signals and sleeps,
//! and reports what happened as events.

pub mod config;
pub mod envfile;
pub mod health;
pub mod inspector;
pub mod lifecycle;
pub mod readiness;
pub mod relay;
pub mod setup;
pub mod shutdown;
pub mod spawn;
pub mod text;
