//! Long-lived services of the daemon.

pub mod recorder;
pub mod session;
