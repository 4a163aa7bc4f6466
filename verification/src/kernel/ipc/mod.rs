//! Capability-guarded IPC channels.

pub mod channel;
