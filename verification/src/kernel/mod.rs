//! The security kernel's system services: the capability gate, drivers,
//! IPC channels, memory-region state, tasks and the framebuffer.

pub mod arch;
pub mod capability;
pub mod drivers;
pub mod ipc;
pub mod memory;
pub mod sched;
pub mod ui;
