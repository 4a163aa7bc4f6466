//! The security kernel: capability tokens, drivers, memory streams,
//! scheduling and user-interface geometry.

pub mod arch;
pub mod capability;
pub mod drivers;
pub mod memory;
pub mod sched;
pub mod ui;
