//! The VMX host kernel: guest domains and their round-robin scheduler,
//! vCPU register state, VM-exit dispatch, physical memory and hypercalls.

pub mod drivers;
pub mod hypercall;
pub mod memory;
pub mod sched;
pub mod vmm;
