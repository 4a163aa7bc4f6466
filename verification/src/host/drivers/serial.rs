//! The host kernel's serial console on COM1.
use vstd::prelude::*;
use crate::kernel::arch::serial::{COM1, uart_init_sequence, uart_init_writes};

verus! {

/// The host's console port, COM1.
pub struct SerialPort;

impl SerialPort {
    /// The register writes that initialise COM1.
    pub fn init_writes() -> (r: Vec<(u16, u8)>)
        ensures
            r@ == uart_init_sequence(COM1),
    {
        uart_init_writes(COM1)
    }

    /// COM1's line status register.
    pub fn line_status_port() -> (r: u16)
        ensures
            r == COM1 + 5,
    {
        COM1 + 5
    }
}

} // verus!
