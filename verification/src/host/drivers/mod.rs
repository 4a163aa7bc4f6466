//! ACPI power control and the host's serial console.

pub mod power;
pub mod serial;
