//! x86_64 platform devices.

pub mod serial;
