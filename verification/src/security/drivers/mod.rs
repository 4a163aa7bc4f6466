//! Battery telemetry and the VGA text buffer.

pub mod battery;
pub mod vga;
