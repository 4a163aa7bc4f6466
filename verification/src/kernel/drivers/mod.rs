//! Battery saving, the PS/2 keyboard and the VGA text writer.

pub mod battery;
pub mod keyboard;
pub mod vga;
