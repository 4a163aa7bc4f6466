//! The VGA text writer.

pub mod buffer;
