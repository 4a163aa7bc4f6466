//! The security kernel's status bar and low-battery dialog.

pub mod dialog;
pub mod gfx;
pub mod status_bar;
