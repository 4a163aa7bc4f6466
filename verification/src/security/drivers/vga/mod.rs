//! VGA text mode: colours, screen cells and the cursor column.

pub mod buffer;
pub mod colors;
