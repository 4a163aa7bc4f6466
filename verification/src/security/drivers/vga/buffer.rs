//! The VGA text buffer and a cursor-column manager for it.
use vstd::prelude::*;
use super::colors::ColorCode;

verus! {

pub const BUFFER_HEIGHT: usize = 25;
pub const BUFFER_WIDTH: usize = 80;

/// One screen cell: a character and its attribute byte.
#[derive(Debug, Clone, Copy, PartialEq, Eq, Structural)]
pub struct ScreenChar {
    pub ascii_character: u8,
    pub color_code: ColorCode,
}

/// The 80x25 text buffer.
pub struct Buffer {
    pub chars: [[ScreenChar; BUFFER_WIDTH]; BUFFER_HEIGHT],
}

/// Software cursor-column tracking for the VGA buffer.
pub struct VgaBufferManager {
    pub column_position: usize,
    pub color_code: ColorCode,
}

impl VgaBufferManager {
    /// A manager at column 0.
    pub fn new(color_code: ColorCode) -> (r: VgaBufferManager)
        ensures
            r.column_position == 0,
            r.color_code == color_code,
    {
        VgaBufferManager { column_position: 0, color_code }
    }

    /// Advances the cursor for one byte: a newline returns to column 0; any
    /// other byte takes the next column, wrapping to a new line after the
    /// last column.
    pub fn write_byte(&mut self, byte: u8)
        ensures
            final(self).color_code == old(self).color_code,
            final(self).column_position == (if byte == 0x0A {
                0
            } else if old(self).column_position >= BUFFER_WIDTH {
                1
            } else {
                old(self).column_position + 1
            }),
    {
        match byte {
            0x0A => self.new_line(),
            _ => {
                if self.column_position >= BUFFER_WIDTH {
                    self.new_line();
                }
                self.column_position = self.column_position + 1;
            },
        }
    }

    fn new_line(&mut self)
        ensures
            final(self).column_position == 0,
            final(self).color_code == old(self).color_code,
    {
        self.column_position = 0;
    }
}

} // verus!
