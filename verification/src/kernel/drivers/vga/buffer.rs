//! A VGA text writer on the bottom line of the 80x25 buffer: each byte
//! becomes one cell write.
use vstd::prelude::*;
use crate::security::drivers::vga::buffer::{ScreenChar, BUFFER_HEIGHT, BUFFER_WIDTH};
use crate::security::drivers::vga::colors::{Color, ColorCode, color_index};
use vstd::string::StringSliceAdditionalSpecFns;

verus! {

/// The byte shown for `b`: printable ASCII and newline as they are, every
/// other byte as the block character 0xfe.
pub open spec fn displayed_byte(b: u8) -> u8 {
    if (0x20 <= b && b <= 0x7e) || b == 0x0A {
        b
    } else {
        0xfe
    }
}

/// The column and the cell write (buffer index and cell) after one byte,
/// from column `col`.
pub open spec fn byte_step(col: usize, color: ColorCode, byte: u8) -> (usize, Option<(usize, ScreenChar)>) {
    if byte == 0x0A {
        (0, None)
    } else {
        let c = if col >= BUFFER_WIDTH { 0 } else { col };
        (
            (c + 1) as usize,
            Some(
                (
                    ((BUFFER_HEIGHT - 1) * BUFFER_WIDTH + c) as usize,
                    ScreenChar { ascii_character: byte, color_code: color },
                ),
            ),
        )
    }
}

/// The column and the cell writes after a run of bytes, in order.
pub open spec fn string_steps(col: usize, color: ColorCode, bytes: Seq<u8>) -> (usize, Seq<(usize, ScreenChar)>)
    decreases bytes.len(),
{
    if bytes.len() == 0 {
        (col, Seq::empty())
    } else {
        let prev = string_steps(col, color, bytes.drop_last());
        let step = byte_step(prev.0, color, displayed_byte(bytes.last()));
        (
            step.0,
            match step.1 {
                Some(w) => prev.1.push(w),
                None => prev.1,
            },
        )
    }
}

/// Printable text is written as it is: from a column `col` with room for
/// it on the line, a run of printable ASCII bytes (0x20 through 0x7e, space
/// included) lands in consecutive cells of the bottom line, byte `k` in
/// column `col + k` unchanged, and the cursor ends after the last one.
pub proof fn lemma_printable_text_written(col: usize, color: ColorCode, bytes: Seq<u8>)
    requires
        col + bytes.len() <= BUFFER_WIDTH,
        forall|k: int| 0 <= k < bytes.len() ==> 0x20 <= #[trigger] bytes[k] <= 0x7e,
    ensures
        string_steps(col, color, bytes).0 == col + bytes.len(),
        string_steps(col, color, bytes).1.len() == bytes.len(),
        forall|k: int|
            0 <= k < bytes.len() ==> #[trigger] string_steps(col, color, bytes).1[k] == (
                ((BUFFER_HEIGHT - 1) * BUFFER_WIDTH + col + k) as usize,
                ScreenChar { ascii_character: bytes[k], color_code: color },
            ),
    decreases bytes.len(),
{
    if bytes.len() > 0 {
        let init = bytes.drop_last();
        lemma_printable_text_written(col, color, init);
        let prev = string_steps(col, color, init);
        assert(0x20 <= bytes.last() <= 0x7e);
        let steps = string_steps(col, color, bytes);
        assert forall|k: int| 0 <= k < bytes.len() implies #[trigger] steps.1[k] == (
            ((BUFFER_HEIGHT - 1) * BUFFER_WIDTH + col + k) as usize,
            ScreenChar { ascii_character: bytes[k], color_code: color },
        ) by {
            if k < bytes.len() - 1 {
                assert(steps.1[k] == prev.1[k]);
                assert(init[k] == bytes[k]);
            }
        }
    }
}

/// Bytes outside printable ASCII, other than newline, are shown as the
/// block character 0xfe; newline moves to the start of the line and writes
/// no cell.
pub proof fn lemma_unprintable_shown_as_block(col: usize, color: ColorCode, b: u8)
    ensures
        (b < 0x20 || b > 0x7e) && b != 0x0A ==> string_steps(col, color, seq![b]).1 == seq![
            (
                ((BUFFER_HEIGHT - 1) * BUFFER_WIDTH + (if col >= BUFFER_WIDTH { 0 } else { col })) as usize,
                ScreenChar { ascii_character: 0xfeu8, color_code: color },
            ),
        ],
        b == 0x0A ==> string_steps(col, color, seq![b]) == (0usize, Seq::<(usize, ScreenChar)>::empty()),
{
    let one = seq![b];
    assert(one.drop_last() =~= Seq::<u8>::empty());
    assert(one.last() == b);
    assert(string_steps(col, color, one.drop_last()) == (col, Seq::<(usize, ScreenChar)>::empty()));
    let step = byte_step(col, color, displayed_byte(b));
    if b != 0x0A {
        assert(string_steps(col, color, one).1 =~= Seq::<(usize, ScreenChar)>::empty().push(step.1->0));
    }
}

/// Writes text to the bottom line of the VGA buffer.
pub struct VgaWriter {
    column_position: usize,
    color_code: ColorCode,
}

impl VgaWriter {
    /// The cursor column.
    pub closed spec fn column(&self) -> usize {
        self.column_position
    }

    /// The attribute byte used for new cells.
    pub closed spec fn color(&self) -> ColorCode {
        self.color_code
    }

    /// The cursor never passes the last column plus one.
    pub open spec fn wf(&self) -> bool {
        self.column() <= BUFFER_WIDTH
    }

    /// A writer at column 0 with the given colours.
    pub fn new(foreground: Color, background: Color) -> (r: VgaWriter)
        ensures
            r.wf(),
            r.column() == 0,
            r.color().0 == color_index(background) * 16 + color_index(foreground),
    {
        VgaWriter { column_position: 0, color_code: ColorCode::new(foreground, background) }
    }

    /// Places one byte: a newline returns to column 0 and writes nothing;
    /// any other byte goes to the next cell of the bottom line (wrapping to
    /// column 0 after the last one), and the cell write is returned as the
    /// buffer index and the cell.
    pub fn write_byte(&mut self, byte: u8) -> (r: Option<(usize, ScreenChar)>)
        requires
            old(self).wf(),
        ensures
            final(self).wf(),
            final(self).color() == old(self).color(),
            (final(self).column(), r) == byte_step(old(self).column(), old(self).color(), byte),
    {
        match byte {
            0x0A => {
                self.new_line();
                None
            },
            byte => {
                if self.column_position >= BUFFER_WIDTH {
                    self.new_line();
                }
                let row = BUFFER_HEIGHT - 1;
                let col = self.column_position;
                let index = row * BUFFER_WIDTH + col;
                self.column_position = self.column_position + 1;
                Some((index, ScreenChar { ascii_character: byte, color_code: self.color_code }))
            },
        }
    }

    /// Places a string, showing non-printable bytes as blocks; returns the
    /// cell writes in order.
    pub fn write_string(&mut self, s: &str) -> (r: Vec<(usize, ScreenChar)>)
        requires
            old(self).wf(),
        ensures
            final(self).wf(),
            final(self).color() == old(self).color(),
            (final(self).column(), r@) == string_steps(old(self).column(), old(self).color(), s.spec_bytes()),
    {
        let bytes = s.as_bytes();
        let mut writes: Vec<(usize, ScreenChar)> = Vec::new();
        let mut i: usize = 0;
        while i < bytes.len()
            invariant
                self.wf(),
                self.color() == old(self).color(),
                bytes@ == s.spec_bytes(),
                0 <= i <= bytes@.len(),
                (self.column(), writes@) == string_steps(old(self).column(), old(self).color(), bytes@.take(i as int)),
            decreases bytes@.len() - i,
        {
            let byte = bytes[i];
            let shown = if (0x20 <= byte && byte <= 0x7e) || byte == 0x0A {
                byte
            } else {
                0xfe
            };
            let w = self.write_byte(shown);
            if let Some(cell) = w {
                writes.push(cell);
            }
            proof {
                assert(bytes@.take(i + 1).drop_last() =~= bytes@.take(i as int));
                assert(bytes@.take(i + 1).last() == byte);
            }
            i = i + 1;
        }
        proof {
            assert(bytes@.take(i as int) =~= bytes@);
        }
        writes
    }

    fn new_line(&mut self)
        ensures
            final(self).column() == 0,
            final(self).color() == old(self).color(),
    {
        self.column_position = 0;
    }
}

} // verus!
