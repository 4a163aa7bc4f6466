//! Translation of PS/2 scan code set 1 into characters.
use vstd::prelude::*;

verus! {

/// The (unshifted, shifted) characters of a key press scan code, for the
/// keys that produce one: digits and their symbols, letters, punctuation,
/// space, enter and backspace.
pub open spec fn key_chars(scancode: u8) -> Option<(char, char)> {
    match scancode {
        0x02u8 => Some(('1', '!')),
        0x03u8 => Some(('2', '@')),
        0x04u8 => Some(('3', '#')),
        0x05u8 => Some(('4', '$')),
        0x06u8 => Some(('5', '%')),
        0x07u8 => Some(('6', '^')),
        0x08u8 => Some(('7', '&')),
        0x09u8 => Some(('8', '*')),
        0x0Au8 => Some(('9', '(')),
        0x0Bu8 => Some(('0', ')')),
        0x0Cu8 => Some(('-', '_')),
        0x0Du8 => Some(('=', '+')),
        0x10u8 => Some(('q', 'Q')),
        0x11u8 => Some(('w', 'W')),
        0x12u8 => Some(('e', 'E')),
        0x13u8 => Some(('r', 'R')),
        0x14u8 => Some(('t', 'T')),
        0x15u8 => Some(('y', 'Y')),
        0x16u8 => Some(('u', 'U')),
        0x17u8 => Some(('i', 'I')),
        0x18u8 => Some(('o', 'O')),
        0x19u8 => Some(('p', 'P')),
        0x1Eu8 => Some(('a', 'A')),
        0x1Fu8 => Some(('s', 'S')),
        0x20u8 => Some(('d', 'D')),
        0x21u8 => Some(('f', 'F')),
        0x22u8 => Some(('g', 'G')),
        0x23u8 => Some(('h', 'H')),
        0x24u8 => Some(('j', 'J')),
        0x25u8 => Some(('k', 'K')),
        0x26u8 => Some(('l', 'L')),
        0x2Cu8 => Some(('z', 'Z')),
        0x2Du8 => Some(('x', 'X')),
        0x2Eu8 => Some(('c', 'C')),
        0x2Fu8 => Some(('v', 'V')),
        0x30u8 => Some(('b', 'B')),
        0x31u8 => Some(('n', 'N')),
        0x32u8 => Some(('m', 'M')),
        0x1Au8 => Some(('[', '{')),
        0x1Bu8 => Some((']', '}')),
        0x27u8 => Some((';', ':')),
        0x28u8 => Some(('\'', '"')),
        0x29u8 => Some(('`', '~')),
        0x2Bu8 => Some(('\\', '|')),
        0x33u8 => Some((',', '<')),
        0x34u8 => Some(('.', '>')),
        0x35u8 => Some(('/', '?')),
        0x39u8 => Some((' ', ' ')),
        0x1Cu8 => Some(('\n', '\n')),
        0x0Eu8 => Some(('\x08', '\x08')),
        _ => None,
    }
}

/// The character a key press produces with the given shift state.
pub open spec fn key_char(scancode: u8, shift: bool) -> Option<char> {
    match key_chars(scancode) {
        Some(pair) => Some(if shift { pair.1 } else { pair.0 }),
        None => None,
    }
}

/// Whether a scan code is a shift press (left 0x2A, right 0x36).
pub open spec fn is_shift_press(scancode: u8) -> bool {
    scancode == 0x2A || scancode == 0x36
}

/// Whether a scan code is a shift release (left 0xAA, right 0xB6).
pub open spec fn is_shift_release(scancode: u8) -> bool {
    scancode == 0xAA || scancode == 0xB6
}

/// Keyboard modifier state.
pub struct KeyboardState {
    pub shift_pressed: bool,
}

impl KeyboardState {
    /// No modifier held.
    pub fn new() -> (r: KeyboardState)
        ensures
            !r.shift_pressed,
    {
        KeyboardState { shift_pressed: false }
    }

    /// Processes a raw scan code: shift presses and releases update the
    /// shift state; other releases (high bit set) are ignored; key presses
    /// produce their character for the current shift state, if they have one.
    pub fn process_scancode(&mut self, scancode: u8) -> (r: Option<char>)
        ensures
            final(self).shift_pressed == (if is_shift_press(scancode) {
                true
            } else if is_shift_release(scancode) {
                false
            } else {
                old(self).shift_pressed
            }),
            r == (if is_shift_press(scancode) || is_shift_release(scancode) || scancode >= 0x80 {
                None
            } else {
                key_char(scancode, old(self).shift_pressed)
            }),
    {
        match scancode {
            0x2A | 0x36 => {
                self.shift_pressed = true;
                None
            },
            0xAA | 0xB6 => {
                self.shift_pressed = false;
                None
            },
            code => {
                let released = code & 0x80 != 0;
                assert(released == (code >= 0x80)) by (bit_vector)
                    requires
                        released == (code & 0x80 != 0),
                ;
                if released {
                    None
                } else {
                    self.map_key(code)
                }
            },
        }
    }

    fn map_key(&self, scancode: u8) -> (r: Option<char>)
        ensures
            r == key_char(scancode, self.shift_pressed),
    {
        let (unshifted, shifted) = match scancode {
            0x02 => ('1', '!'),
            0x03 => ('2', '@'),
            0x04 => ('3', '#'),
            0x05 => ('4', '$'),
            0x06 => ('5', '%'),
            0x07 => ('6', '^'),
            0x08 => ('7', '&'),
            0x09 => ('8', '*'),
            0x0A => ('9', '('),
            0x0B => ('0', ')'),
            0x0C => ('-', '_'),
            0x0D => ('=', '+'),
            0x10 => ('q', 'Q'),
            0x11 => ('w', 'W'),
            0x12 => ('e', 'E'),
            0x13 => ('r', 'R'),
            0x14 => ('t', 'T'),
            0x15 => ('y', 'Y'),
            0x16 => ('u', 'U'),
            0x17 => ('i', 'I'),
            0x18 => ('o', 'O'),
            0x19 => ('p', 'P'),
            0x1E => ('a', 'A'),
            0x1F => ('s', 'S'),
            0x20 => ('d', 'D'),
            0x21 => ('f', 'F'),
            0x22 => ('g', 'G'),
            0x23 => ('h', 'H'),
            0x24 => ('j', 'J'),
            0x25 => ('k', 'K'),
            0x26 => ('l', 'L'),
            0x2C => ('z', 'Z'),
            0x2D => ('x', 'X'),
            0x2E => ('c', 'C'),
            0x2F => ('v', 'V'),
            0x30 => ('b', 'B'),
            0x31 => ('n', 'N'),
            0x32 => ('m', 'M'),
            0x1A => ('[', '{'),
            0x1B => (']', '}'),
            0x27 => (';', ':'),
            0x28 => ('\'', '"'),
            0x29 => ('`', '~'),
            0x2B => ('\\', '|'),
            0x33 => (',', '<'),
            0x34 => ('.', '>'),
            0x35 => ('/', '?'),
            0x39 => (' ', ' '),
            0x1C => ('\n', '\n'),
            0x0E => ('\x08', '\x08'),
            _ => return None,
        };
        if self.shift_pressed {
            Some(shifted)
        } else {
            Some(unshifted)
        }
    }
}

/// The number row of a US keyboard, left to right, from the `1` key.
pub open spec fn number_row() -> (Seq<char>, Seq<char>) {
    (
        seq!['1', '2', '3', '4', '5', '6', '7', '8', '9', '0', '-', '='],
        seq!['!', '@', '#', '$', '%', '^', '&', '*', '(', ')', '_', '+'],
    )
}

/// The top letter row of a US keyboard, left to right, from the `Q` key.
pub open spec fn top_row() -> (Seq<char>, Seq<char>) {
    (
        seq!['q', 'w', 'e', 'r', 't', 'y', 'u', 'i', 'o', 'p', '[', ']'],
        seq!['Q', 'W', 'E', 'R', 'T', 'Y', 'U', 'I', 'O', 'P', '{', '}'],
    )
}

/// The home row of a US keyboard, left to right, from the `A` key, with the
/// backquote key that set 1 numbers after it.
pub open spec fn home_row() -> (Seq<char>, Seq<char>) {
    (
        seq!['a', 's', 'd', 'f', 'g', 'h', 'j', 'k', 'l', ';', '\'', '`'],
        seq!['A', 'S', 'D', 'F', 'G', 'H', 'J', 'K', 'L', ':', '"', '~'],
    )
}

/// The bottom letter row of a US keyboard, left to right, from the `Z` key.
pub open spec fn bottom_row() -> (Seq<char>, Seq<char>) {
    (
        seq!['z', 'x', 'c', 'v', 'b', 'n', 'm', ',', '.', '/'],
        seq!['Z', 'X', 'C', 'V', 'B', 'N', 'M', '<', '>', '?'],
    )
}

/// Whether key `k` of a row whose first key has scan code `first` gives the
/// row's characters.
pub open spec fn row_key(first: int, row: (Seq<char>, Seq<char>), k: int) -> bool {
    &&& key_char((first + k) as u8, false) == Some(row.0[k])
    &&& key_char((first + k) as u8, true) == Some(row.1[k])
}

/// Scan code set 1 follows the US layout row by row: the number row from
/// 0x02, the top row from 0x10, the home row from 0x1E and the bottom row
/// from 0x2C give their keys' characters left to right (shifted with
/// shift), as do backslash (0x2B), space (0x39), enter (0x1C) and backspace
/// (0x0E); no other scan code gives a character.
pub proof fn lemma_us_layout()
    ensures
        forall|k: int| 0 <= k < 12 ==> #[trigger] row_key(0x02, number_row(), k),
        forall|k: int| 0 <= k < 12 ==> #[trigger] row_key(0x10, top_row(), k),
        forall|k: int| 0 <= k < 12 ==> #[trigger] row_key(0x1E, home_row(), k),
        forall|k: int| 0 <= k < 10 ==> #[trigger] row_key(0x2C, bottom_row(), k),
        key_char(0x2B, false) == Some('\\') && key_char(0x2B, true) == Some('|'),
        key_char(0x39, false) == Some(' ') && key_char(0x39, true) == Some(' '),
        key_char(0x1C, false) == Some('\n') && key_char(0x1C, true) == Some('\n'),
        key_char(0x0E, false) == Some('\x08') && key_char(0x0E, true) == Some('\x08'),
        forall|sc: u8|
            (#[trigger] key_chars(sc)) is Some <==> (0x02 <= sc <= 0x0D || 0x10 <= sc <= 0x1C || 0x1E
                <= sc <= 0x29 || 0x2B <= sc <= 0x35 || sc == 0x39 || sc == 0x0E),
{
    assert forall|k: int| 0 <= k < 12 implies #[trigger] row_key(0x02, number_row(), k) by {}
    assert forall|k: int| 0 <= k < 12 implies #[trigger] row_key(0x10, top_row(), k) by {}
    assert forall|k: int| 0 <= k < 12 implies #[trigger] row_key(0x1E, home_row(), k) by {}
    assert forall|k: int| 0 <= k < 10 implies #[trigger] row_key(0x2C, bottom_row(), k) by {}
}

/// Shift changes which character a key produces, never whether it produces
/// one.
pub proof fn lemma_shift_keeps_keys(scancode: u8)
    ensures
        (key_char(scancode, true) is Some) == (key_char(scancode, false) is Some),
{
}

/// Releases never produce characters, and a shift press or release never
/// produces one either.
pub proof fn lemma_releases_are_silent(scancode: u8)
    ensures
        scancode >= 0x80 ==> key_chars(scancode) is None,
        is_shift_press(scancode) ==> key_chars(scancode) is None,
{
}

} // verus!
