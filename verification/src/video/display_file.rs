//! The display file: 24 lines of 32 character codes, each line followed by a
//! line end, at the address that the system variable `D_FILE` holds.

use vstd::prelude::*;
use crate::memory::{add16, Memory, MemoryView};

verus! {

/// Lines on the screen.
pub const DISPLAY_ROWS: usize = 24;

/// Characters in a line.
pub const DISPLAY_COLS: usize = 32;

/// Address of the system variable that points to the display file.
pub const D_FILE: u16 = 0x400C;

/// Offset of the character set in the ROM: 64 glyphs of eight bytes.
pub const CHARSET: usize = 0x1E00;

/// One line of eight pixels of the glyph for `code`, the leftmost pixel in
/// bit 7: the byte of the character set, with every pixel flipped for a
/// character in inverse video.
pub open spec fn glyph_line_spec(rom: Seq<u8>, code: u8, line: int) -> u8 {
    let bits = rom[CHARSET + (code & 0x3F) * 8 + line];
    if code & 0x80 != 0 {
        !bits
    } else {
        bits
    }
}

/// The character codes of the screen, line by line.
pub struct DisplayFile {
    characters: Vec<u8>,
}

/// The address of the character at `row` and `col`: each line takes 33
/// bytes from the start of the display file.
pub open spec fn cell_addr(mem: MemoryView, row: int, col: int) -> u16 {
    add16(mem.read_word(D_FILE), row * 33 + col)
}

impl DisplayFile {
    /// There is one code for each place on the screen.
    pub closed spec fn wf(&self) -> bool {
        self.characters.len() == DISPLAY_ROWS * DISPLAY_COLS
    }

    /// The code at `row` and `col`.
    pub closed spec fn cell(&self, row: int, col: int) -> u8 {
        self.characters@[row * 32 + col]
    }

    /// A screen of zero codes.
    pub fn new() -> (display: DisplayFile)
        ensures
            display.wf(),
            forall|row: int, col: int| 0 <= row < 24 && 0 <= col < 32 ==> display.cell(row, col) == 0,
    {
        let display = DisplayFile { characters: vec![0u8; 768] };
        assert forall|row: int, col: int| 0 <= row < 24 && 0 <= col < 32 implies display.cell(
            row,
            col,
        ) == 0 by {
            assert(0 <= row * 32 + col < 768);
        }
        display
    }

    /// Reads the screen from memory.
    #[verifier::rlimit(40)]
    pub fn parse(&mut self, memory: &Memory)
        requires
            memory@.wf(),
        ensures
            final(self).wf(),
            forall|row: int, col: int|
                0 <= row < 24 && 0 <= col < 32 ==> #[trigger] final(self).cell(row, col)
                    == memory@.read(cell_addr(memory@, row, col)),
    {
        let start = memory.read_word(D_FILE);
        let mut chars: Vec<u8> = Vec::new();
        let mut addr = start;
        let mut row: usize = 0;
        while row < DISPLAY_ROWS
            invariant
                memory@.wf(),
                row <= 24,
                start == memory@.read_word(D_FILE),
                addr == add16(start, row * 33),
                chars.len() == row * 32,
                forall|i: int|
                    0 <= i < row * 32 ==> #[trigger] chars@[i] == memory@.read(
                        add16(start, (i / 32) * 33 + i % 32),
                    ),
            decreases 24 - row,
        {
            let mut col: usize = 0;
            while col < DISPLAY_COLS
                invariant
                    memory@.wf(),
                    row < 24,
                    col <= 32,
                    addr == add16(start, row * 33 + col),
                    chars.len() == row * 32 + col,
                    forall|i: int|
                        0 <= i < row * 32 + col ==> #[trigger] chars@[i] == memory@.read(
                            add16(start, (i / 32) * 33 + i % 32),
                        ),
                decreases 32 - col,
            {
                chars.push(memory.read(addr));
                addr = addr.wrapping_add(1);
                col += 1;
            }
            // the line end
            addr = addr.wrapping_add(1);
            row += 1;
        }
        self.characters = chars;
        assert forall|row: int, col: int| 0 <= row < 24 && 0 <= col < 32 implies #[trigger] self.cell(
            row,
            col,
        ) == memory@.read(cell_addr(memory@, row, col)) by {
            let i = row * 32 + col;
            assert(0 <= i < 768);
            assert(i / 32 == row && i % 32 == col);
        }
    }

    /// The character at `row` and `col`, without its inverse-video bit.
    pub fn get_char(&self, row: usize, col: usize) -> (c: u8)
        requires
            self.wf(),
            row < 24,
            col < 32,
        ensures
            c == self.cell(row as int, col as int) & 0x3F,
    {
        self.characters[row * 32 + col] & 0x3F
    }

    /// The place of the character at `row` and `col` in the character set.
    pub fn get_char_index(&self, row: usize, col: usize) -> (i: usize)
        requires
            self.wf(),
            row < 24,
            col < 32,
        ensures
            i == (self.cell(row as int, col as int) & 0x3F) as usize,
            i < 64,
    {
        let c = self.get_char(row, col);
        let ghost code = self.characters@[row * 32 + col];
        assert(c < 64) by (bit_vector)
            requires
                c == code & 0x3F,
        ;
        c as usize
    }

    /// Whether the character at `row` and `col` is shown in inverse video.
    pub fn is_inverse(&self, row: usize, col: usize) -> (inverse: bool)
        requires
            self.wf(),
            row < 24,
            col < 32,
        ensures
            inverse == (self.cell(row as int, col as int) & 0x80 != 0),
    {
        self.characters[row * 32 + col] & 0x80 != 0
    }

    /// Line `line` of the glyph of the character at `row` and `col`, as the
    /// character set in `rom` draws it.
    pub fn glyph_line(&self, rom: &[u8], row: usize, col: usize, line: usize) -> (bits: u8)
        requires
            self.wf(),
            rom.len() == 0x2000,
            row < 24,
            col < 32,
            line < 8,
        ensures
            bits == glyph_line_spec(rom@, self.cell(row as int, col as int), line as int),
    {
        let index = self.get_char_index(row, col);
        let bits = rom[CHARSET + index * 8 + line];
        if self.is_inverse(row, col) {
            !bits
        } else {
            bits
        }
    }
}

} // verus!
