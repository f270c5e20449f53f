use vstd::prelude::*;
use vstd::string::StringSliceAdditionalSpecFns;
use crate::buffer::{is_grid, Buffer, ScreenChar, BUFFER_HEIGHT, BUFFER_WIDTH};
use crate::color::ColorCode;
use crate::screen::{blank, glyph, glyphs, Screen, NEWLINE, SPACE, UNPRINTABLE};

verus! {

/// Renders a byte stream onto the bottom row of a display surface, scrolling
/// the surface up when a newline comes or the row is full.
pub struct Writer {
    column_position: usize,
    color_code: ColorCode,
    buffer: Buffer,
}

impl View for Writer {
    type V = Screen;

    closed spec fn view(&self) -> Screen {
        Screen {
            rows: self.buffer@,
            column: self.column_position as nat,
            color: self.color_code,
        }
    }
}

impl Writer {
    /// A writer with its cursor at the start of the bottom row, drawing in
    /// `color_code` onto `buffer`.
    pub fn new(color_code: ColorCode, buffer: Buffer) -> (r: Writer)
        requires
            is_grid(buffer@),
        ensures
            r@ == (Screen { rows: buffer@, column: 0, color: color_code }),
    {
        Writer { column_position: 0, color_code, buffer }
    }

    /// The cursor column on the bottom row.
    pub fn column_position(&self) -> (r: usize)
        ensures
            r == self@.column,
    {
        self.column_position
    }

    /// The attribute that new cells are written with.
    pub fn color_code(&self) -> (r: ColorCode)
        ensures
            r == self@.color,
    {
        self.color_code
    }

    /// The cell at (`row`, `col`), read back from the surface.
    pub fn read_char(&self, row: usize, col: usize) -> (r: ScreenChar)
        requires
            self@.wf(),
            row < BUFFER_HEIGHT,
            col < BUFFER_WIDTH,
        ensures
            r == self@.rows[row as int][col as int],
    {
        self.buffer.read(row, col)
    }

    /// Renders one byte: a newline scrolls; any other byte is stored as is at
    /// the cursor, after a scroll when the bottom row is full.
    pub fn write_byte(&mut self, byte: u8)
        requires
            old(self)@.wf(),
        ensures
            final(self)@.wf(),
            final(self)@ == old(self)@.put(byte),
    {
        match byte {
            NEWLINE => self.new_line(),
            byte => {
                if self.column_position >= BUFFER_WIDTH {
                    self.new_line();
                }
                let row = BUFFER_HEIGHT - 1;
                let col = self.column_position;
                let color_code = self.color_code;
                self.buffer.write(row, col, ScreenChar { ascii_character: byte, color_code });
                self.column_position += 1;
            },
        }
    }

    /// Renders the bytes of `s` in order, each printable byte and newline as
    /// itself and every other byte as the placeholder glyph.
    pub fn write_string(&mut self, s: &str)
        requires
            old(self)@.wf(),
        ensures
            final(self)@.wf(),
            final(self)@ == old(self)@.put_all(glyphs(s.spec_bytes())),
    {
        let bytes = s.as_bytes();
        let mut i: usize = 0;
        while i < bytes.len()
            invariant
                self@.wf(),
                i <= bytes@.len(),
                bytes@ == s.spec_bytes(),
                self@ == old(self)@.put_all(glyphs(bytes@.take(i as int))),
            decreases bytes@.len() - i,
        {
            let byte = bytes[i];
            if (0x20 <= byte && byte <= 0x7e) || byte == NEWLINE {
                self.write_byte(byte);
            } else {
                self.write_byte(UNPRINTABLE);
            }
            proof {
                let done = glyphs(bytes@.take(i as int + 1));
                assert(done.drop_last() =~= glyphs(bytes@.take(i as int)));
                assert(done.last() == glyph(byte));
            }
            i += 1;
        }
        proof {
            assert(bytes@.take(i as int) =~= bytes@);
        }
    }

    /// Moves every row up by one, dropping the top row, blanks the bottom
    /// row and returns the cursor to column 0.
    fn new_line(&mut self)
        requires
            old(self)@.wf(),
        ensures
            final(self)@.wf(),
            final(self)@ == old(self)@.scrolled(),
            final(self)@.column == 0,
            final(self)@.color == old(self)@.color,
            forall|r: int| 1 <= r < BUFFER_HEIGHT ==> #[trigger] final(self)@.rows[r - 1] == old(self)@.rows[r],
            forall|c: int|
                0 <= c < BUFFER_WIDTH ==> #[trigger] final(self)@.rows[BUFFER_HEIGHT - 1][c] == blank(old(self)@.color),
    {
        let ghost before = self.buffer@;
        let mut row: usize = 1;
        while row < BUFFER_HEIGHT
            invariant
                1 <= row <= BUFFER_HEIGHT,
                is_grid(before),
                is_grid(self.buffer@),
                self.color_code == old(self).color_code,
                self.column_position == old(self).column_position,
                before == old(self).buffer@,
                forall|r: int| 0 <= r < row - 1 ==> #[trigger] self.buffer@[r] == before[r + 1],
                forall|r: int| row - 1 <= r < BUFFER_HEIGHT ==> #[trigger] self.buffer@[r] == before[r],
            decreases BUFFER_HEIGHT - row,
        {
            let mut col: usize = 0;
            while col < BUFFER_WIDTH
                invariant
                    1 <= row < BUFFER_HEIGHT,
                    col <= BUFFER_WIDTH,
                    is_grid(before),
                    is_grid(self.buffer@),
                    self.color_code == old(self).color_code,
                    self.column_position == old(self).column_position,
                    before == old(self).buffer@,
                    forall|r: int| 0 <= r < row - 1 ==> #[trigger] self.buffer@[r] == before[r + 1],
                    forall|r: int| row - 1 < r < BUFFER_HEIGHT ==> #[trigger] self.buffer@[r] == before[r],
                    forall|c: int| 0 <= c < col ==> #[trigger] self.buffer@[row - 1][c] == before[row as int][c],
                    forall|c: int|
                        col <= c < BUFFER_WIDTH ==> #[trigger] self.buffer@[row - 1][c] == before[row - 1][c],
                decreases BUFFER_WIDTH - col,
            {
                let character = self.buffer.read(row, col);
                self.buffer.write(row - 1, col, character);
                col += 1;
            }
            proof {
                assert(self.buffer@[row - 1] =~= before[row as int]);
            }
            row += 1;
        }
        self.clear_row(BUFFER_HEIGHT - 1);
        self.column_position = 0;
        proof {
            let expected = old(self)@.scrolled();
            assert forall|r: int| 0 <= r < BUFFER_HEIGHT implies #[trigger] self.buffer@[r] == expected.rows[r] by {
                if r == BUFFER_HEIGHT - 1 {
                    assert(self.buffer@[r] =~= expected.rows[r]);
                }
            }
            assert(self.buffer@ =~= expected.rows);
        }
    }

    /// Sets every cell of `row` to a blank in the current attribute.
    fn clear_row(&mut self, row: usize)
        requires
            old(self)@.wf(),
            row < BUFFER_HEIGHT,
        ensures
            final(self)@.wf(),
            final(self).column_position == old(self).column_position,
            final(self).color_code == old(self).color_code,
            forall|r: int| 0 <= r < BUFFER_HEIGHT && r != row ==> #[trigger] final(self)@.rows[r] == old(self)@.rows[r],
            forall|c: int| 0 <= c < BUFFER_WIDTH ==> #[trigger] final(self)@.rows[row as int][c] == blank(old(self).color_code),
    {
        let blank_char = ScreenChar { ascii_character: SPACE, color_code: self.color_code };
        let mut col: usize = 0;
        while col < BUFFER_WIDTH
            invariant
                col <= BUFFER_WIDTH,
                row < BUFFER_HEIGHT,
                self@.wf(),
                self.column_position == old(self).column_position,
                self.color_code == old(self).color_code,
                blank_char == blank(old(self).color_code),
                forall|r: int| 0 <= r < BUFFER_HEIGHT && r != row ==> #[trigger] self@.rows[r] == old(self)@.rows[r],
                forall|c: int| 0 <= c < col ==> #[trigger] self@.rows[row as int][c] == blank_char,
            decreases BUFFER_WIDTH - col,
        {
            self.buffer.write(row, col, blank_char);
            col += 1;
        }
    }
}

} // verus!

verus! {

/// Writes the greeting line, an `H` and then three strings, the latter two
/// with characters outside ASCII that show as one placeholder per byte.
pub fn print_something(writer: &mut Writer)
    requires
        old(writer)@.wf(),
    ensures
        final(writer)@.wf(),
        final(writer)@ == old(writer)@.put(0x48).put_all(glyphs("ello ".spec_bytes())).put_all(
            glyphs("W\u{f6}rld!".spec_bytes()),
        ).put_all(glyphs("\u{4f60}\u{597d}\n".spec_bytes())),
{
    writer.write_byte(0x48);
    writer.write_string("ello ");
    writer.write_string("W\u{f6}rld!");
    writer.write_string("\u{4f60}\u{597d}\n");
}

} // verus!
