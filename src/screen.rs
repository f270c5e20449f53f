use vstd::prelude::*;
use crate::buffer::{is_grid, ScreenChar, BUFFER_HEIGHT, BUFFER_WIDTH};
use crate::color::ColorCode;

verus! {

/// The newline byte.
pub const NEWLINE: u8 = 0x0a;

/// The byte of a blank cell.
pub const SPACE: u8 = 0x20;

/// The glyph shown for a byte that the display cannot render.
pub const UNPRINTABLE: u8 = 0xfe;

/// What a writer shows: the grid of cells, the cursor column on the bottom
/// row, and the attribute that new cells are written with.
pub struct Screen {
    pub rows: Seq<Seq<ScreenChar>>,
    pub column: nat,
    pub color: ColorCode,
}

/// A byte that the display renders as itself.
pub open spec fn is_printable(b: u8) -> bool {
    0x20 <= b <= 0x7e
}

/// The byte that is rendered for `b`.
pub open spec fn glyph(b: u8) -> u8 {
    if is_printable(b) || b == NEWLINE {
        b
    } else {
        UNPRINTABLE
    }
}

/// The bytes that are rendered for a byte string.
pub open spec fn glyphs(bytes: Seq<u8>) -> Seq<u8> {
    bytes.map_values(|b: u8| glyph(b))
}

/// A blank cell in the given attribute.
pub open spec fn blank(color: ColorCode) -> ScreenChar {
    ScreenChar { ascii_character: SPACE, color_code: color }
}

/// A full row of blank cells in the given attribute.
pub open spec fn blank_row(color: ColorCode) -> Seq<ScreenChar> {
    Seq::new(BUFFER_WIDTH as nat, |c: int| blank(color))
}

impl Screen {
    pub open spec fn wf(self) -> bool {
        &&& is_grid(self.rows)
        &&& self.column <= BUFFER_WIDTH
    }

    /// Every row moved up by one, the top row dropped, a blank bottom row in
    /// the current attribute, and the cursor back at column 0.
    pub open spec fn scrolled(self) -> Screen {
        Screen {
            rows: Seq::new(
                BUFFER_HEIGHT as nat,
                |r: int|
                    if r < BUFFER_HEIGHT - 1 {
                        self.rows[r + 1]
                    } else {
                        blank_row(self.color)
                    },
            ),
            column: 0,
            color: self.color,
        }
    }

    /// The screen after one byte: a newline scrolls; any other byte scrolls
    /// first when the bottom row is full, then lands at the cursor, which
    /// moves one column right.
    pub open spec fn put(self, b: u8) -> Screen {
        if b == NEWLINE {
            self.scrolled()
        } else {
            let s = if self.column >= BUFFER_WIDTH {
                self.scrolled()
            } else {
                self
            };
            let last = BUFFER_HEIGHT - 1;
            Screen {
                rows: s.rows.update(
                    last,
                    s.rows[last].update(
                        s.column as int,
                        ScreenChar { ascii_character: b, color_code: s.color },
                    ),
                ),
                column: s.column + 1,
                color: s.color,
            }
        }
    }

    /// The screen after the bytes, one by one, in order.
    pub open spec fn put_all(self, bytes: Seq<u8>) -> Screen
        decreases bytes.len(),
    {
        if bytes.len() == 0 {
            self
        } else {
            self.put_all(bytes.drop_last()).put(bytes.last())
        }
    }
}

} // verus!
