use vstd::prelude::*;
use volatile::Volatile;
use crate::color::ColorCode;

verus! {

/// Number of text rows on the display.
pub const BUFFER_HEIGHT: usize = 25;

/// Number of character cells in each row.
pub const BUFFER_WIDTH: usize = 80;

/// One display cell: a code-page byte and its attribute byte.
#[derive(Debug, Clone, Copy, PartialEq, Eq, Structural)]
pub struct ScreenChar {
    pub ascii_character: u8,
    pub color_code: ColorCode,
}

#[verifier::external_type_specification]
#[verifier::external_body]
#[verifier::reject_recursive_types(T)]
pub struct ExVolatile<T: Copy>(Volatile<T>);

/// The cell value that a volatile slot currently holds.
pub uninterp spec fn volatile_value(v: Volatile<ScreenChar>) -> ScreenChar;

/// Relies on volatile::Volatile::new: the slot starts out holding `c`.
#[verifier::external_body]
fn new_cell(c: ScreenChar) -> (r: Volatile<ScreenChar>)
    ensures
        volatile_value(r) == c,
{
    Volatile::new(c)
}

/// Relies on volatile::Volatile::read: a volatile load of the value held.
#[verifier::external_body]
fn read_volatile(v: &Volatile<ScreenChar>) -> (r: ScreenChar)
    ensures
        r == volatile_value(*v),
{
    v.read()
}

/// The display surface: `BUFFER_HEIGHT` rows of `BUFFER_WIDTH` cells, every
/// one reached only through volatile loads and stores.
pub struct Buffer {
    chars: Vec<Vec<Volatile<ScreenChar>>>,
}

impl View for Buffer {
    type V = Seq<Seq<ScreenChar>>;

    closed spec fn view(&self) -> Seq<Seq<ScreenChar>> {
        self.chars@.map_values(
            |row: Vec<Volatile<ScreenChar>>| row@.map_values(|v: Volatile<ScreenChar>| volatile_value(v)),
        )
    }
}

/// A grid of the display's shape.
pub open spec fn is_grid(rows: Seq<Seq<ScreenChar>>) -> bool {
    &&& rows.len() == BUFFER_HEIGHT
    &&& forall|r: int| 0 <= r < BUFFER_HEIGHT ==> #[trigger] rows[r].len() == BUFFER_WIDTH
}

/// Relies on volatile::Volatile::write: a volatile store that replaces the
/// value held by the slot at (`row`, `col`) and leaves every other slot alone.
#[verifier::external_body]
fn write_volatile(buffer: &mut Buffer, row: usize, col: usize, c: ScreenChar)
    requires
        row < old(buffer).chars@.len(),
        col < old(buffer).chars@[row as int]@.len(),
    ensures
        final(buffer).chars@.len() == old(buffer).chars@.len(),
        forall|r: int|
            0 <= r < old(buffer).chars@.len() && r != row ==> #[trigger] final(buffer).chars@[r]
                == old(buffer).chars@[r],
        final(buffer).chars@[row as int]@ == old(buffer).chars@[row as int]@.update(
            col as int,
            final(buffer).chars@[row as int]@[col as int],
        ),
        volatile_value(final(buffer).chars@[row as int]@[col as int]) == c,
{
    buffer.chars[row][col].write(c)
}

impl Buffer {
    /// A surface of the display's shape with every cell set to `fill`.
    pub fn filled(fill: ScreenChar) -> (r: Buffer)
        ensures
            is_grid(r@),
            forall|i: int, j: int|
                0 <= i < BUFFER_HEIGHT && 0 <= j < BUFFER_WIDTH ==> #[trigger] r@[i][j] == fill,
    {
        let mut chars: Vec<Vec<Volatile<ScreenChar>>> = Vec::new();
        let mut i: usize = 0;
        while i < BUFFER_HEIGHT
            invariant
                i <= BUFFER_HEIGHT,
                chars@.len() == i,
                forall|a: int| 0 <= a < i ==> #[trigger] chars@[a]@.len() == BUFFER_WIDTH,
                forall|a: int, b: int|
                    0 <= a < i && 0 <= b < BUFFER_WIDTH ==> volatile_value(
                        #[trigger] chars@[a]@[b],
                    ) == fill,
            decreases BUFFER_HEIGHT - i,
        {
            let mut row: Vec<Volatile<ScreenChar>> = Vec::new();
            let mut j: usize = 0;
            while j < BUFFER_WIDTH
                invariant
                    j <= BUFFER_WIDTH,
                    row@.len() == j,
                    forall|b: int| 0 <= b < j ==> volatile_value(#[trigger] row@[b]) == fill,
                decreases BUFFER_WIDTH - j,
            {
                row.push(new_cell(fill));
                j += 1;
            }
            chars.push(row);
            i += 1;
        }
        let r = Buffer { chars };
        assert forall|i: int, j: int|
            0 <= i < BUFFER_HEIGHT && 0 <= j < BUFFER_WIDTH implies #[trigger] r@[i][j] == fill by {
            assert(volatile_value(r.chars@[i]@[j]) == fill);
        }
        r
    }

    /// Volatile load of the cell at (`row`, `col`).
    pub fn read(&self, row: usize, col: usize) -> (r: ScreenChar)
        requires
            is_grid(self@),
            row < BUFFER_HEIGHT,
            col < BUFFER_WIDTH,
        ensures
            r == self@[row as int][col as int],
    {
        proof {
            assert(self.chars@[row as int]@.len() == self@[row as int].len());
        }
        let cell = &self.chars[row][col];
        let r = read_volatile(cell);
        proof {
            assert(self@[row as int][col as int] == volatile_value(self.chars@[row as int]@[col as int]));
        }
        r
    }

    /// Volatile store of `c` into the cell at (`row`, `col`).
    pub fn write(&mut self, row: usize, col: usize, c: ScreenChar)
        requires
            is_grid(old(self)@),
            row < BUFFER_HEIGHT,
            col < BUFFER_WIDTH,
        ensures
            final(self)@ == old(self)@.update(
                row as int,
                old(self)@[row as int].update(col as int, c),
            ),
    {
        proof {
            assert(self.chars@[row as int]@.len() == self@[row as int].len());
        }
        write_volatile(self, row, col, c);
        proof {
            let ghost expected = old(self)@.update(row as int, old(self)@[row as int].update(col as int, c));
            assert(self@[row as int] =~= expected[row as int]);
            assert(self@ =~= expected);
        }
    }
}

} // verus!
