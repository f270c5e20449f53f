use vstd::prelude::*;
use crate::buffer::{is_grid, ScreenChar, BUFFER_HEIGHT, BUFFER_WIDTH};
use crate::screen::{blank, glyph, glyphs, is_printable, Screen, NEWLINE, UNPRINTABLE};

verus! {

/// Rendering one byte keeps the screen's shape.
pub proof fn lemma_put_wf(s: Screen, b: u8)
    requires
        s.wf(),
    ensures
        s.put(b).wf(),
        s.put(b).color == s.color,
{
    let t = s.scrolled();
    assert(is_grid(t.rows));
}

/// Rendering bytes keeps the screen's shape.
pub proof fn lemma_put_all_wf(s: Screen, bytes: Seq<u8>)
    requires
        s.wf(),
    ensures
        s.put_all(bytes).wf(),
        s.put_all(bytes).color == s.color,
    decreases bytes.len(),
{
    if bytes.len() > 0 {
        lemma_put_all_wf(s, bytes.drop_last());
        lemma_put_wf(s.put_all(bytes.drop_last()), bytes.last());
    }
}

/// Rendering a single byte through the sequence form is rendering the byte.
proof fn lemma_put_all_single(s: Screen, b: u8)
    ensures
        s.put_all(seq![b]) == s.put(b),
{
    let one = seq![b];
    assert(one.drop_last() =~= Seq::<u8>::empty());
    assert(s.put_all(one.drop_last()) == s);
    assert(one.last() == b);
}

/// Rendering a concatenation is rendering its parts one after the other.
pub proof fn lemma_put_all_concat(s: Screen, x: Seq<u8>, y: Seq<u8>)
    ensures
        s.put_all(x + y) == s.put_all(x).put_all(y),
    decreases y.len(),
{
    if y.len() == 0 {
        assert(x + y =~= x);
    } else {
        assert((x + y).drop_last() =~= x + y.drop_last());
        lemma_put_all_concat(s, x, y.drop_last());
    }
}

/// Two writes in a row render exactly what one write of both texts,
/// concatenated, renders: each write's bytes land contiguously and in order,
/// with nothing of another in between.
pub proof fn lemma_writes_are_contiguous(s: Screen, a: Seq<u8>, b: Seq<u8>)
    ensures
        s.put_all(glyphs(a)).put_all(glyphs(b)) == s.put_all(glyphs(a + b)),
{
    assert(glyphs(a + b) =~= glyphs(a) + glyphs(b));
    lemma_put_all_concat(s, glyphs(a), glyphs(b));
}

/// A run of bytes without a newline that fits in the rest of the bottom row
/// lands there, cell after cell, and moves the cursor by its length.
proof fn lemma_run_in_row(s: Screen, bytes: Seq<u8>)
    requires
        s.wf(),
        s.column + bytes.len() <= BUFFER_WIDTH,
        forall|i: int| 0 <= i < bytes.len() ==> #[trigger] bytes[i] != NEWLINE,
    ensures
        s.put_all(bytes).wf(),
        s.put_all(bytes).color == s.color,
        s.put_all(bytes).column == s.column + bytes.len(),
        forall|r: int| 0 <= r < BUFFER_HEIGHT - 1 ==> #[trigger] s.put_all(bytes).rows[r] == s.rows[r],
        forall|i: int|
            0 <= i < bytes.len() ==> #[trigger] s.put_all(bytes).rows[BUFFER_HEIGHT - 1][s.column + i]
                == (ScreenChar { ascii_character: bytes[i], color_code: s.color }),
        forall|c: int|
            0 <= c < BUFFER_WIDTH && !(s.column <= c < s.column + bytes.len())
                ==> #[trigger] s.put_all(bytes).rows[BUFFER_HEIGHT - 1][c] == s.rows[BUFFER_HEIGHT - 1][c],
    decreases bytes.len(),
{
    lemma_put_all_wf(s, bytes);
    if bytes.len() > 0 {
        let init = bytes.drop_last();
        assert forall|i: int| 0 <= i < init.len() implies #[trigger] init[i] != NEWLINE by {
            assert(init[i] == bytes[i]);
        }
        lemma_run_in_row(s, init);
        let m = s.put_all(init);
        let t = s.put_all(bytes);
        assert(t == m.put(bytes.last()));
        assert forall|i: int| 0 <= i < bytes.len() implies #[trigger] t.rows[BUFFER_HEIGHT - 1][s.column + i]
            == (ScreenChar { ascii_character: bytes[i], color_code: s.color }) by {
            if i < init.len() {
                assert(m.rows[BUFFER_HEIGHT - 1][s.column + i] == (ScreenChar {
                    ascii_character: init[i],
                    color_code: s.color,
                }));
            }
        }
    }
}

/// Printable bytes render as themselves.
proof fn lemma_printable_glyphs(bytes: Seq<u8>)
    requires
        forall|i: int| 0 <= i < bytes.len() ==> is_printable(#[trigger] bytes[i]),
    ensures
        glyphs(bytes) == bytes,
{
    assert(glyphs(bytes) =~= bytes);
}

/// Writing printable bytes that fit in the rest of the bottom row moves the
/// cursor by their number and leaves every other row as it was; from the
/// start of the row, the cursor ends at the number of bytes written.
pub proof fn lemma_short_write_stays_in_row(s: Screen, bytes: Seq<u8>)
    requires
        s.wf(),
        s.column + bytes.len() <= BUFFER_WIDTH,
        forall|i: int| 0 <= i < bytes.len() ==> is_printable(#[trigger] bytes[i]),
    ensures
        s.put_all(glyphs(bytes)).column == s.column + bytes.len(),
        forall|r: int|
            0 <= r < BUFFER_HEIGHT - 1 ==> #[trigger] s.put_all(glyphs(bytes)).rows[r] == s.rows[r],
        forall|i: int|
            0 <= i < bytes.len() ==> #[trigger] s.put_all(glyphs(bytes)).rows[BUFFER_HEIGHT - 1][s.column
                + i] == (ScreenChar { ascii_character: bytes[i], color_code: s.color }),
{
    lemma_printable_glyphs(bytes);
    lemma_run_in_row(s, bytes);
}

/// From the start of the bottom row, a row's worth of printable bytes and
/// one more scroll the screen exactly once: the other rows move up by one,
/// the full row moves up with them, and the extra byte starts a fresh
/// bottom row at column 0.
pub proof fn lemma_overflow_scrolls_once(s: Screen, bytes: Seq<u8>)
    requires
        s.wf(),
        s.column == 0,
        bytes.len() == BUFFER_WIDTH + 1,
        forall|i: int| 0 <= i < bytes.len() ==> is_printable(#[trigger] bytes[i]),
    ensures
        s.put_all(glyphs(bytes)).column == 1,
        forall|r: int|
            0 <= r < BUFFER_HEIGHT - 2 ==> #[trigger] s.put_all(glyphs(bytes)).rows[r] == s.rows[r + 1],
        forall|c: int|
            0 <= c < BUFFER_WIDTH ==> #[trigger] s.put_all(glyphs(bytes)).rows[BUFFER_HEIGHT - 2][c]
                == (ScreenChar { ascii_character: bytes[c], color_code: s.color }),
        s.put_all(glyphs(bytes)).rows[BUFFER_HEIGHT - 1][0] == (ScreenChar {
            ascii_character: bytes[BUFFER_WIDTH as int],
            color_code: s.color,
        }),
        forall|c: int|
            1 <= c < BUFFER_WIDTH ==> #[trigger] s.put_all(glyphs(bytes)).rows[BUFFER_HEIGHT - 1][c]
                == blank(s.color),
{
    lemma_printable_glyphs(bytes);
    let init = bytes.drop_last();
    assert forall|i: int| 0 <= i < init.len() implies #[trigger] init[i] != NEWLINE by {
        assert(init[i] == bytes[i]);
    }
    lemma_run_in_row(s, init);
    let m = s.put_all(init);
    let t = s.put_all(bytes);
    assert(t == m.put(bytes.last()));
    assert forall|c: int| 0 <= c < BUFFER_WIDTH implies #[trigger] t.rows[BUFFER_HEIGHT - 2][c]
        == (ScreenChar { ascii_character: bytes[c], color_code: s.color }) by {
        assert(m.rows[BUFFER_HEIGHT - 1][0 + c] == (ScreenChar {
            ascii_character: init[c],
            color_code: s.color,
        }));
    }
}

/// A byte outside the printable range that is not a newline shows up as the
/// placeholder glyph at the cell it is written to.
pub proof fn lemma_unprintable_becomes_placeholder(s: Screen, b: u8)
    requires
        s.wf(),
        !is_printable(b),
        b != NEWLINE,
    ensures
        glyph(b) == UNPRINTABLE,
        1 <= s.put_all(glyphs(seq![b])).column <= BUFFER_WIDTH,
        s.put_all(glyphs(seq![b])).rows[BUFFER_HEIGHT - 1][s.put_all(glyphs(seq![b])).column - 1]
            == (ScreenChar { ascii_character: UNPRINTABLE, color_code: s.color }),
{
    assert(glyphs(seq![b]) =~= seq![UNPRINTABLE]);
    lemma_put_all_single(s, UNPRINTABLE);
    lemma_put_wf(s, UNPRINTABLE);
}

/// A newline puts the cursor back at column 0, wherever it was.
pub proof fn lemma_newline_resets_column(s: Screen)
    ensures
        s.put_all(glyphs(seq![NEWLINE])).column == 0,
{
    assert(glyphs(seq![NEWLINE]) =~= seq![NEWLINE]);
    lemma_put_all_single(s, NEWLINE);
}

/// A newline scrolls: each row but the top one moves up by one unchanged, and
/// the new bottom row is blank in the current attribute.
pub proof fn lemma_newline_scrolls(s: Screen)
    requires
        s.wf(),
    ensures
        forall|r: int|
            1 <= r < BUFFER_HEIGHT ==> #[trigger] s.put_all(glyphs(seq![NEWLINE])).rows[r - 1] == s.rows[r],
        forall|c: int|
            0 <= c < BUFFER_WIDTH ==> #[trigger] s.put_all(glyphs(seq![NEWLINE])).rows[BUFFER_HEIGHT - 1][c]
                == blank(s.color),
        s.put_all(glyphs(seq![NEWLINE])).color == s.color,
{
    assert(glyphs(seq![NEWLINE]) =~= seq![NEWLINE]);
    lemma_put_all_single(s, NEWLINE);
    assert(s.put_all(glyphs(seq![NEWLINE])) == s.scrolled());
}

} // verus!
