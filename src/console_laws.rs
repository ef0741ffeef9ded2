use vstd::prelude::*;

use crate::vga_buffer::{cell_index, glyph, ConsoleView, Colour, REPLACEMENT_GLYPH};

verus! {

/// A sequence of bytes none of which is a newline.
pub open spec fn no_newline(bs: Seq<u8>) -> bool {
    forall|j: int| 0 <= j < bs.len() ==> bs[j] != 0x0a
}

/// Writing two byte sequences one after the other is writing their concatenation.
pub proof fn lemma_write_bytes_concat(v: ConsoleView, a: Seq<u8>, b: Seq<u8>)
    ensures
        v.write_bytes(a + b) == v.write_bytes(a).write_bytes(b),
    decreases b.len(),
{
    if b.len() == 0 {
        assert(a + b =~= a);
    } else {
        assert((a + b).drop_last() =~= a + b.drop_last());
        lemma_write_bytes_concat(v, a, b.drop_last());
    }
}

proof fn lemma_write_byte_shape(v: ConsoleView, b: u8)
    requires
        v.wf(),
        b != 0x0a,
    ensures
        ({
            let w = v.write_byte(b);
            &&& w.wf()
            &&& w.column >= 1
            &&& w.colour == v.colour
            &&& w.cell(w.row, w.column - 1).character == glyph(b)
        }),
{
    let u = v.initialise_line();
    assert(u.wf());
    if u.column >= 80 {
        assert(u.new_line().wf());
    }
}

/// A printable byte written at the cursor is stored as it is, in the cell
/// just left of where the cursor ends up.
pub proof fn lemma_printable_stored(v: ConsoleView, b: u8)
    requires
        v.wf(),
        0x20 <= b <= 0x7e,
    ensures
        ({
            let w = v.write_byte(b);
            w.column >= 1 && w.cell(w.row, w.column - 1).character == b
        }),
{
    lemma_write_byte_shape(v, b);
}

/// A byte that is neither printable nor a newline is stored as the replacement glyph.
pub proof fn lemma_unprintable_replaced(v: ConsoleView, b: u8)
    requires
        v.wf(),
        b != 0x0a,
        !(0x20 <= b <= 0x7e),
    ensures
        ({
            let w = v.write_byte(b);
            w.column >= 1 && w.cell(w.row, w.column - 1).character == REPLACEMENT_GLYPH
        }),
{
    lemma_write_byte_shape(v, b);
}

/// Bytes without a newline that fit on the current row land there, one
/// column after another; the cursor stays on the row and no cell outside the
/// written span of the row changes.
pub proof fn lemma_write_within_row(v: ConsoleView, bs: Seq<u8>)
    requires
        v.wf(),
        no_newline(bs),
        v.column + bs.len() <= 80,
    ensures
        ({
            let w = v.write_bytes(bs);
            &&& w.wf()
            &&& w.row == v.row
            &&& w.column == v.column + bs.len()
            &&& w.colour == v.colour
            &&& forall|j: int|
                0 <= j < bs.len() ==> #[trigger] w.cell(v.row, v.column + j).character == glyph(bs[j])
            &&& forall|k: int|
                0 <= k < 2000 && !(cell_index(v.row, 0) <= k < cell_index(v.row, v.column + bs.len()))
                    ==> #[trigger] w.cells[k] == v.cells[k]
        }),
    decreases bs.len(),
{
    if bs.len() > 0 {
        let p = bs.drop_last();
        assert(no_newline(p));
        lemma_write_within_row(v, p);
        let u = v.write_bytes(p);
        let b = bs.last();
        let x = u.initialise_line();
        assert(x.wf());
        assert forall|j: int| 0 <= j < bs.len() implies #[trigger] u.write_byte(b).cell(
            v.row,
            v.column + j,
        ).character == glyph(bs[j]) by {
            if j < p.len() {
                assert(u.cell(v.row, v.column + j).character == glyph(p[j]));
            }
        }
    }
}

/// Once the row is full, the next byte goes to column 0 of a new row: the
/// row below, or the last row after the grid has scrolled.
pub proof fn lemma_wrap_after_full_row(v: ConsoleView, bs: Seq<u8>)
    requires
        v.wf(),
        v.column == 0,
        bs.len() == 81,
        no_newline(bs),
    ensures
        ({
            let w = v.write_bytes(bs);
            &&& w.row == (if v.row < 24 { v.row + 1 } else { 24 })
            &&& w.column == 1
            &&& w.cell(w.row, 0).character == glyph(bs[80])
        }),
{
    let p = bs.drop_last();
    assert(no_newline(p));
    lemma_write_within_row(v, p);
    let u = v.write_bytes(p);
    assert(u.initialise_line().wf());
}

spec fn filled(w: ConsoleView, bs: Seq<u8>, n: int) -> bool {
    if n <= 2000 {
        &&& w.row * 80 + w.column == n
        &&& 0 <= w.column <= 80
        &&& (n > 0 ==> w.column >= 1)
        &&& forall|k: int| 0 <= k < n ==> #[trigger] w.cells[k].character == glyph(bs[k])
    } else {
        &&& w.row == 24
        &&& w.column == n - 2000
        &&& forall|k: int| 0 <= k < n - 80 ==> #[trigger] w.cells[k].character == glyph(bs[k + 80])
    }
}

proof fn lemma_fill(v: ConsoleView, bs: Seq<u8>, n: int)
    requires
        v.wf(),
        v.row == 0,
        v.column == 0,
        no_newline(bs),
        0 <= n <= bs.len(),
        n <= 2080,
    ensures
        v.write_bytes(bs.subrange(0, n)).wf(),
        filled(v.write_bytes(bs.subrange(0, n)), bs, n),
    decreases n,
{
    if n == 0 {
        assert(bs.subrange(0, 0) =~= Seq::<u8>::empty());
    } else {
        lemma_fill(v, bs, n - 1);
        let s = bs.subrange(0, n);
        assert(s.drop_last() =~= bs.subrange(0, n - 1));
        let u = v.write_bytes(bs.subrange(0, n - 1));
        let b = bs[n - 1];
        assert(b != 0x0a);
        let x = u.initialise_line();
        assert(x.wf());
        assert forall|k: int| 0 <= k < x.cells.len() implies #[trigger] x.cells[k].character
            == u.cells[k].character by {}
        let w = u.write_byte(b);
        if n <= 2000 {
            if x.column >= 80 {
                assert(x.row < 24);
            }
            assert forall|k: int| 0 <= k < n implies #[trigger] w.cells[k].character == glyph(
                bs[k],
            ) by {
                if k < n - 1 {
                    assert(x.cells[k].character == glyph(bs[k]));
                }
            }
        } else if n == 2001 {
            assert(x.row == 24 && x.column == 80);
            assert forall|k: int| 0 <= k < n - 80 implies #[trigger] w.cells[k].character
                == glyph(bs[k + 80]) by {
                if k < 1920 {
                    assert(x.cells[k + 80].character == glyph(bs[k + 80]));
                }
            }
        } else {
            assert forall|k: int| 0 <= k < n - 80 implies #[trigger] w.cells[k].character
                == glyph(bs[k + 80]) by {
                if k < n - 81 {
                    assert(x.cells[k].character == glyph(bs[k + 80]));
                }
            }
        }
    }
}

/// Writing `H * W + k` bytes without a newline from the top left, with
/// `0 < k <= W`, leaves nothing of what the grid held before: every row but
/// the last holds the bytes that followed the first row's worth, and the last
/// row starts with the `k` most recent ones.
pub proof fn lemma_scroll_discards_top_row(v: ConsoleView, bs: Seq<u8>, k: int)
    requires
        v.wf(),
        v.row == 0,
        v.column == 0,
        no_newline(bs),
        0 < k <= 80,
        bs.len() == 2000 + k,
    ensures
        ({
            let w = v.write_bytes(bs);
            &&& w.row == 24
            &&& w.column == k
            &&& forall|r: int, c: int|
                0 <= r < 24 && 0 <= c < 80 ==> #[trigger] w.cell(r, c).character == glyph(
                    bs[80 + cell_index(r, c)],
                )
            &&& forall|c: int|
                0 <= c < k ==> #[trigger] w.cell(24, c).character == glyph(bs[2000 + c])
        }),
{
    lemma_fill(v, bs, bs.len() as int);
    assert(bs.subrange(0, bs.len() as int) =~= bs);
    let w = v.write_bytes(bs);
    assert forall|r: int, c: int| 0 <= r < 24 && 0 <= c < 80 implies #[trigger] w.cell(
        r,
        c,
    ).character == glyph(bs[80 + cell_index(r, c)]) by {
        assert(w.cells[cell_index(r, c)].character == glyph(bs[cell_index(r, c) + 80]));
    }
    assert forall|c: int| 0 <= c < k implies #[trigger] w.cell(24, c).character == glyph(
        bs[2000 + c],
    ) by {
        assert(w.cells[cell_index(24, c)].character == glyph(bs[cell_index(24, c) + 80]));
    }
}

/// A colour change repaints exactly the cells already written on the current
/// row, keeping their characters; every other cell is left as it was.
pub proof fn lemma_recolour_scope(v: ConsoleView, c: u8)
    requires
        v.wf(),
    ensures
        ({
            let w = v.recolour(c);
            &&& w.wf()
            &&& w.row == v.row
            &&& w.column == v.column
            &&& w.colour == c
            &&& forall|r: int, col: int|
                0 <= r < 25 && 0 <= col < 80 ==> #[trigger] w.cell(r, col) == (if r == v.row && col
                    < v.column {
                    crate::vga_buffer::TerminalChar { character: v.cell(r, col).character, colour: Colour(c) }
                } else {
                    v.cell(r, col)
                })
        }),
{
}

} // verus!
