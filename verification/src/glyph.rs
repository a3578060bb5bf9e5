//! Glyph rasterization: turn the 8-byte bitmap of one glyph into the set of
//! pixel offsets, within its cell, that must be drawn in the foreground
//! colour.
//!
//! A bitmap row is scanned from bit 0 up to bit 6; a set bit `bit` plots
//! column `7 - bit`. Bit 7 is never tested, so column 0 stays a blank spacer
//! column.

use vstd::prelude::*;

verus! {

/// A pixel offset within a glyph cell, origin at the cell's top-left corner.
#[derive(Clone, Copy, PartialEq, Eq, Structural, Debug)]
pub struct Point {
    pub x: i32,
    pub y: i32,
}

/// A request to draw one glyph: the points to plot in the foreground
/// colour, relative to the 8x8 cell anchored at pixel position (x, y).
#[derive(PartialEq, Debug)]
pub struct GlyphDraw {
    pub x: i32,
    pub y: i32,
    pub points: Vec<Point>,
}

/// True when bit `bit` of the font row byte `b` is set.
pub open spec fn bit_set(b: u8, bit: u8) -> bool {
    b & (1u8 << bit) != 0
}

/// The points that the low `nbits` bits of row byte `b` contribute at pixel
/// row `y`, in bit order: a set bit `i` plots column `7 - i`.
pub open spec fn row_points_upto(b: u8, y: i32, nbits: u8) -> Seq<Point>
    decreases nbits,
{
    if nbits == 0 {
        Seq::empty()
    } else {
        row_points_upto(b, y, (nbits - 1) as u8) + if bit_set(b, (nbits - 1) as u8) {
            seq![Point { x: (7 - (nbits - 1)) as i32, y }]
        } else {
            Seq::empty()
        }
    }
}

/// The points one bitmap row contributes at pixel row `y`: bits 0 through 6
/// are tested, bit 7 never is.
pub open spec fn row_points(b: u8, y: i32) -> Seq<Point> {
    row_points_upto(b, y, 7)
}

/// All points of a glyph bitmap: row `i` (top to bottom) contributes its
/// points at pixel row `i`.
pub open spec fn glyph_points(rows: Seq<u8>) -> Seq<Point>
    decreases rows.len(),
{
    if rows.len() == 0 {
        Seq::empty()
    } else {
        glyph_points(rows.drop_last()) + row_points(rows.last(), (rows.len() - 1) as i32)
    }
}

/// Compute the foreground pixel offsets for a glyph bitmap, one byte per
/// row, top to bottom.
pub fn get_points(bytes: &Vec<u8>) -> (points: Vec<Point>)
    requires
        bytes@.len() <= i32::MAX,
    ensures
        points@ == glyph_points(bytes@),
{
    let mut points: Vec<Point> = Vec::new();
    let mut y: i32 = 0;
    let mut i: usize = 0;
    while i < bytes.len()
        invariant
            0 <= i <= bytes@.len() <= i32::MAX,
            y == i,
            points@ == glyph_points(bytes@.take(i as int)),
        decreases bytes@.len() - i,
    {
        let row = bytes[i];
        let mut bit: u8 = 0;
        while bit < 7
            invariant
                bit <= 7,
                i < bytes@.len() <= i32::MAX,
                y == i,
                row == bytes@[i as int],
                points@ == glyph_points(bytes@.take(i as int)) + row_points_upto(row, y, bit),
            decreases 7 - bit,
        {
            if row & (1u8 << bit) != 0 {
                points.push(Point { x: 7 - (bit as i32), y });
                proof {
                    assert(points@ =~= glyph_points(bytes@.take(i as int)) + row_points_upto(
                        row,
                        y,
                        (bit + 1) as u8,
                    ));
                }
            } else {
                proof {
                    assert(points@ =~= glyph_points(bytes@.take(i as int)) + row_points_upto(
                        row,
                        y,
                        (bit + 1) as u8,
                    ));
                }
            }
            bit = bit + 1;
        }
        proof {
            let j = i as int;
            assert(bytes@.take(j + 1).drop_last() =~= bytes@.take(j));
            assert(bytes@.take(j + 1).last() == bytes@[j]);
            assert(glyph_points(bytes@.take(j + 1)) == glyph_points(bytes@.take(j)) + row_points(
                bytes@[j],
                j as i32,
            ));
        }
        i = i + 1;
        y = y + 1;
    }
    proof {
        assert(bytes@.take(bytes@.len() as int) =~= bytes@);
    }
    points
}

proof fn lemma_row_upto_ignores_bit7(a: u8, b: u8, y: i32, nbits: u8)
    requires
        nbits <= 7,
        a & 0x7f == b & 0x7f,
    ensures
        row_points_upto(a, y, nbits) == row_points_upto(b, y, nbits),
    decreases nbits,
{
    if nbits > 0 {
        let k = (nbits - 1) as u8;
        lemma_row_upto_ignores_bit7(a, b, y, k);
        assert(bit_set(a, k) == bit_set(b, k)) by (bit_vector)
            requires
                a & 0x7f == b & 0x7f,
                k < 7,
        ;
    }
}

/// Rasterization never inspects bit 7 of a font row: two row bytes that
/// agree on their low seven bits contribute the same points.
pub proof fn lemma_row_ignores_bit7(a: u8, b: u8, y: i32)
    requires
        a & 0x7f == b & 0x7f,
    ensures
        row_points(a, y) == row_points(b, y),
{
    lemma_row_upto_ignores_bit7(a, b, y, 7);
}

/// The same law lifted to whole bitmaps: bit 7 of every row is ignored.
pub proof fn lemma_glyph_ignores_bit7(a: Seq<u8>, b: Seq<u8>)
    requires
        a.len() == b.len(),
        forall|i: int| 0 <= i < a.len() ==> a[i] & 0x7f == b[i] & 0x7f,
    ensures
        glyph_points(a) == glyph_points(b),
    decreases a.len(),
{
    if a.len() > 0 {
        assert(forall|i: int|
            0 <= i < a.drop_last().len() ==> a.drop_last()[i] & 0x7f == b.drop_last()[i] & 0x7f);
        lemma_glyph_ignores_bit7(a.drop_last(), b.drop_last());
        lemma_row_ignores_bit7(a.last(), b.last(), (a.len() - 1) as i32);
    }
}

proof fn lemma_row_upto_in_cell(b: u8, y: i32, nbits: u8)
    requires
        nbits <= 7,
    ensures
        forall|k: int|
            0 <= k < row_points_upto(b, y, nbits).len() ==> 1 <= (
            #[trigger] row_points_upto(b, y, nbits)[k]).x <= 7 && row_points_upto(b, y, nbits)[k].y
                == y,
    decreases nbits,
{
    if nbits > 0 {
        let pre = row_points_upto(b, y, (nbits - 1) as u8);
        let whole = row_points_upto(b, y, nbits);
        lemma_row_upto_in_cell(b, y, (nbits - 1) as u8);
        assert forall|k: int| 0 <= k < whole.len() implies 1 <= (#[trigger] whole[k]).x <= 7
            && whole[k].y == y by {
            if k < pre.len() {
                assert(whole[k] == pre[k]);
            } else {
                assert(whole[k] == (Point { x: (7 - (nbits - 1)) as i32, y }));
            }
        }
    }
}

/// Every plotted point lies inside the glyph cell: pixel rows 0 up to the
/// bitmap's height, and columns 1 through 7 (column 0 is the blank spacer).
pub proof fn lemma_points_in_cell(rows: Seq<u8>)
    requires
        rows.len() <= i32::MAX,
    ensures
        forall|k: int|
            0 <= k < glyph_points(rows).len() ==> 1 <= (#[trigger] glyph_points(rows)[k]).x <= 7
                && 0 <= glyph_points(rows)[k].y < rows.len(),
    decreases rows.len(),
{
    if rows.len() > 0 {
        let pre = glyph_points(rows.drop_last());
        let tail = row_points(rows.last(), (rows.len() - 1) as i32);
        let whole = glyph_points(rows);
        lemma_points_in_cell(rows.drop_last());
        lemma_row_upto_in_cell(rows.last(), (rows.len() - 1) as i32, 7);
        assert forall|k: int| 0 <= k < whole.len() implies 1 <= (#[trigger] whole[k]).x <= 7 && 0
            <= whole[k].y < rows.len() by {
            if k < pre.len() {
                assert(whole[k] == pre[k]);
            } else {
                assert(whole[k] == tail[k - pre.len()]);
            }
        }
    }
}

} // verus!
