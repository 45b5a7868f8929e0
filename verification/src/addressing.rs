//! The addressing scheme: how a column and a row map to one storage slot.
//!
//! A grid stores its cells column by column, so the rows of one column are
//! contiguous. The lemmas of this module show that the scheme is a bijection
//! between the rectangle of coordinates and the range of slots.

use vstd::arithmetic::div_mod::{lemma_fundamental_div_mod, lemma_fundamental_div_mod_converse};
use vstd::prelude::*;

verus! {

/// The storage slot of column `x`, row `y` in a grid with `height` rows.
pub open spec fn spec_index(x: int, y: int, height: int) -> int {
    x * height + y
}

/// Every coordinate pair of the rectangle maps to a slot of the storage.
pub proof fn lemma_index_in_range(x: int, y: int, width: int, height: int)
    requires
        0 <= x < width,
        0 <= y < height,
    ensures
        0 <= spec_index(x, y, height) < width * height,
{
    assert(0 <= x * height && (x + 1) * height <= width * height) by (nonlinear_arith)
        requires
            0 <= x < width,
            0 <= height,
    ;
    assert((x + 1) * height == x * height + height) by (nonlinear_arith);
}

/// The column and the row are recovered from a slot by division and
/// remainder.
pub proof fn lemma_index_decompose(x: int, y: int, height: int)
    requires
        0 <= y < height,
    ensures
        spec_index(x, y, height) / height == x,
        spec_index(x, y, height) % height == y,
{
    lemma_fundamental_div_mod_converse(spec_index(x, y, height), height, x, y);
}

/// Two coordinate pairs that share a slot are the same pair.
pub proof fn lemma_index_injective(x1: int, y1: int, x2: int, y2: int, height: int)
    requires
        0 <= y1 < height,
        0 <= y2 < height,
        spec_index(x1, y1, height) == spec_index(x2, y2, height),
    ensures
        x1 == x2,
        y1 == y2,
{
    lemma_index_decompose(x1, y1, height);
    lemma_index_decompose(x2, y2, height);
}

/// Every slot of the storage belongs to a coordinate pair of the rectangle:
/// to the column `i / height` and the row `i % height`.
pub proof fn lemma_index_onto(i: int, width: int, height: int)
    requires
        0 <= width,
        0 <= height,
        0 <= i < width * height,
    ensures
        0 <= i / height < width,
        0 <= i % height < height,
        spec_index(i / height, i % height, height) == i,
{
    assert(height > 0) by (nonlinear_arith)
        requires
            0 <= width,
            0 <= height,
            0 < width * height,
    ;
    lemma_fundamental_div_mod(i, height);
    let q = i / height;
    let r = i % height;
    assert(height * q == q * height) by (nonlinear_arith);
    assert(0 <= q < width) by (nonlinear_arith)
        requires
            0 < height,
            0 <= r < height,
            0 <= q * height + r < width * height,
    ;
}

/// A larger slot belongs to a later column, or to a later row of the same
/// column: the slots order the rectangle column by column.
pub proof fn lemma_index_ordered(x1: int, y1: int, x2: int, y2: int, height: int)
    requires
        0 <= y1 < height,
        0 <= y2 < height,
    ensures
        spec_index(x1, y1, height) < spec_index(x2, y2, height) <==> x1 < x2 || (x1 == x2 && y1
            < y2),
{
    if x1 < x2 {
        assert((x1 + 1) * height <= x2 * height) by (nonlinear_arith)
            requires
                x1 < x2,
                0 < height,
        ;
        assert((x1 + 1) * height == x1 * height + height) by (nonlinear_arith);
    } else if x2 < x1 {
        assert((x2 + 1) * height <= x1 * height) by (nonlinear_arith)
            requires
                x2 < x1,
                0 < height,
        ;
        assert((x2 + 1) * height == x2 * height + height) by (nonlinear_arith);
    }
}

} // verus!
