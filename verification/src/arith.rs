//! Facts of integer arithmetic that row-major addressing rests on.

use vstd::prelude::*;

verus! {

/// Dividing `row * width + column` by `width` gives back `row` and leaves
/// `column`.
pub proof fn lemma_row_column(row: int, column: int, width: int)
    requires
        0 <= row,
        0 <= column < width,
    ensures
        (row * width + column) / width == row,
        (row * width + column) % width == column,
{
    vstd::arithmetic::div_mod::lemma_fundamental_div_mod_converse(
        row * width + column,
        width,
        row,
        column,
    );
}

/// An index is its row times the width plus its column.
pub proof fn lemma_split(index: int, width: int)
    requires
        0 <= index,
        0 < width,
    ensures
        index == (index / width) * width + index % width,
        0 <= index % width < width,
        0 <= index / width,
{
    vstd::arithmetic::div_mod::lemma_fundamental_div_mod(index, width);
    assert(width * (index / width) == (index / width) * width) by (nonlinear_arith);
    assert(0 <= index / width) by (nonlinear_arith)
        requires
            0 <= index,
            0 < width,
    ;
}

/// An index below `width * height` lies in a row below `height`.
pub proof fn lemma_row_bound(index: int, width: int, height: int)
    requires
        0 <= index < width * height,
        0 <= width,
    ensures
        0 < width,
        0 <= index / width < height,
        0 <= index % width < width,
{
    assert(0 < width && 0 <= index / width < height && 0 <= index % width < width)
        by (nonlinear_arith)
        requires
            0 <= index < width * height,
            0 <= width,
    ;
}

/// A cell in a row below `height` and a column below `width` has an index
/// below `width * height`.
pub proof fn lemma_index_bound(row: int, column: int, width: int, height: int)
    requires
        0 <= row < height,
        0 <= column < width,
    ensures
        0 <= row * width + column < width * height,
{
    assert(0 <= row * width + column < width * height) by (nonlinear_arith)
        requires
            0 <= row < height,
            0 <= column < width,
    ;
}

} // verus!
