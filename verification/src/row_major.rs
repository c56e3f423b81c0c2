//! Counting the cells of a grid row by row.

use vstd::prelude::*;
use vstd::arithmetic::div_mod::lemma_fundamental_div_mod_converse;

verus! {

/// Cell `(row, col)` of a grid `width` wide and `height` high has row-major
/// index `row * width + col`, and the index gives the cell back.
pub proof fn lemma_row_major_index(width: int, height: int, row: int, col: int)
    requires
        0 <= col < width,
        0 <= row < height,
    ensures
        0 <= row * width + col < width * height,
        (row * width + col) / width == row,
        (row * width + col) % width == col,
{
    assert(0 <= row * width && row * width + width <= width * height) by (nonlinear_arith)
        requires
            0 <= row < height,
            0 < width,
    ;
    lemma_fundamental_div_mod_converse(row * width + col, width, row, col);
}

/// Index `i` of a grid `width` wide and `height` high names the cell in row
/// `i / width` and column `i % width`.
pub proof fn lemma_row_major_cell(width: int, height: int, i: int)
    requires
        0 <= i < width * height,
        0 < width,
    ensures
        0 <= i / width < height,
        0 <= i % width < width,
        i == (i / width) * width + i % width,
{
    assert(0 <= i / width < height && 0 <= i % width < width && i == (i / width) * width + i
        % width) by (nonlinear_arith)
        requires
            0 <= i < width * height,
            0 < width,
    ;
}

} // verus!
