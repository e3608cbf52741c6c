use vstd::prelude::*;

verus! {

/// Linear index of the sprite at `(row, col)` of a sheet that is 64 sprites wide.
pub open spec fn sheet_index(row: int, col: int) -> int {
    row * 64 + col
}

/// A cell `(row, col)` with `col` inside the sheet is found again from its
/// linear index: no two such cells share an index.
pub proof fn lemma_sheet_index_decodes(row: int, col: int)
    requires
        0 <= row,
        0 <= col < 64,
    ensures
        sheet_index(row, col) / 64 == row,
        sheet_index(row, col) % 64 == col,
{
}

} // verus!
