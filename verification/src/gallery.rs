use vstd::prelude::*;

verus! {

/// Number of columns in the gallery grid.
pub const COLS: usize = 5;

/// The number of grid rows needed for `count` cells: `count / COLS` rounded up.
pub open spec fn rows_for(count: int) -> int {
    if count % (COLS as int) == 0 {
        count / (COLS as int)
    } else {
        count / (COLS as int) + 1
    }
}

/// The number of rows of the gallery grid holding `count` presets.
pub fn rows(count: usize) -> (r: usize)
    ensures
        r == rows_for(count as int),
{
    if count % COLS == 0 {
        count / COLS
    } else {
        count / COLS + 1
    }
}

/// The cell (column, row) in which the preset with index `idx` is drawn:
/// presets fill the grid row by row.
pub fn cell_position(idx: usize) -> (r: (usize, usize))
    ensures
        r.0 == idx % COLS,
        r.1 == idx / COLS,
{
    (idx % COLS, idx / COLS)
}

/// The preset shown by the cell at `(col, row)`.
pub open spec fn cell_preset(col: int, row: int, count: int) -> Option<int> {
    if 0 <= col < COLS && 0 <= row < rows_for(count) && row * COLS + col < count {
        Some(row * COLS + col)
    } else {
        None
    }
}

/// Which preset, if any, the grid cell at `(col, row)` shows, in a gallery
/// of `count` presets: none outside the grid or past the last preset.
pub fn cell_index(col: usize, row: usize, count: usize) -> (r: Option<usize>)
    ensures
        r matches Some(i) ==> cell_preset(col as int, row as int, count as int) == Some(i as int),
        r is None ==> cell_preset(col as int, row as int, count as int) is None,
{
    if col >= COLS || row >= rows(count) {
        return None;
    }
    let idx = row * COLS + col;
    if idx < count {
        Some(idx)
    } else {
        None
    }
}

/// Clicking the cell in which a preset is drawn selects that preset, and a
/// click selects a preset only in the cell where that preset is drawn.
pub proof fn lemma_click_round_trip(idx: int, col: int, row: int, count: int)
    requires
        0 <= idx < count,
    ensures
        cell_preset(idx % (COLS as int), idx / (COLS as int), count) == Some(idx),
        cell_preset(col, row, count) == Some(idx) ==> col == idx % (COLS as int) && row == idx
            / (COLS as int),
{
}

/// Every preset lies inside the grid: `rows` rows of `COLS` cells hold all
/// of them, and one row fewer would not.
pub proof fn lemma_rows_cover(count: int)
    requires
        count >= 0,
    ensures
        rows_for(count) * COLS >= count,
        count > 0 ==> (rows_for(count) - 1) * COLS < count,
{
}

/// The rows are the presets divided by the column count, rounded up, and
/// the cell at `(col, row)` shows preset `row * COLS + col` exactly when the
/// column is inside the grid and that preset exists.
pub proof fn lemma_grid_shape(col: int, row: int, count: int)
    requires
        0 <= col,
        0 <= row,
        0 <= count,
    ensures
        COLS == 5,
        rows_for(count) * 5 >= count,
        rows_for(count) * 5 < count + 5,
        (col < 5 && row * 5 + col < count) ==> cell_preset(col, row, count) == Some(row * 5 + col),
        (col >= 5 || row * 5 + col >= count) ==> cell_preset(col, row, count) is None,
{
}

} // verus!
