//! Rows of an editor viewport.
use vstd::prelude::*;

verus! {

/// Rows assumed visible before the viewport has been measured.
pub const DEFAULT_VIEWPORT_ROWS: usize = 24;

/// The last row that can be at the top of a viewport of `viewport_rows`
/// rows over `total_rows` rows: the viewport never scrolls past the end.
pub fn max_top_row(total_rows: usize, viewport_rows: usize) -> (r: usize)
    ensures
        r == if viewport_rows >= total_rows {
            0
        } else {
            total_rows - viewport_rows
        },
{
    let visible = if viewport_rows < total_rows {
        viewport_rows
    } else {
        total_rows
    };
    total_rows - visible
}

/// `top_row` limited to the rows a viewport can start at.
pub fn clamp_top_row(top_row: usize, total_rows: usize, viewport_rows: usize) -> (r: usize)
    ensures
        r == if top_row <= max_top_row_spec(total_rows, viewport_rows) {
            top_row as int
        } else {
            max_top_row_spec(total_rows, viewport_rows)
        },
        r <= max_top_row_spec(total_rows, viewport_rows),
        viewport_rows <= total_rows ==> r + viewport_rows <= total_rows,
{
    let max = max_top_row(total_rows, viewport_rows);
    if top_row < max {
        top_row
    } else {
        max
    }
}

pub open spec fn max_top_row_spec(total_rows: usize, viewport_rows: usize) -> int {
    if viewport_rows >= total_rows {
        0
    } else {
        total_rows - viewport_rows
    }
}

} // verus!
