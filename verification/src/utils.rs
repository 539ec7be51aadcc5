use vstd::prelude::*;

use crate::position::Position;
use crate::position::Range;

verus! {

/// The span the outline and diagnostics layers use for a syntax-tree
/// node whose corners the parser reports as zero-based row and column
/// numbers; coordinates too large for the span representation wrap.
pub open spec fn spec_ts_range(
    start_row: usize,
    start_col: usize,
    end_row: usize,
    end_col: usize,
) -> Range {
    Range {
        start: Position { line: start_row as u32, character: start_col as u32 },
        end: Position { line: end_row as u32, character: end_col as u32 },
    }
}

/// Converts a parser-reported node span into the line/column range used
/// by the outline and diagnostics layers.
pub fn ts_to_lsp_range(start_row: usize, start_col: usize, end_row: usize, end_col: usize) -> (r:
    Range)
    ensures
        r == spec_ts_range(start_row, start_col, end_row, end_col),
{
    Range {
        start: Position {
            line: #[verifier::truncate] (start_row as u32),
            character: #[verifier::truncate] (start_col as u32),
        },
        end: Position {
            line: #[verifier::truncate] (end_row as u32),
            character: #[verifier::truncate] (end_col as u32),
        },
    }
}

} // verus!
