//! Program text: how a text is laid out on the grid.
//!
//! Each line of the text is one row of the grid and each character of a line
//! one cell of that row. A line ends at a line feed; a carriage return right
//! before that line feed belongs to the line ending.

use vstd::prelude::*;

verus! {

/// The row on which the character at index `i` of `text` stands: the number
/// of line feeds before it.
pub open spec fn row_of(text: Seq<char>, i: int) -> int
    decreases i,
{
    if i <= 0 {
        0
    } else if text[i - 1] == '\n' {
        row_of(text, i - 1) + 1
    } else {
        row_of(text, i - 1)
    }
}

/// The column in which the character at index `i` of `text` stands: the
/// number of characters between it and the start of its line.
pub open spec fn column_of(text: Seq<char>, i: int) -> int
    decreases i,
{
    if i <= 0 || text[i - 1] == '\n' {
        0
    } else {
        column_of(text, i - 1) + 1
    }
}

/// Whether the character at index `i` of `text` fills a cell, as every
/// character does that is no part of a line ending.
pub open spec fn fills_cell(text: Seq<char>, i: int) -> bool {
    text[i] != '\n' && !(text[i] == '\r' && i + 1 < text.len() && text[i + 1] == '\n')
}

/// The cell that the character at index `i` of `text` fills. Rows and columns
/// beyond the grid's edge wrap around it.
pub open spec fn cell_of(text: Seq<char>, i: int) -> (u16, u16) {
    ((column_of(text, i) % 0x1_0000) as u16, (row_of(text, i) % 0x1_0000) as u16)
}

/// The layer `base` after the first `n` characters of `text` are laid on it.
pub open spec fn laid_upto(base: Map<(u16, u16), i64>, text: Seq<char>, n: int) -> Map<
    (u16, u16),
    i64,
>
    decreases n,
{
    if n <= 0 {
        base
    } else if fills_cell(text, n - 1) {
        laid_upto(base, text, n - 1).insert(cell_of(text, n - 1), text[n - 1] as i64)
    } else {
        laid_upto(base, text, n - 1)
    }
}

/// The layer `base` after `text` is laid on it, character by character.
pub open spec fn laid(base: Map<(u16, u16), i64>, text: Seq<char>) -> Map<(u16, u16), i64> {
    laid_upto(base, text, text.len() as int)
}

} // verus!
