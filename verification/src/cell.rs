//! The atomic renderable unit of the grid.

use vstd::prelude::*;

verus! {

/// One character cell: a single displayable glyph. Two cells that are equal
/// look the same on screen.
#[derive(Clone, Copy, Debug, PartialEq, Eq, Structural)]
pub struct Cell {
    pub glyph: char,
}

impl Cell {
    /// The blank cell, which an untouched position of the grid holds.
    pub open spec fn blank() -> Cell {
        Cell { glyph: ' ' }
    }

    pub fn new(glyph: char) -> (c: Self)
        ensures
            c.glyph == glyph,
    {
        Cell { glyph }
    }
}

impl Default for Cell {
    fn default() -> (c: Self)
        ensures
            c == Cell::blank(),
    {
        Cell { glyph: ' ' }
    }
}

} // verus!
