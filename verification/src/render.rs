//! The bar renderer: the glyphs of a fill plan and the cells they are
//! written to.

use vstd::prelude::*;
use crate::fill::FillPlan;
use crate::glyph::{glyph_for, FULL_BLOCK};

verus! {

/// One character cell of the output surface and the glyph written to it.
#[derive(Clone, Copy, Debug, PartialEq, Eq, Structural)]
pub struct Cell {
    /// Column of the cell.
    pub x: usize,
    /// Row of the cell.
    pub y: usize,
    /// The glyph written to the cell.
    pub glyph: char,
}

impl FillPlan {
    /// Whether the partial glyph is drawn on a bar of `width` cells: it is,
    /// unless the full cells already reach beyond the column just past the
    /// bar.  A bar of width zero still shows one glyph, and a bar that is
    /// exactly full shows a glyph in the column just past its end.
    pub open spec fn partial_placed(self, width: usize) -> bool {
        self.full_cells <= width
    }

    /// Number of glyphs of the bar: one for each full cell, and one more
    /// where the partial glyph is placed.  The full cells are not held to
    /// the width of the bar.
    pub open spec fn glyph_count(self, width: usize) -> nat {
        if self.partial_placed(width) {
            (self.full_cells + 1) as nat
        } else {
            self.full_cells as nat
        }
    }

    /// The glyph in column `i` of the bar, counted from its first column:
    /// a full block in the full cells, then the glyph of the fill level.
    pub open spec fn glyph_at(self, i: int) -> char {
        if i < self.full_cells {
            FULL_BLOCK
        } else {
            glyph_for(self.glyph_index as int)
        }
    }

    /// The glyphs of the bar from left to right.
    pub open spec fn glyphs(self, width: usize) -> Seq<char> {
        Seq::new(self.glyph_count(width), |i: int| self.glyph_at(i))
    }

    /// Number of glyphs that have a column when the bar starts at column
    /// `x`: all of them, unless the columns run out at the largest `usize`.
    pub open spec fn cell_count(self, width: usize, x: usize) -> nat {
        if self.glyph_count(width) <= usize::MAX - x + 1 {
            self.glyph_count(width)
        } else {
            (usize::MAX - x + 1) as nat
        }
    }

    /// The cells written when a bar of `width` cells is drawn with its
    /// first glyph at `(x, y)`: glyph `i` goes to column `x + i` of row `y`.
    pub open spec fn cells_at(self, width: usize, x: usize, y: usize) -> Seq<Cell> {
        Seq::new(
            self.cell_count(width, x),
            |i: int| (Cell { x: (x + i) as usize, y: y, glyph: self.glyph_at(i) }),
        )
    }

    /// Lays a bar of `width` cells out with its first glyph at
    /// `(x_pos, y_pos)` and returns the cells to write, from left to right.
    /// The bar is not clipped to its own width or to any drawing region.
    pub fn cells(&self, width: usize, x_pos: usize, y_pos: usize) -> (cells: Vec<Cell>)
        ensures
            cells@ == self.cells_at(width, x_pos, y_pos),
    {
        let glyph = self.glyph();
        let room: usize = usize::MAX - x_pos;
        let mut cells: Vec<Cell> = Vec::new();
        let mut i: usize = 0;
        while i < self.full_cells && i <= room
            invariant
                i <= self.full_cells,
                i <= room + 1,
                room == usize::MAX - x_pos,
                cells@.len() == i,
                forall|k: int|
                    0 <= k < i ==> cells@[k] == (Cell {
                        x: (x_pos + k) as usize,
                        y: y_pos,
                        glyph: FULL_BLOCK,
                    }),
            decreases self.full_cells - i,
        {
            cells.push(Cell { x: x_pos + i, y: y_pos, glyph: FULL_BLOCK });
            i += 1;
        }
        if self.full_cells <= width && self.full_cells <= room {
            cells.push(Cell { x: x_pos + self.full_cells, y: y_pos, glyph });
        }
        assert(cells@ =~= self.cells_at(width, x_pos, y_pos));
        cells
    }
}

} // verus!
