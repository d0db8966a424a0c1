//! The numbers a progress bar is drawn from, and how much of the bar they
//! fill in exact arithmetic.

use vstd::prelude::*;
use crate::rational::{floor_div, round_div};

verus! {

/// The state of a progress bar: a value, the bounds that stand for an empty
/// and for a full bar, and the length of the bar in cells.
///
/// No field is validated.  The value may lie outside the bounds, and the
/// bounds may be given in either order or be equal.
#[derive(Clone, Copy, Debug, PartialEq, Eq, Structural)]
pub struct ProgressState {
    /// Current position.
    pub value: i64,
    /// The value at which the bar is empty.
    pub min: i64,
    /// The value at which the bar is full.
    pub max: i64,
    /// Length of the bar in character cells.
    pub width: usize,
}

/// The exact fill of a bar.  The ratio `(value - min) / (max - min)` is kept
/// as a fraction of integers and nothing is rounded before the last step.
/// This is the measure that a computed fill is held against: a computation
/// of the same formula in floating point rounds at every step and can
/// differ from it.
impl ProgressState {
    /// Numerator of the filled length in cells, `ratio * width`, where
    /// `ratio = (value - min) / (max - min)`.  The fraction is kept with the
    /// positive denominator [`Self::fill_den`].
    ///
    /// Equal bounds leave the ratio undefined; the bar is then empty.
    pub open spec fn fill_num(self) -> int {
        if self.min < self.max {
            (self.value - self.min) * self.width
        } else if self.max < self.min {
            (self.min - self.value) * self.width
        } else {
            0
        }
    }

    /// Denominator of the filled length in cells; always positive.
    pub open spec fn fill_den(self) -> int {
        if self.min < self.max {
            self.max - self.min
        } else if self.max < self.min {
            self.min - self.max
        } else {
            1
        }
    }

    /// Number of completely filled cells: the floor of the filled length,
    /// held to the range of a cell count.
    pub open spec fn full_cells(self) -> int {
        let whole = floor_div(self.fill_num(), self.fill_den());
        if whole < 0 {
            0
        } else if whole > usize::MAX {
            usize::MAX as int
        } else {
            whole
        }
    }

    /// Numerator, over [`Self::fill_den`], of the eighths that the full
    /// cells leave over: `8 * ratio * width - 8 * full_cells`.  It lies
    /// outside `[0, 8)` exactly where the cell count was held back.
    pub open spec fn remainder_num(self) -> int {
        8 * self.fill_num() - 8 * self.full_cells() * self.fill_den()
    }

    /// Fill level of the partial cell: the left-over eighths, rounded.
    pub open spec fn glyph_index(self) -> int {
        round_div(self.remainder_num(), self.fill_den())
    }

    /// The state of a new bar: half full, ten cells long.
    pub fn new() -> (s: Self)
        ensures
            s == (ProgressState { value: 50, min: 0, max: 100, width: 10 }),
    {
        ProgressState { value: 50, min: 0, max: 100, width: 10 }
    }
}

} // verus!
