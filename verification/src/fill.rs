//! Fill plans, and the exact fill of a state.

use vstd::prelude::*;
use crate::glyph::{get_sym, glyph_for};
use crate::rational::{
    floor_div, lemma_floor_div_bounds, lemma_round_div_monotonic, lemma_round_eighths_left_over,
    lemma_round_eighths_split, round_div,
};
use crate::state::ProgressState;

verus! {

/// How a bar is filled: a run of full cells and the fill level of the cell
/// that follows them.  A plan is plain data: whoever computes the fill
/// hands it to the renderer in this form.
#[derive(Clone, Copy, Debug, PartialEq, Eq, Structural)]
pub struct FillPlan {
    /// Number of completely filled cells.
    pub full_cells: usize,
    /// Fill level of the partial cell, in eighths.
    pub glyph_index: i64,
}

/// The `i64` nearest to `i`.
pub open spec fn saturate_i64(i: int) -> int {
    if i < i64::MIN {
        i64::MIN as int
    } else if i > i64::MAX {
        i64::MAX as int
    } else {
        i
    }
}

/// A fill level that does not fit an `i64` has the same glyph as the
/// nearest one that does.
pub proof fn lemma_saturated_glyph(i: int)
    ensures
        glyph_for(saturate_i64(i)) == glyph_for(i),
{
}

impl FillPlan {
    /// The glyph of the partial cell.
    pub fn glyph(&self) -> (c: char)
        ensures
            c == glyph_for(self.glyph_index as int),
    {
        get_sym(self.glyph_index)
    }
}

/// The fill level `sign * (8 * extra + half_up)`, held to the range of `i64`.
fn signed_level(below: bool, extra: u128, half_up: u128) -> (level: i64)
    requires
        half_up <= 8,
    ensures
        level == saturate_i64(
            if below {
                -(8 * extra + half_up)
            } else {
                8 * extra + half_up
            },
        ),
{
    if extra >= 0x1000_0000_0000_0000u128 {
        if below {
            i64::MIN
        } else {
            i64::MAX
        }
    } else {
        let level: u128 = 8 * extra + half_up;
        if level > i64::MAX as u128 {
            if below {
                i64::MIN
            } else {
                i64::MAX
            }
        } else if below {
            -(level as i64)
        } else {
            level as i64
        }
    }
}

impl ProgressState {
    /// Computes the exact fill of the bar.
    ///
    /// The ratio `(value - min) / (max - min)` is not clamped.  A bar that
    /// is filled beyond its end has more full cells than `width`; a bar
    /// whose value lies before `min` has none, and its left-over eighths are
    /// then negative.  With equal bounds the bar is empty.  A fill level
    /// beyond the range of `i64` is given as the nearest `i64`.
    pub fn exact_fill(&self) -> (plan: FillPlan)
        ensures
            plan.full_cells == self.full_cells(),
            plan.glyph_index == saturate_i64(self.glyph_index()),
            glyph_for(plan.glyph_index as int) == glyph_for(self.glyph_index()),
    {
        proof {
            lemma_saturated_glyph(self.glyph_index());
        }
        let span: i128 = self.max as i128 - self.min as i128;
        if span == 0 {
            assert(self.glyph_index() == 0) by {
                assert((2 * 0 + 1) / (2 * 1) == 0int) by (nonlinear_arith);
            }
            return FillPlan { full_cells: 0, glyph_index: 0 };
        }
        let offset: i128 = if span > 0 {
            self.value as i128 - self.min as i128
        } else {
            self.min as i128 - self.value as i128
        };
        let den: u128 = if span > 0 {
            span as u128
        } else {
            (-span) as u128
        };
        let dist: u128 = if offset < 0 {
            (-offset) as u128
        } else {
            offset as u128
        };
        let width: u128 = self.width as u128;
        assert(dist * width <= 0xffff_ffff_ffff_ffff * 0xffff_ffff_ffff_ffff) by (nonlinear_arith)
            requires
                dist <= 0xffff_ffff_ffff_ffff,
                width <= 0xffff_ffff_ffff_ffff,
        ;
        let units: u128 = dist * width;
        let below: bool = offset < 0 && units > 0;
        let whole: u128 = units / den;
        let rest: u128 = units % den;
        let half_up: u128 = (16 * rest + den) / (2 * den);
        proof {
            assert(self.fill_num() == if offset < 0 {
                -(units as int)
            } else {
                units as int
            }) by (nonlinear_arith)
                requires
                    self.fill_num() == offset * width,
                    units == dist * width,
                    dist == if offset < 0 {
                        -offset
                    } else {
                        offset as int
                    },
            ;
            lemma_round_eighths_split(units as int, den as int);
            assert(half_up == round_div(8 * (units as int % den as int), den as int));
            lemma_floor_div_bounds(self.fill_num(), self.fill_den());
        }
        let full: usize = if below {
            0
        } else if whole > usize::MAX as u128 {
            usize::MAX
        } else {
            whole as usize
        };
        let extra: u128 = if below {
            whole
        } else {
            whole - full as u128
        };
        proof {
            if below {
                assert(self.fill_num() / self.fill_den() < 0) by (nonlinear_arith)
                    requires
                        self.fill_num() / self.fill_den() * self.fill_den() <= self.fill_num(),
                        self.fill_num() < 0,
                        self.fill_den() > 0,
                ;
                assert(8 * self.full_cells() * self.fill_den() == 0) by (nonlinear_arith)
                    requires
                        self.full_cells() == 0,
                ;
            } else {
                lemma_round_eighths_left_over(units as int, den as int, full as int);
            }
        }
        FillPlan { full_cells: full, glyph_index: signed_level(below, extra, half_up) }
    }
}

/// The exact fill, counted in eighths, is the total fill rounded to
/// whole eighths: `8 * full_cells + glyph_index == round(8 * ratio * width)`.
pub proof fn lemma_rendered_eighths(s: ProgressState)
    ensures
        8 * s.full_cells() + s.glyph_index() == round_div(8 * s.fill_num(), s.fill_den()),
{
    let n: int = s.fill_num();
    let d: int = s.fill_den();
    lemma_floor_div_bounds(n, d);
    if n >= 0 {
        assert(n / d >= 0) by (nonlinear_arith)
            requires
                (n / d + 1) * d > n,
                n >= 0,
                d > 0,
        ;
        lemma_round_eighths_left_over(n, d, s.full_cells());
        lemma_round_eighths_split(n, d);
    } else {
        assert(n / d < 0) by (nonlinear_arith)
            requires
                n / d * d <= n,
                n < 0,
                d > 0,
        ;
        assert(8 * s.full_cells() * d == 0) by (nonlinear_arith)
            requires
                s.full_cells() == 0,
        ;
    }
}

/// For bounds in order and a fill that is not negative (a value at or above
/// `min`, or a bar of width zero), as long as the filled length fits a cell
/// count: with `total_units = ratio * 8 * width`, the full cells of the
/// exact fill are `floor(total_units / 8)`, the fill level of the partial
/// cell is `round(total_units - 8 * full_cells)`, it lies in `0..=8`, and
/// its glyph is its entry in the glyph table.
pub proof fn lemma_fill_formula(s: ProgressState)
    requires
        s.min < s.max,
        s.min <= s.value || s.width == 0,
        (s.value - s.min) * s.width < (usize::MAX + 1) * (s.max - s.min),
    ensures
        s.full_cells() == floor_div(8 * ((s.value - s.min) * s.width), 8 * (s.max - s.min)),
        s.glyph_index() == round_div(
            8 * ((s.value - s.min) * s.width) - 8 * s.full_cells() * (s.max - s.min),
            s.max - s.min,
        ),
        0 <= s.glyph_index() <= 8,
        glyph_for(s.glyph_index()) == crate::glyph::glyph_table()[s.glyph_index()],
{
    let n: int = s.fill_num();
    let d: int = s.fill_den();
    let q: int = n / d;
    assert(n >= 0) by (nonlinear_arith)
        requires
            n == (s.value - s.min) * s.width,
            s.value - s.min >= 0 || s.width == 0,
            s.width >= 0,
    ;
    lemma_floor_div_bounds(n, d);
    assert(0 <= q <= usize::MAX) by (nonlinear_arith)
        requires
            q * d <= n < (q + 1) * d,
            0 <= n < (usize::MAX + 1) * d,
            d > 0,
    ;
    vstd::arithmetic::div_mod::lemma_fundamental_div_mod(n, d);
    vstd::arithmetic::div_mod::lemma_mod_bound(n, d);
    assert(8 * n == q * (8 * d) + 8 * (n % d)) by (nonlinear_arith)
        requires
            n == d * q + n % d,
    ;
    vstd::arithmetic::div_mod::lemma_fundamental_div_mod_converse(8 * n, 8 * d, q, 8 * (n % d));
    lemma_round_eighths_left_over(n, d, q);
    lemma_round_eighths_split(n, d);
}

/// With bounds in order (or equal) and a fixed width, raising the value
/// never lowers the exact fill `8 * full_cells + glyph_index`.
pub proof fn lemma_fill_monotonic(a: ProgressState, b: ProgressState)
    requires
        a.min == b.min,
        a.max == b.max,
        a.width == b.width,
        a.min <= a.max,
        a.value <= b.value,
    ensures
        8 * a.full_cells() + a.glyph_index() <= 8 * b.full_cells() + b.glyph_index(),
{
    lemma_rendered_eighths(a);
    lemma_rendered_eighths(b);
    assert(a.fill_num() <= b.fill_num()) by (nonlinear_arith)
        requires
            a.min == b.min,
            a.max == b.max,
            a.width == b.width,
            a.value <= b.value,
            a.min <= a.max,
            a.fill_num() == if a.min < a.max {
                (a.value - a.min) * a.width
            } else {
                0
            },
            b.fill_num() == if b.min < b.max {
                (b.value - b.min) * b.width
            } else {
                0
            },
    ;
    lemma_round_div_monotonic(8 * a.fill_num(), 8 * b.fill_num(), a.fill_den());
}

} // verus!
