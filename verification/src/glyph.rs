//! The glyph table: one character for each fill level of a single cell.

use vstd::prelude::*;

verus! {

/// The glyph of a completely filled cell.
pub const FULL_BLOCK: char = '\u{2588}';

/// The nine glyphs, indexed by the number of eighths they fill, from the
/// blank at `0` to the full block at `8`.
pub open spec fn glyph_table() -> Seq<char> {
    seq![
        ' ',
        '\u{258f}',
        '\u{258e}',
        '\u{258d}',
        '\u{258c}',
        '\u{258b}',
        '\u{258a}',
        '\u{2589}',
        '\u{2588}',
    ]
}

/// The glyph shown for a fill level.  Levels `0` to `8` read the table; a
/// level outside that range has no entry and falls back to the full block.
pub open spec fn glyph_for(level: int) -> char {
    if 0 <= level <= 8 {
        glyph_table()[level]
    } else {
        FULL_BLOCK
    }
}

/// Looks a fill level up in the glyph table.
pub fn get_sym(n: i64) -> (c: char)
    ensures
        c == glyph_for(n as int),
{
    match n {
        0 => ' ',
        1 => '\u{258f}',
        2 => '\u{258e}',
        3 => '\u{258d}',
        4 => '\u{258c}',
        5 => '\u{258b}',
        6 => '\u{258a}',
        7 => '\u{2589}',
        _ => '\u{2588}',
    }
}

} // verus!
