use progress_widget::fill::FillPlan;
use progress_widget::render::Cell;
use progress_widget::state::ProgressState;

fn plan(full_cells: usize, glyph_index: i64) -> FillPlan {
    FillPlan { full_cells, glyph_index }
}

/// The fill formula in double precision, rounded at every step.
fn float_fill(state: &ProgressState) -> FillPlan {
    let max: f64 = (state.max as f64) - (state.min as f64);
    let value: f64 = (state.value as f64) - (state.min as f64);
    let ratio: f64 = value / max;
    if !ratio.is_finite() {
        return FillPlan { full_cells: 0, glyph_index: 0 };
    }
    let to_fill = ratio * 8.0 * (state.width as f64);
    let full = (to_fill / 8.0).floor() as usize;
    let remaining = to_fill - (full as f64) * 8.0;
    FillPlan { full_cells: full, glyph_index: remaining.round() as i64 }
}

fn drawn(value: i64, min: i64, max: i64, width: usize, x: usize, y: usize) -> Vec<Cell> {
    let state = ProgressState { value, min, max, width };
    float_fill(&state).cells(width, x, y)
}

fn glyphs(cells: &[Cell]) -> String {
    cells.iter().map(|cell| cell.glyph).collect()
}

fn columns(cells: &[Cell]) -> Vec<usize> {
    cells.iter().map(|cell| cell.x).collect()
}

#[test]
fn half_full_bar_cells() {
    let cells = drawn(50, 0, 100, 10, 0, 0);
    assert_eq!(glyphs(&cells), "█████ ");
    assert_eq!(columns(&cells), vec![0, 1, 2, 3, 4, 5]);
    assert!(cells.iter().all(|cell| cell.y == 0));
}

#[test]
fn empty_bar_cells() {
    let cells = drawn(0, 0, 100, 10, 0, 0);
    assert_eq!(cells, vec![Cell { x: 0, y: 0, glyph: ' ' }]);
}

#[test]
fn full_bar_draws_one_past_its_end() {
    let cells = drawn(100, 0, 100, 10, 0, 0);
    assert_eq!(glyphs(&cells), "██████████ ");
    assert_eq!(columns(&cells), vec![0, 1, 2, 3, 4, 5, 6, 7, 8, 9, 10]);
}

#[test]
fn zero_width_still_draws_one_glyph() {
    let cells = drawn(50, 0, 100, 0, 0, 0);
    assert_eq!(cells, vec![Cell { x: 0, y: 0, glyph: ' ' }]);
    let cells = drawn(100, 0, 100, 0, 0, 0);
    assert_eq!(cells, vec![Cell { x: 0, y: 0, glyph: ' ' }]);
    let cells = drawn(0, 0, 100, 0, 3, 4);
    assert_eq!(cells, vec![Cell { x: 3, y: 4, glyph: ' ' }]);
}

#[test]
fn bar_starts_at_the_given_position() {
    let cells = drawn(37, 0, 100, 10, 7, 2);
    assert_eq!(glyphs(&cells), "███▊");
    assert_eq!(columns(&cells), vec![7, 8, 9, 10]);
    assert!(cells.iter().all(|cell| cell.y == 2));
}

#[test]
fn overfull_bar_is_not_clipped_and_has_no_partial_glyph() {
    let cells = drawn(150, 0, 100, 10, 0, 0);
    assert_eq!(glyphs(&cells), "███████████████");
    assert_eq!(cells.len(), 15);
    assert_eq!(cells[14], Cell { x: 14, y: 0, glyph: '█' });
}

#[test]
fn value_below_min_shows_a_full_block_at_the_origin() {
    let cells = drawn(-10, 0, 100, 10, 2, 1);
    assert_eq!(cells, vec![Cell { x: 2, y: 1, glyph: '█' }]);
}

#[test]
fn plan_is_laid_out_as_given() {
    assert_eq!(glyphs(&plan(3, 5).cells(10, 0, 0)), "███▋");
    assert_eq!(glyphs(&plan(0, 8).cells(49, 0, 0)), "█");
    assert_eq!(glyphs(&plan(1, 0).cells(49, 0, 0)), "█ ");
    assert_eq!(glyphs(&plan(2, 9).cells(2, 0, 0)), "███");
    assert_eq!(glyphs(&plan(2, -3).cells(2, 0, 0)), "███");
    assert_eq!(glyphs(&plan(3, 4).cells(2, 0, 0)), "███");
    assert_eq!(glyphs(&plan(0, 0).cells(0, 0, 0)), " ");
    assert_eq!(glyphs(&plan(1, 1).cells(0, 0, 0)), "█");
}

#[test]
fn every_level_has_its_glyph() {
    let expected = [' ', '▏', '▎', '▍', '▌', '▋', '▊', '▉', '█'];
    for (level, glyph) in expected.iter().enumerate() {
        let cells = plan(1, level as i64).cells(4, 6, 2);
        assert_eq!(
            cells,
            vec![Cell { x: 6, y: 2, glyph: '█' }, Cell { x: 7, y: 2, glyph: *glyph }]
        );
    }
}

#[test]
fn columns_stop_at_the_largest_coordinate() {
    let cells = plan(5, 0).cells(10, usize::MAX - 2, 0);
    assert_eq!(glyphs(&cells), "███");
    assert_eq!(columns(&cells), vec![usize::MAX - 2, usize::MAX - 1, usize::MAX]);
    let cells = plan(0, 0).cells(10, usize::MAX, 5);
    assert_eq!(cells, vec![Cell { x: usize::MAX, y: 5, glyph: ' ' }]);
}

#[test]
fn drawing_twice_gives_the_same_cells() {
    let state = ProgressState { value: 42, min: -7, max: 93, width: 17 };
    let first = float_fill(&state).cells(state.width, 3, 9);
    let second = float_fill(&state).cells(state.width, 3, 9);
    assert_eq!(first, second);
}
