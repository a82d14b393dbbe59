//! Where the five panes of the screen go: a title row, three columns of
//! listings side by side, and a status row.
use vstd::prelude::*;

verus! {

#[derive(Clone, Copy, Debug)]
pub struct WindowGeometry {
    pub rows: i32,
    pub cols: i32,
    pub coords: (usize, usize),
}

#[derive(Clone, Copy, Debug)]
pub struct ViewLayout {
    pub top_win: WindowGeometry,
    pub left_win: WindowGeometry,
    pub mid_win: WindowGeometry,
    pub right_win: WindowGeometry,
    pub bot_win: WindowGeometry,
}

/// The width of one seventh of the terminal, the unit the ratios count in.
pub open spec fn divide_of(term_cols: int) -> int {
    term_cols / 7
}

/// The panes for a terminal of `term_rows` by `term_cols` (widths that fit
/// the integer types): the three columns are `win_ratio` sevenths wide (the right one three), each less
/// `gap` columns, and stand between the title row and the status row.
pub fn view_layout(term_rows: i32, term_cols: i32, win_ratio: (usize, usize, usize), gap: i32) -> (r: ViewLayout)
    requires
        term_rows >= 1,
        term_cols >= 0,
        divide_of(term_cols as int) * win_ratio.0 <= i32::MAX,
        divide_of(term_cols as int) * win_ratio.1 <= i32::MAX,
        divide_of(term_cols as int) * win_ratio.2 <= usize::MAX,
        0 <= gap <= 1,
    ensures
        r.top_win == (WindowGeometry { rows: 1, cols: term_cols, coords: (0, 0) }),
        r.left_win.rows == term_rows - 2,
        r.left_win.cols == divide_of(term_cols as int) * win_ratio.0 - gap,
        r.left_win.coords == (1usize, 0usize),
        r.mid_win.rows == term_rows - 2,
        r.mid_win.cols == divide_of(term_cols as int) * win_ratio.1 - gap,
        r.mid_win.coords.0 == 1,
        r.mid_win.coords.1 == divide_of(term_cols as int) * win_ratio.0,
        r.right_win.rows == term_rows - 2,
        r.right_win.cols == divide_of(term_cols as int) * 3 - gap,
        r.right_win.coords.0 == 1,
        r.right_win.coords.1 == divide_of(term_cols as int) * win_ratio.2,
        r.bot_win.rows == 1,
        r.bot_win.cols == term_cols,
        r.bot_win.coords == ((term_rows - 1) as usize, 0usize),
{
    let divide: usize = term_cols as usize / 7;
    let body_rows = term_rows - 2;
    let top_win = WindowGeometry { rows: 1, cols: term_cols, coords: (0, 0) };
    let left_win = WindowGeometry { rows: body_rows, cols: (divide * win_ratio.0) as i32 - gap, coords: (1, 0) };
    let mid_win = WindowGeometry {
        rows: body_rows,
        cols: (divide * win_ratio.1) as i32 - gap,
        coords: (1, divide * win_ratio.0),
    };
    let right_win = WindowGeometry {
        rows: body_rows,
        cols: divide as i32 * 3 - gap,
        coords: (1, divide * win_ratio.2),
    };
    let bot_win = WindowGeometry { rows: 1, cols: term_cols, coords: ((term_rows - 1) as usize, 0) };
    ViewLayout { top_win, left_win, mid_win, right_win, bot_win }
}

} // verus!
