//! Grid layout: windows are placed row-major into a grid of
//! `ceil(sqrt(n))` columns and `ceil(n / cols)` rows of equal cells; a final
//! partial row simply leaves cells unused.

use vstd::prelude::*;

verus! {

use vstd::arithmetic::div_mod::{lemma_fundamental_div_mod, lemma_mod_division_less_than_divisor};
use crate::layout_engines::lemma_share_bounds;
use crate::window::Window;
use crate::window_location::{WindowLocation, WindowState};

/// The least `g >= start` with `g * g >= n`, reached by counting upward.
pub open spec fn sqrt_ceil_from(n: int, g: nat) -> int
    decreases (if g * g < n { n - g * g } else { 0int }) via sqrt_ceil_from_decreases
{
    if g * g >= n {
        g as int
    } else {
        sqrt_ceil_from(n, g + 1)
    }
}

#[via_fn]
proof fn sqrt_ceil_from_decreases(n: int, g: nat) {
    if g * g < n {
        assert(g * g < (g + 1) * (g + 1)) by (nonlinear_arith)
            requires 0 <= g;
    }
}

/// Number of grid columns for `n` windows: the least `g >= 0` with
/// `g * g >= n`, that is `ceil(sqrt(n))`.
pub open spec fn spec_grid_cols(n: int) -> int {
    sqrt_ceil_from(n, 0)
}

/// Number of grid rows for `n` windows: `ceil(n / cols)`.
pub open spec fn spec_grid_rows(n: int) -> int {
    (n + spec_grid_cols(n) - 1) / spec_grid_cols(n)
}

/// The cell of window `i` among `n`: cells of `space / cols` by
/// `space / rows`, filled row-major by index.
pub open spec fn spec_grid_cell(i: int, n: int, space_width: int, space_height: int) -> WindowLocation {
    let cols = spec_grid_cols(n);
    let rows = spec_grid_rows(n);
    let w = space_width / cols;
    let h = space_height / rows;
    WindowLocation {
        x: ((i % cols) * w) as i32,
        y: ((i / cols) * h) as i32,
        width: w as i32,
        height: h as i32,
        state: WindowState::Normal,
    }
}

/// `sqrt_ceil_from(n, g)` really is the least square root bound at or above
/// `g`: its square reaches `n` and the square of its predecessor does not.
proof fn lemma_sqrt_ceil_from_props(n: int, g: nat)
    requires
        g == 0 || (g - 1) * (g - 1) < n,
    ensures
        g <= sqrt_ceil_from(n, g),
        sqrt_ceil_from(n, g) * sqrt_ceil_from(n, g) >= n,
        sqrt_ceil_from(n, g) == 0 || (sqrt_ceil_from(n, g) - 1) * (sqrt_ceil_from(n, g) - 1) < n,
    decreases (if g * g < n { n - g * g } else { 0int })
{
    if g * g >= n {
    } else {
        assert(g * g < (g + 1) * (g + 1) && ((g + 1) * (g + 1) < n ==> n - (g + 1) * (g + 1) < n - g * g)) by (nonlinear_arith)
            requires 0 <= g;
        lemma_sqrt_ceil_from_props(n, g + 1);
    }
}

/// The column count of a non-empty grid: at least one column, enough cells
/// for every window, and no smaller square would do.
pub proof fn lemma_grid_cols_props(n: int)
    requires
        1 <= n,
    ensures
        1 <= spec_grid_cols(n),
        spec_grid_cols(n) * spec_grid_cols(n) >= n,
        (spec_grid_cols(n) - 1) * (spec_grid_cols(n) - 1) < n,
{
    lemma_sqrt_ceil_from_props(n, 0);
}

/// The row count of a non-empty grid: between one and the window count,
/// and the grid holds every window (`n <= cols * rows`).
pub proof fn lemma_grid_rows_props(n: int)
    requires
        1 <= n,
    ensures
        1 <= spec_grid_rows(n) <= n,
        n <= spec_grid_cols(n) * spec_grid_rows(n),
{
    lemma_grid_cols_props(n);
    let cols = spec_grid_cols(n);
    let rows = spec_grid_rows(n);
    lemma_fundamental_div_mod(n + cols - 1, cols);
    lemma_mod_division_less_than_divisor(n + cols - 1, cols);
    assert(cols * rows >= n);
    assert(1 <= rows <= n) by (nonlinear_arith)
        requires
            cols >= 1,
            n >= 1,
            cols * rows >= n,
            (n + cols - 1) == cols * rows + (n + cols - 1) % cols,
            0 <= (n + cols - 1) % cols < cols,
    ;
}

/// Every cell of a non-empty grid lies within the available space. The
/// bounds are stated both over the untruncated products (which shows the
/// stored `i32` fields are exact) and over the cell itself.
pub proof fn lemma_grid_cell_in_bounds(i: int, n: int, space_width: int, space_height: int)
    requires
        0 <= i < n,
        n <= i32::MAX,
        0 <= space_width <= i32::MAX,
        0 <= space_height <= i32::MAX,
    ensures
        0 <= (i % spec_grid_cols(n)) * (space_width / spec_grid_cols(n)),
        (i % spec_grid_cols(n)) * (space_width / spec_grid_cols(n)) + space_width / spec_grid_cols(n) <= space_width,
        0 <= (i / spec_grid_cols(n)) * (space_height / spec_grid_rows(n)),
        (i / spec_grid_cols(n)) * (space_height / spec_grid_rows(n)) + space_height / spec_grid_rows(n) <= space_height,
        0 <= space_width / spec_grid_cols(n) <= space_width,
        0 <= space_height / spec_grid_rows(n) <= space_height,
        0 <= spec_grid_cell(i, n, space_width, space_height).x,
        0 <= spec_grid_cell(i, n, space_width, space_height).y,
        0 <= spec_grid_cell(i, n, space_width, space_height).width,
        0 <= spec_grid_cell(i, n, space_width, space_height).height,
        spec_grid_cell(i, n, space_width, space_height).x + spec_grid_cell(i, n, space_width, space_height).width <= space_width,
        spec_grid_cell(i, n, space_width, space_height).y + spec_grid_cell(i, n, space_width, space_height).height <= space_height,
{
    lemma_grid_cols_props(n);
    lemma_grid_rows_props(n);
    let cols = spec_grid_cols(n);
    let rows = spec_grid_rows(n);
    let w = space_width / cols;
    let h = space_height / rows;
    lemma_fundamental_div_mod(space_width, cols);
    lemma_fundamental_div_mod(space_height, rows);
    lemma_fundamental_div_mod(i, cols);
    assert(0 <= w && cols * w <= space_width) by (nonlinear_arith)
        requires
            cols >= 1,
            space_width >= 0,
            space_width == cols * w + space_width % cols,
            0 <= space_width % cols,
    ;
    assert(0 <= h && rows * h <= space_height) by (nonlinear_arith)
        requires
            rows >= 1,
            space_height >= 0,
            space_height == rows * h + space_height % rows,
            0 <= space_height % rows,
    ;
    let col = i % cols;
    let row = i / cols;
    assert(0 <= col < cols);
    assert(0 <= row) by (nonlinear_arith)
        requires
            cols >= 1,
            0 <= i,
            i == cols * row + col,
            0 <= col < cols,
    ;
    assert(row < rows) by (nonlinear_arith)
        requires
            cols >= 1,
            i < n,
            n <= cols * rows,
            i == cols * row + col,
            0 <= col < cols,
    ;
    assert(col * w + w <= cols * w) by (nonlinear_arith)
        requires
            0 <= w,
            col < cols,
    ;
    assert(row * h + h <= rows * h) by (nonlinear_arith)
        requires
            0 <= h,
            row < rows,
    ;
    assert(0 <= col * w) by (nonlinear_arith)
        requires
            0 <= col,
            0 <= w,
    ;
    assert(0 <= row * h) by (nonlinear_arith)
        requires
            0 <= row,
            0 <= h,
    ;
}

#[derive(Debug, Clone, Copy, PartialEq, Eq, Structural)]
pub struct GridLayoutEngine {
}

impl GridLayoutEngine {
    pub fn new() -> (r: GridLayoutEngine)
        ensures
            r == (GridLayoutEngine {  }),
    {
        GridLayoutEngine {  }
    }

    pub fn name(&self) -> (r: &'static str)
        ensures
            r@ == "grid"@,
    {
        "grid"
    }

    /// The least `g` with `g * g >= n`.
    fn ceil_sqrt(n: usize) -> (g: usize)
        requires
            n <= i32::MAX,
        ensures
            g == spec_grid_cols(n as int),
            n > 0 ==> 1 <= g <= 46341,
    {
        let mut g: usize = 0;
        while g * g < n
            invariant
                0 <= g <= 46341,
                g * g <= 46341 * 46341,
                n <= i32::MAX,
                spec_grid_cols(n as int) == sqrt_ceil_from(n as int, g as nat),
            decreases n - g,
        {
            assert(g + 1 <= 46341 && g < n && (g + 1) * (g + 1) <= 46341 * 46341) by (nonlinear_arith)
                requires
                    0 <= g,
                    g * g < n,
                    n <= i32::MAX,
            ;
            g = g + 1;
        }
        if n > 0 {
            proof {
                lemma_grid_cols_props(n as int);
            }
        }
        g
    }

    /// One equal grid cell per window, row-major by index; an empty input
    /// yields an empty layout.
    pub fn calc_layout(&mut self, windows: &Vec<Window>, space_width: i32, space_height: i32) -> (r: Vec<WindowLocation>)
        requires
            0 <= space_width,
            0 <= space_height,
            windows@.len() <= i32::MAX,
        ensures
            *final(self) == *old(self),
            r@.len() == windows@.len(),
            windows@.len() == 0 ==> r@ =~= Seq::<WindowLocation>::empty(),
            forall|i: int| 0 <= i < windows@.len()
                ==> r@[i] == spec_grid_cell(i, windows@.len() as int, space_width as int, space_height as int),
    {
        let mut list: Vec<WindowLocation> = Vec::new();
        let num_windows = windows.len();

        if num_windows == 0 {
            return list;
        }

        let n = num_windows;
        let ghost n_int = n as int;
        let cols = Self::ceil_sqrt(n);
        proof {
            lemma_grid_cols_props(n_int);
            lemma_grid_rows_props(n_int);
        }
        let rows = (n + cols - 1) / cols;
        assert(rows == spec_grid_rows(n_int));
        assert(1 <= rows <= n);
        proof {
            lemma_share_bounds(space_width as int, cols as int);
            lemma_share_bounds(space_height as int, rows as int);
        }
        let width = space_width / (cols as i32);
        let height = space_height / (rows as i32);
        assert(0 <= width <= space_width && 0 <= height <= space_height);

        let mut i: usize = 0;
        while i < n
            invariant
                0 <= i <= n,
                n == windows@.len(),
                1 <= cols <= 46341,
                1 <= rows,
                rows == spec_grid_rows(n_int),
                cols == spec_grid_cols(n_int),
                n_int == n as int,
                0 <= space_width,
                0 <= space_height,
                n <= i32::MAX,
                width == space_width as int / cols as int,
                height == space_height as int / rows as int,
                list@.len() == i,
                forall|j: int| 0 <= j < i
                    ==> list@[j] == spec_grid_cell(j, n_int, space_width as int, space_height as int),
            decreases n - i,
        {
            proof {
                lemma_grid_cell_in_bounds(i as int, n_int, space_width as int, space_height as int);
                lemma_fundamental_div_mod(i as int, cols as int);
            }
            let col = i % cols;
            let row = i / cols;
            let x = (col as i32) * width;
            let y = (row as i32) * height;
            list.push(WindowLocation { x, y, width, height, state: WindowState::Normal });
            i = i + 1;
        }
        list
    }

    pub fn shrink_primary_area(&mut self)
        ensures
            *final(self) == *old(self),
    {
    }

    pub fn expand_primary_area(&mut self)
        ensures
            *final(self) == *old(self),
    {
    }

    pub fn reset_primary_area(&mut self)
        ensures
            *final(self) == *old(self),
    {
    }

    pub fn increment_num_in_primary(&mut self)
        ensures
            *final(self) == *old(self),
    {
    }

    pub fn decrement_num_in_primary(&mut self)
        ensures
            *final(self) == *old(self),
    {
    }
}

} // verus!
