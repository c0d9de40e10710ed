use vstd::prelude::*;

use crate::grid::{lower_index, upper_index, Grid};

verus! {

pub open spec fn min_int(a: int, b: int) -> int {
    if a <= b {
        a
    } else {
        b
    }
}

pub open spec fn max_int(a: int, b: int) -> int {
    if a >= b {
        a
    } else {
        b
    }
}

/// The two anchor points of a drag, in overlay-local pixels: `p1` where it
/// started, `p2` where the pointer is now.
pub struct Selection {
    pub p1_x: i32,
    pub p1_y: i32,
    pub p2_x: i32,
    pub p2_y: i32,
}

impl Selection {
    /// The anchors sorted per axis: `(min_x, min_y, max_x, max_y)`.
    pub open spec fn rect(&self) -> (int, int, int, int) {
        (
            min_int(self.p1_x as int, self.p2_x as int),
            min_int(self.p1_y as int, self.p2_y as int),
            max_int(self.p1_x as int, self.p2_x as int),
            max_int(self.p1_y as int, self.p2_y as int),
        )
    }

    /// The cells that the selection covers: the cell containing the sorted
    /// minimum corner, and the boundary past the sorted maximum corner.
    pub open spec fn box_spec(&self, grid: Grid) -> ((int, int), (int, int)) {
        let r = self.rect();
        (grid.lower_spec(r.0, r.1), grid.upper_spec(r.2, r.3))
    }

    /// The covered cells in pixels: `(x, y, width, height)` in the overlay.
    pub open spec fn dimensions_spec(&self, grid: Grid) -> (int, int, int, int) {
        let b = self.box_spec(grid);
        let lo = grid.position_spec(b.0);
        let hi = grid.position_spec(b.1);
        (lo.0, lo.1, hi.0 - lo.0, hi.1 - lo.1)
    }

    /// Both anchors at `(x, y)`: an empty drag.
    pub open spec fn new_spec(x: int, y: int) -> Selection {
        Selection { p1_x: x as i32, p1_y: y as i32, p2_x: x as i32, p2_y: y as i32 }
    }

    pub fn new(x: i32, y: i32) -> (s: Self)
        ensures
            s == Selection::new_spec(x as int, y as int),
    {
        Selection { p1_x: x, p1_y: y, p2_x: x, p2_y: y }
    }

    /// Returns the lower and upper cell indices that the selection covers.
    pub fn get(&self, grid: &Grid) -> (r: ((u32, u32), (u32, u32)))
        requires
            grid.wf(),
        ensures
            ((r.0.0 as int, r.0.1 as int), (r.1.0 as int, r.1.1 as int)) == self.box_spec(*grid),
    {
        let p1_x = if self.p1_x <= self.p2_x {
            self.p1_x
        } else {
            self.p2_x
        };
        let p2_x = if self.p1_x >= self.p2_x {
            self.p1_x
        } else {
            self.p2_x
        };
        let p1_y = if self.p1_y <= self.p2_y {
            self.p1_y
        } else {
            self.p2_y
        };
        let p2_y = if self.p1_y >= self.p2_y {
            self.p1_y
        } else {
            self.p2_y
        };
        (grid.lower_bound(p1_x, p1_y), grid.upper_bound(p2_x, p2_y))
    }

    /// Returns the covered cells as `(x, y, width, height)` in overlay pixels.
    pub fn get_dimensions(&self, grid: &Grid) -> (r: (i32, i32, u32, u32))
        requires
            grid.wf(),
            grid.cell_width * grid.vertical_cells <= i32::MAX,
            grid.cell_height * grid.horizontal_cells <= i32::MAX,
        ensures
            (r.0 as int, r.1 as int, r.2 as int, r.3 as int) == self.dimensions_spec(*grid),
    {
        let (p1idx, p2idx) = self.get(grid);
        let ghost rect = self.rect();
        proof {
            lemma_index_order(
                rect.0,
                rect.2,
                grid.cell_width as int,
                grid.vertical_cells as int,
            );
            lemma_index_order(
                rect.1,
                rect.3,
                grid.cell_height as int,
                grid.horizontal_cells as int,
            );
            lemma_upper_index_bounded(rect.2, grid.cell_width as int, grid.vertical_cells as int);
            lemma_upper_index_bounded(
                rect.3,
                grid.cell_height as int,
                grid.horizontal_cells as int,
            );
        }
        let p1 = grid.position(p1idx);
        let p2 = grid.position(p2idx);
        proof {
            let s = grid.cell_width as int;
            let n = grid.vertical_cells as int;
            let t = grid.cell_height as int;
            let m = grid.horizontal_cells as int;
            let (a, b, c, d) = (p1idx.0 as int, p2idx.0 as int, p1idx.1 as int, p2idx.1 as int);
            assert(a * s <= b * s <= n * s) by (nonlinear_arith)
                requires
                    0 <= a <= b <= n,
                    s >= 0,
            ;
            assert(c * t <= d * t <= m * t) by (nonlinear_arith)
                requires
                    0 <= c <= d <= m,
                    t >= 0,
            ;
            assert(n * s == s * n && m * t == t * m) by (nonlinear_arith);
            assert(p1.0 <= i32::MAX && p1.1 <= i32::MAX);
            assert(p1.0 <= p2.0 && p1.1 <= p2.1);
        }
        (p1.0 as i32, p1.1 as i32, p2.0 - p1.0, p2.1 - p1.1)
    }
}

pub proof fn lemma_upper_index_bounded(c: int, s: int, n: int)
    requires
        n > 0,
        s >= 0,
    ensures
        0 <= upper_index(c, s, n) <= n,
        0 <= lower_index(c, s, n) <= n,
{
    if c >= 0 && s > 0 {
        vstd::arithmetic::div_mod::lemma_div_pos_is_pos(c, s);
    }
}

/// Along one axis the lower index of a coordinate never passes the upper
/// index of a coordinate at or after it.
pub proof fn lemma_index_order(a: int, b: int, s: int, n: int)
    requires
        a <= b,
        n > 0,
        s >= 0,
    ensures
        lower_index(a, s, n) <= upper_index(b, s, n),
{
    if a >= 0 && s > 0 {
        vstd::arithmetic::div_mod::lemma_div_is_ordered(a, b, s);
        vstd::arithmetic::div_mod::lemma_div_pos_is_pos(a, s);
    }
}

/// The covered cells depend on the sorted corners only, not on which anchor
/// holds which corner.
pub proof fn lemma_box_order_independent(grid: Grid, s: Selection, t: Selection)
    requires
        s.rect() == t.rect(),
    ensures
        s.box_spec(grid) == t.box_spec(grid),
        s.dimensions_spec(grid) == t.dimensions_spec(grid),
{
}

} // verus!
