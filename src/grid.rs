use vstd::prelude::*;

verus! {

/// Index of the cell that contains coordinate `c` along one axis of `n` cells
/// of size `s`: the largest `i <= n` with `i * s <= c`, or 0 before the first
/// boundary.
pub open spec fn lower_index(c: int, s: int, n: int) -> int {
    if c < 0 {
        0
    } else if s == 0 {
        n
    } else if c / s < n {
        c / s
    } else {
        n
    }
}

/// Index of the first cell boundary strictly past coordinate `c` along one
/// axis of `n` cells of size `s`, capped at `n`.
pub open spec fn upper_index(c: int, s: int, n: int) -> int {
    if c < 0 {
        0
    } else if s == 0 {
        n
    } else if c / s + 1 < n {
        c / s + 1
    } else {
        n
    }
}

proof fn lemma_div_between(c: int, s: int, k: int)
    requires
        s > 0,
        k * s <= c,
        c < (k + 1) * s,
    ensures
        c / s == k,
{
    vstd::arithmetic::div_mod::lemma_fundamental_div_mod(c, s);
    let q = c / s;
    let r = c % s;
    assert(0 <= r < s);
    assert(q == k) by (nonlinear_arith)
        requires
            c == s * q + r,
            0 <= r < s,
            k * s <= c,
            c < (k + 1) * s,
            s > 0,
    ;
}

proof fn lemma_div_at_least(c: int, s: int, k: int)
    requires
        s > 0,
        k >= 0,
        k * s <= c,
    ensures
        c / s >= k,
{
    vstd::arithmetic::div_mod::lemma_fundamental_div_mod(c, s);
    let q = c / s;
    let r = c % s;
    assert(q >= k) by (nonlinear_arith)
        requires
            c == s * q + r,
            0 <= r < s,
            k * s <= c,
            s > 0,
    ;
}

/// Walks the boundaries `0, s, 2s, ..., n*s` and keeps the last one at or
/// before `c`.
fn axis_lower(c: i32, s: u32, n: u32) -> (r: u32)
    requires
        s * n <= u32::MAX,
    ensures
        r == lower_index(c as int, s as int, n as int),
{
    if c < 0 {
        return 0;
    }
    let cu = c as u32;
    let mut index: u32 = 0;
    let mut i: u32 = 0;
    loop
        invariant
            i <= n,
            s * n <= u32::MAX,
            cu == c,
            c >= 0,
            index == (if i == 0 { 0 } else { i - 1 }),
            i > 0 ==> (i - 1) * s <= cu,
        decreases n - i,
    {
        assert(i * s <= s * n) by (nonlinear_arith)
            requires
                i <= n,
        ;
        if i * s > cu {
            proof {
                if s > 0 {
                    assert(i > 0);
                    lemma_div_between(c as int, s as int, i - 1);
                }
            }
            return index;
        }
        index = i;
        if i == n {
            proof {
                if s > 0 {
                    lemma_div_at_least(c as int, s as int, n as int);
                }
            }
            return index;
        }
        i = i + 1;
    }
}

/// Walks the boundaries `0, s, 2s, ..., n*s` and returns the first one
/// strictly past `c`, or `n` when none is.
fn axis_upper(c: i32, s: u32, n: u32) -> (r: u32)
    requires
        s * n <= u32::MAX,
    ensures
        r == upper_index(c as int, s as int, n as int),
{
    if c < 0 {
        return 0;
    }
    let cu = c as u32;
    let mut i: u32 = 0;
    loop
        invariant
            i <= n,
            s * n <= u32::MAX,
            cu == c,
            c >= 0,
            i > 0 ==> (i - 1) * s <= cu,
        decreases n - i,
    {
        assert(i * s <= s * n) by (nonlinear_arith)
            requires
                i <= n,
        ;
        if i * s > cu {
            proof {
                assert(i > 0);
                assert(s > 0) by (nonlinear_arith)
                    requires
                        i * s > cu,
                        cu >= 0,
                ;
                lemma_div_between(c as int, s as int, i - 1);
            }
            return i;
        }
        if i == n {
            proof {
                if s > 0 {
                    lemma_div_at_least(c as int, s as int, n as int);
                }
            }
            return n;
        }
        i = i + 1;
    }
}

/// A `width` x `height` rectangle cut into `vertical_cells` columns and
/// `horizontal_cells` rows of equal integer size.
pub struct Grid {
    pub vertical_cells: u32,
    pub horizontal_cells: u32,
    pub cell_width: u32,
    pub cell_height: u32,
}

impl Grid {
    /// Both axes have at least one cell, and the cells of each axis fit in a
    /// `u32` side by side.
    pub open spec fn wf(&self) -> bool {
        &&& self.vertical_cells > 0
        &&& self.horizontal_cells > 0
        &&& self.cell_width * self.vertical_cells <= u32::MAX
        &&& self.cell_height * self.horizontal_cells <= u32::MAX
    }

    /// Column and row of the cell that contains the point `(x, y)`.
    pub open spec fn lower_spec(&self, x: int, y: int) -> (int, int) {
        (
            lower_index(x, self.cell_width as int, self.vertical_cells as int),
            lower_index(y, self.cell_height as int, self.horizontal_cells as int),
        )
    }

    /// Column and row of the first cell boundaries strictly past `(x, y)`.
    pub open spec fn upper_spec(&self, x: int, y: int) -> (int, int) {
        (
            upper_index(x, self.cell_width as int, self.vertical_cells as int),
            upper_index(y, self.cell_height as int, self.horizontal_cells as int),
        )
    }

    /// Pixel position of the cell corner with the given column and row.
    pub open spec fn position_spec(&self, index: (int, int)) -> (int, int) {
        (index.0 * self.cell_width, index.1 * self.cell_height)
    }

    pub fn new(width: u32, height: u32, vertical_cells: u32, horizontal_cells: u32) -> (g: Self)
        requires
            vertical_cells > 0,
            horizontal_cells > 0,
        ensures
            g.wf(),
            g.vertical_cells == vertical_cells,
            g.horizontal_cells == horizontal_cells,
            g.cell_width == width / vertical_cells,
            g.cell_height == height / horizontal_cells,
    {
        let cell_width = width / vertical_cells;
        let cell_height = height / horizontal_cells;
        proof {
            vstd::arithmetic::div_mod::lemma_fundamental_div_mod(width as int, vertical_cells as int);
            vstd::arithmetic::div_mod::lemma_fundamental_div_mod(height as int, horizontal_cells as int);
            assert(cell_width * vertical_cells <= width) by (nonlinear_arith)
                requires
                    width == vertical_cells * cell_width + width % vertical_cells,
                    width % vertical_cells >= 0,
            ;
            assert(cell_height * horizontal_cells <= height) by (nonlinear_arith)
                requires
                    height == horizontal_cells * cell_height + height % horizontal_cells,
                    height % horizontal_cells >= 0,
            ;
        }
        Grid { vertical_cells, horizontal_cells, cell_width, cell_height }
    }

    /// Returns the top-left corner of the cell containing the given point.
    pub fn lower_bound(&self, x: i32, y: i32) -> (r: (u32, u32))
        requires
            self.wf(),
        ensures
            (r.0 as int, r.1 as int) == self.lower_spec(x as int, y as int),
    {
        (
            axis_lower(x, self.cell_width, self.vertical_cells),
            axis_lower(y, self.cell_height, self.horizontal_cells),
        )
    }

    /// Returns the bottom-right corner of the cell containing the given point.
    pub fn upper_bound(&self, x: i32, y: i32) -> (r: (u32, u32))
        requires
            self.wf(),
        ensures
            (r.0 as int, r.1 as int) == self.upper_spec(x as int, y as int),
    {
        (
            axis_upper(x, self.cell_width, self.vertical_cells),
            axis_upper(y, self.cell_height, self.horizontal_cells),
        )
    }

    pub fn position(&self, index: (u32, u32)) -> (r: (u32, u32))
        requires
            self.wf(),
            index.0 <= self.vertical_cells,
            index.1 <= self.horizontal_cells,
        ensures
            (r.0 as int, r.1 as int) == self.position_spec((index.0 as int, index.1 as int)),
    {
        proof {
            assert(index.0 * self.cell_width <= self.cell_width * self.vertical_cells)
                by (nonlinear_arith)
                requires
                    index.0 <= self.vertical_cells,
            ;
            assert(index.1 * self.cell_height <= self.cell_height * self.horizontal_cells)
                by (nonlinear_arith)
                requires
                    index.1 <= self.horizontal_cells,
            ;
        }
        (index.0 * self.cell_width, index.1 * self.cell_height)
    }
}

/// Width and height that are left once `width` and `height` are cut down to
/// whole cells.
pub open spec fn usable_extent(extent: int, cells: int) -> int {
    (extent / cells) * cells
}

/// Shrinks `(x, y, width, height)` to a whole number of cells on each axis and
/// centres the result inside the requested rectangle.
pub fn correct_dimensions(
    x: i32,
    y: i32,
    width: u32,
    height: u32,
    vertical_cells: u32,
    horizontal_cells: u32,
) -> (r: (i32, i32, u32, u32))
    requires
        vertical_cells > 0,
        horizontal_cells > 0,
        x + (width - usable_extent(width as int, vertical_cells as int)) / 2 <= i32::MAX,
        y + (height - usable_extent(height as int, horizontal_cells as int)) / 2 <= i32::MAX,
    ensures
        r.2 == usable_extent(width as int, vertical_cells as int),
        r.3 == usable_extent(height as int, horizontal_cells as int),
        r.0 == x + (width - r.2) / 2,
        r.1 == y + (height - r.3) / 2,
{
    let cell_width = width / vertical_cells;
    let cell_height = height / horizontal_cells;
    proof {
        vstd::arithmetic::div_mod::lemma_fundamental_div_mod(width as int, vertical_cells as int);
        vstd::arithmetic::div_mod::lemma_fundamental_div_mod(height as int, horizontal_cells as int);
        assert(cell_width * vertical_cells <= width) by (nonlinear_arith)
            requires
                width == vertical_cells * cell_width + width % vertical_cells,
                width % vertical_cells >= 0,
        ;
        assert(cell_height * horizontal_cells <= height) by (nonlinear_arith)
            requires
                height == horizontal_cells * cell_height + height % horizontal_cells,
                height % horizontal_cells >= 0,
        ;
    }
    let use_width = cell_width * vertical_cells;
    let use_height = cell_height * horizontal_cells;
    let use_x = x + ((width - use_width) / 2) as i32;
    let use_y = y + ((height - use_height) / 2) as i32;
    (use_x, use_y, use_width, use_height)
}

/// The corrected extent is a whole number of cells and never larger than the
/// requested one, on both axes.
pub proof fn lemma_corrected_extent_fits(
    width: u32,
    height: u32,
    vertical_cells: u32,
    horizontal_cells: u32,
)
    requires
        vertical_cells > 0,
        horizontal_cells > 0,
    ensures
        usable_extent(width as int, vertical_cells as int) % (vertical_cells as int) == 0,
        usable_extent(width as int, vertical_cells as int) <= width,
        usable_extent(height as int, horizontal_cells as int) % (horizontal_cells as int) == 0,
        usable_extent(height as int, horizontal_cells as int) <= height,
{
    let w = width as int;
    let h = height as int;
    let v = vertical_cells as int;
    let k = horizontal_cells as int;
    vstd::arithmetic::div_mod::lemma_fundamental_div_mod(w, v);
    vstd::arithmetic::div_mod::lemma_fundamental_div_mod(h, k);
    vstd::arithmetic::div_mod::lemma_mod_multiples_basic(w / v, v);
    vstd::arithmetic::div_mod::lemma_mod_multiples_basic(h / k, k);
    assert((w / v) * v <= w) by (nonlinear_arith)
        requires
            w == v * (w / v) + w % v,
            w % v >= 0,
    ;
    assert((h / k) * k <= h) by (nonlinear_arith)
        requires
            h == k * (h / k) + h % k,
            h % k >= 0,
    ;
}

/// Every point of the usable area lies within the cell found for it: the
/// corner of its lower cell is at or before it, and the boundary past it is at
/// or after it.
pub proof fn lemma_bounds_enclose_point(grid: Grid, x: int, y: int)
    requires
        grid.wf(),
        0 <= x < grid.cell_width * grid.vertical_cells,
        0 <= y < grid.cell_height * grid.horizontal_cells,
    ensures
        grid.position_spec(grid.lower_spec(x, y)).0 <= x,
        grid.position_spec(grid.lower_spec(x, y)).1 <= y,
        grid.position_spec(grid.upper_spec(x, y)).0 >= x,
        grid.position_spec(grid.upper_spec(x, y)).1 >= y,
{
    lemma_axis_encloses(x, grid.cell_width as int, grid.vertical_cells as int);
    lemma_axis_encloses(y, grid.cell_height as int, grid.horizontal_cells as int);
}

proof fn lemma_axis_encloses(c: int, s: int, n: int)
    requires
        n > 0,
        s >= 0,
        0 <= c < s * n,
    ensures
        lower_index(c, s, n) * s <= c,
        upper_index(c, s, n) * s >= c,
{
    assert(s > 0) by (nonlinear_arith)
        requires
            0 <= c < s * n,
            s >= 0,
    ;
    vstd::arithmetic::div_mod::lemma_fundamental_div_mod(c, s);
    let q = c / s;
    let r = c % s;
    assert(q < n) by (nonlinear_arith)
        requires
            c == s * q + r,
            0 <= r < s,
            c < s * n,
            s > 0,
    ;
    assert(q * s <= c) by (nonlinear_arith)
        requires
            c == s * q + r,
            0 <= r,
    ;
    assert((q + 1) * s > c) by (nonlinear_arith)
        requires
            c == s * q + r,
            r < s,
    ;
    if q + 1 >= n {
        assert(n * s >= (q + 1) * s) by (nonlinear_arith)
            requires
                n >= q + 1,
                s > 0,
        ;
    }
}

} // verus!
