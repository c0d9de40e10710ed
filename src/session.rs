use vstd::prelude::*;

use crate::grid::{correct_dimensions, lower_index, usable_extent, Grid};
use crate::resize::{ConfigError, MoveResizeMethod, ResizeRequest};
use crate::selection::Selection;

verus! {

/// The pointer button that ends the gesture when released.
pub const BUTTON_PRIMARY: u32 = 1;

/// The pointer button that moves the anchor while held.
pub const BUTTON_SECONDARY: u32 = 3;

/// Key symbol of the Escape key.
pub const KEYSYM_ESCAPE: u64 = 0xff1b;

/// Milliseconds that must pass between two accepted motion events (about 30
/// updates a second).
pub const MOTION_INTERVAL: u64 = 1000 / 30;

/// An input event, already reduced to the values the session reads.
/// Coordinates are overlay-local pixels; `time` is the server time in
/// milliseconds.
#[derive(Clone, Copy, Debug, PartialEq, Eq, Structural)]
pub enum Event {
    ButtonPress { button: u32, x: i32, y: i32 },
    ButtonRelease { button: u32, x: i32, y: i32 },
    Motion { time: u64, x: i32, y: i32 },
    KeyPress { keysym: u64 },
    Other,
}

/// What the event loop has to do after one event.
#[derive(Clone, Copy, Debug, PartialEq, Eq, Structural)]
pub struct Step {
    /// The covered cells changed: draw the overlay again.
    pub redraw: bool,
    /// Apply this geometry to the target window.
    pub apply: Option<ResizeRequest>,
}

/// A rectangle in overlay pixels.
#[derive(Clone, Copy, Debug, PartialEq, Eq, Structural)]
pub struct Rect {
    pub x: i32,
    pub y: i32,
    pub width: u32,
    pub height: u32,
}

/// Everything one overlay frame shows.
pub struct Frame {
    /// The covered cells.
    pub selection: Rect,
    /// The cell under the pointer, when the pointer position is known.
    pub hover: Option<Rect>,
    /// X positions of the vertical grid lines, left to right.
    pub columns: Vec<u32>,
    /// Y positions of the horizontal grid lines, top to bottom.
    pub rows: Vec<u32>,
    pub width: u32,
    pub height: u32,
}

/// Milliseconds from `last` to `time` on a clock that wraps at 2^64.
pub open spec fn elapsed(last: u64, time: u64) -> int {
    if time >= last {
        time - last
    } else {
        time - last + 0x1_0000_0000_0000_0000
    }
}

pub open spec fn motion_accepted(last: u64, time: u64) -> bool {
    elapsed(last, time) >= MOTION_INTERVAL
}

pub open spec fn box_view(b: ((u32, u32), (u32, u32))) -> ((int, int), (int, int)) {
    ((b.0.0 as int, b.0.1 as int), (b.1.0 as int, b.1.1 as int))
}

/// The event ends the gesture and applies the selection.
pub open spec fn finishes(e: Event) -> bool {
    match e {
        Event::ButtonRelease { button, .. } => button == BUTTON_PRIMARY,
        _ => false,
    }
}

/// The event ends the gesture and leaves the target window alone.
pub open spec fn cancels(e: Event) -> bool {
    match e {
        Event::KeyPress { keysym } => keysym == KEYSYM_ESCAPE,
        _ => false,
    }
}

/// The overlay geometry after correction: `(x, y, width, height)`.
pub open spec fn corrected(x: int, y: int, width: int, height: int, v: int, h: int) -> (
    int,
    int,
    int,
    int,
) {
    let w = usable_extent(width, v);
    let k = usable_extent(height, h);
    (x + (width - w) / 2, y + (height - k) / 2, w, k)
}

/// The corrected overlay, and the pointer relative to it, can be held in
/// `i32` coordinates.
pub open spec fn geometry_fits(
    x: int,
    y: int,
    width: int,
    height: int,
    v: int,
    h: int,
    pointer_x: int,
    pointer_y: int,
) -> bool {
    let c = corrected(x, y, width, height, v, h);
    &&& c.2 <= i32::MAX
    &&& c.3 <= i32::MAX
    &&& c.0 + c.2 <= i32::MAX
    &&& c.1 + c.3 <= i32::MAX
    &&& i32::MIN <= pointer_x - c.0 <= i32::MAX
    &&& i32::MIN <= pointer_y - c.1 <= i32::MAX
}

/// `x,y,width,height`: four values, a position in `i32` and a size in `u32`.
pub open spec fn dimensions_valid(d: Seq<i64>) -> bool {
    &&& d.len() == 4
    &&& i32::MIN <= d[0] <= i32::MAX
    &&& i32::MIN <= d[1] <= i32::MAX
    &&& 0 <= d[2] <= u32::MAX
    &&& 0 <= d[3] <= u32::MAX
}

/// `vertical,horizontal`: two positive cell counts.
pub open spec fn cells_valid(c: Seq<u32>) -> bool {
    &&& c.len() == 2
    &&& c[0] > 0
    &&& c[1] > 0
}

/// The interaction session: overlay geometry, grid, selection and the state of
/// the gesture.
pub struct GridResize {
    pub x: i32,
    pub y: i32,
    pub width: u32,
    pub height: u32,
    pub grid: Grid,
    pub selection: Selection,
    /// The secondary button is held: motion moves the anchor too.
    pub left_button_held: bool,
    pub running: bool,
    pub live: bool,
    pub last_box: ((u32, u32), (u32, u32)),
    pub last_motion: u64,
    pub method: MoveResizeMethod,
}

impl GridResize {
    /// The grid covers the overlay exactly, and every root-window coordinate
    /// inside the overlay fits in an `i32`.
    pub open spec fn wf(&self) -> bool {
        &&& self.grid.wf()
        &&& self.grid.cell_width * self.grid.vertical_cells == self.width
        &&& self.grid.cell_height * self.grid.horizontal_cells == self.height
        &&& self.width <= i32::MAX
        &&& self.height <= i32::MAX
        &&& self.x + self.width <= i32::MAX
        &&& self.y + self.height <= i32::MAX
    }

    /// The state after the event's own handler, before the frame check.
    pub open spec fn after_event(self, e: Event) -> GridResize {
        match e {
            Event::ButtonPress { button, x, y } => if button == BUTTON_SECONDARY {
                GridResize {
                    left_button_held: true,
                    selection: Selection { p1_x: x, p1_y: y, ..self.selection },
                    ..self
                }
            } else {
                self
            },
            Event::ButtonRelease { button, .. } => if button == BUTTON_PRIMARY {
                GridResize { running: false, ..self }
            } else if button == BUTTON_SECONDARY {
                GridResize { left_button_held: false, ..self }
            } else {
                self
            },
            Event::Motion { time, x, y } => if motion_accepted(self.last_motion, time) {
                GridResize {
                    last_motion: time,
                    selection: Selection {
                        p1_x: if self.left_button_held {
                            x
                        } else {
                            self.selection.p1_x
                        },
                        p1_y: if self.left_button_held {
                            y
                        } else {
                            self.selection.p1_y
                        },
                        p2_x: x,
                        p2_y: y,
                    },
                    ..self
                }
            } else {
                self
            },
            Event::KeyPress { keysym } => if keysym == KEYSYM_ESCAPE {
                GridResize { running: false, ..self }
            } else {
                self
            },
            Event::Other => self,
        }
    }

    pub open spec fn box_spec(&self) -> ((int, int), (int, int)) {
        self.selection.box_spec(self.grid)
    }

    /// The last frame shows the current selection.
    pub open spec fn synced(&self) -> bool {
        box_view(self.last_box) == self.box_spec()
    }

    /// What the loop has to do after `e`: redraw when the covered cells
    /// changed; apply the selection on finish outside live mode, and on every
    /// change in live mode.
    pub open spec fn step_spec(self, e: Event) -> Step {
        let s = self.after_event(e);
        let changed = s.box_spec() != box_view(self.last_box);
        Step {
            redraw: changed,
            apply: if finishes(e) && !s.live {
                Some(s.request_spec())
            } else if changed && s.live {
                Some(s.request_spec())
            } else {
                None
            },
        }
    }

    /// The geometry the selection stands for, in root-window coordinates.
    pub open spec fn request_spec(&self) -> ResizeRequest {
        let d = self.selection.dimensions_spec(self.grid);
        ResizeRequest {
            method: self.method,
            x: (self.x + d.0) as i32,
            y: (self.y + d.1) as i32,
            width: d.2 as u32,
            height: d.3 as u32,
        }
    }

    /// Sets up a session on the overlay `(x, y, width, height)`, corrected to
    /// whole cells, with the drag anchored at the pointer's screen position.
    pub fn new(
        x: i32,
        y: i32,
        width: u32,
        height: u32,
        vertical_cells: u32,
        horizontal_cells: u32,
        pointer_x: i32,
        pointer_y: i32,
        live: bool,
        method: MoveResizeMethod,
    ) -> (s: Self)
        requires
            vertical_cells > 0,
            horizontal_cells > 0,
            geometry_fits(
                x as int,
                y as int,
                width as int,
                height as int,
                vertical_cells as int,
                horizontal_cells as int,
                pointer_x as int,
                pointer_y as int,
            ),
        ensures
            s.wf(),
            ({
                let c = corrected(
                    x as int,
                    y as int,
                    width as int,
                    height as int,
                    vertical_cells as int,
                    horizontal_cells as int,
                );
                &&& s.x == c.0
                &&& s.y == c.1
                &&& s.width == c.2
                &&& s.height == c.3
                &&& s.selection.p1_x == pointer_x - c.0
                &&& s.selection.p1_y == pointer_y - c.1
            }),
            s.selection.p2_x == s.selection.p1_x,
            s.selection.p2_y == s.selection.p1_y,
            s.grid.vertical_cells == vertical_cells,
            s.grid.horizontal_cells == horizontal_cells,
            s.grid.cell_width == width / vertical_cells,
            s.grid.cell_height == height / horizontal_cells,
            !s.running,
            !s.left_button_held,
            s.live == live,
            s.method == method,
            s.last_motion == 0,
            box_view(s.last_box) == s.box_spec(),
    {
        let (cx, cy, cw, ch) = correct_dimensions(
            x,
            y,
            width,
            height,
            vertical_cells,
            horizontal_cells,
        );
        let grid = Grid::new(cw, ch, vertical_cells, horizontal_cells);
        proof {
            let (w, v, h, k) = (width as int, vertical_cells as int, height as int, horizontal_cells as int);
            vstd::arithmetic::div_mod::lemma_div_multiples_vanish(w / v, v);
            vstd::arithmetic::div_mod::lemma_div_multiples_vanish(h / k, k);
            assert((w / v) * v == v * (w / v) && (h / k) * k == k * (h / k)) by (nonlinear_arith);
        }
        let selection = Selection::new(pointer_x - cx, pointer_y - cy);
        let last_box = selection.get(&grid);
        GridResize {
            x: cx,
            y: cy,
            width: cw,
            height: ch,
            grid,
            selection,
            left_button_held: false,
            running: false,
            live,
            last_box,
            last_motion: 0,
            method,
        }
    }

    /// Sets up a session from the configured lists `x,y,width,height` and
    /// `vertical,horizontal`, checking each value first.
    pub fn configure(
        dimensions: &Vec<i64>,
        cells: &Vec<u32>,
        pointer_x: i32,
        pointer_y: i32,
        live: bool,
        method: MoveResizeMethod,
    ) -> (r: Result<Self, ConfigError>)
        ensures
            !dimensions_valid(dimensions@) ==> r == Err::<Self, ConfigError>(
                ConfigError::InvalidDimensions,
            ),
            dimensions_valid(dimensions@) && !cells_valid(cells@) ==> r == Err::<
                Self,
                ConfigError,
            >(ConfigError::InvalidGridSize),
            dimensions_valid(dimensions@) && cells_valid(cells@) ==> {
                let d = dimensions@;
                let c = cells@;
                let fits = geometry_fits(
                    d[0] as int,
                    d[1] as int,
                    d[2] as int,
                    d[3] as int,
                    c[0] as int,
                    c[1] as int,
                    pointer_x as int,
                    pointer_y as int,
                );
                let g = corrected(
                    d[0] as int,
                    d[1] as int,
                    d[2] as int,
                    d[3] as int,
                    c[0] as int,
                    c[1] as int,
                );
                &&& !fits ==> r == Err::<Self, ConfigError>(ConfigError::InvalidDimensions)
                &&& fits ==> r is Ok
                &&& r matches Ok(s) ==> {
                    &&& s.wf()
                    &&& s.synced()
                    &&& s.x == g.0
                    &&& s.y == g.1
                    &&& s.width == g.2
                    &&& s.height == g.3
                    &&& s.grid.vertical_cells == c[0]
                    &&& s.grid.horizontal_cells == c[1]
                    &&& s.selection == Selection::new_spec(pointer_x - g.0, pointer_y - g.1)
                    &&& !s.running
                    &&& !s.left_button_held
                    &&& s.live == live
                    &&& s.method == method
                    &&& s.last_motion == 0
                }
            },
    {
        if dimensions.len() != 4 || !fits_i32(dimensions[0]) || !fits_i32(dimensions[1])
            || !fits_u32(dimensions[2]) || !fits_u32(dimensions[3]) {
            return Err(ConfigError::InvalidDimensions);
        }
        if cells.len() != 2 || cells[0] == 0 || cells[1] == 0 {
            return Err(ConfigError::InvalidGridSize);
        }
        let x = dimensions[0] as i32;
        let y = dimensions[1] as i32;
        let width = dimensions[2] as u32;
        let height = dimensions[3] as u32;
        let v = cells[0];
        let h = cells[1];
        proof {
            let (wi, vi, hi, ki) = (width as int, v as int, height as int, h as int);
            vstd::arithmetic::div_mod::lemma_fundamental_div_mod(wi, vi);
            vstd::arithmetic::div_mod::lemma_fundamental_div_mod(hi, ki);
            assert((wi / vi) * vi <= wi) by (nonlinear_arith)
                requires
                    wi == vi * (wi / vi) + wi % vi,
                    wi % vi >= 0,
            ;
            assert((hi / ki) * ki <= hi) by (nonlinear_arith)
                requires
                    hi == ki * (hi / ki) + hi % ki,
                    hi % ki >= 0,
            ;
        }
        let cw = (width / v) as u64 * v as u64;
        let ch = (height / h) as u64 * h as u64;
        let cx = x as i64 + ((width as u64 - cw) / 2) as i64;
        let cy = y as i64 + ((height as u64 - ch) / 2) as i64;
        let size_fits = cw <= i32::MAX as u64 && ch <= i32::MAX as u64;
        if !size_fits || !fits_i32(cx + cw as i64) || !fits_i32(cy + ch as i64) {
            return Err(ConfigError::InvalidDimensions);
        }
        if !fits_i32(pointer_x as i64 - cx) || !fits_i32(pointer_y as i64 - cy) {
            return Err(ConfigError::InvalidDimensions);
        }
        Ok(GridResize::new(x, y, width, height, v, h, pointer_x, pointer_y, live, method))
    }

    /// Starts the gesture; the first frame shows the current selection.
    pub fn start(&mut self)
        requires
            old(self).wf(),
        ensures
            final(self).wf(),
            *final(self) == (GridResize { running: true, ..*old(self) }),
    {
        self.running = true;
    }

    /// Records the second-button press: the anchor jumps to the pointer.
    pub fn button_press(&mut self, button: u32, x: i32, y: i32)
        ensures
            *final(self) == old(self).after_event(Event::ButtonPress { button, x, y }),
    {
        if button == BUTTON_SECONDARY {
            self.left_button_held = true;
            self.selection.p1_x = x;
            self.selection.p1_y = y;
        }
    }

    /// Primary release finishes the gesture; secondary release stops moving
    /// the anchor. Returns the geometry to apply, if any.
    pub fn button_release(&mut self, button: u32, x: i32, y: i32) -> (r: Option<ResizeRequest>)
        requires
            old(self).wf(),
        ensures
            *final(self) == old(self).after_event(Event::ButtonRelease { button, x, y }),
            r == (if button == BUTTON_PRIMARY && !old(self).live {
                Some(old(self).request_spec())
            } else {
                None
            }),
    {
        if button == BUTTON_PRIMARY {
            self.finish()
        } else {
            if button == BUTTON_SECONDARY {
                self.left_button_held = false;
            }
            None
        }
    }

    /// Follows the pointer, at most once per `MOTION_INTERVAL`.
    pub fn motion(&mut self, time: u64, x: i32, y: i32)
        ensures
            *final(self) == old(self).after_event(Event::Motion { time, x, y }),
    {
        if time.wrapping_sub(self.last_motion) < MOTION_INTERVAL {
            return;
        }
        self.last_motion = time;
        self.selection.p2_x = x;
        self.selection.p2_y = y;
        if self.left_button_held {
            self.selection.p1_x = x;
            self.selection.p1_y = y;
        }
    }

    /// Escape cancels the gesture.
    pub fn key_press(&mut self, keysym: u64)
        ensures
            *final(self) == old(self).after_event(Event::KeyPress { keysym }),
    {
        if keysym == KEYSYM_ESCAPE {
            self.cancel();
        }
    }

    /// Ends the gesture and leaves the target window as it is.
    pub fn cancel(&mut self)
        ensures
            *final(self) == (GridResize { running: false, ..*old(self) }),
    {
        self.running = false;
    }

    /// Ends the gesture. Outside live mode returns the geometry to apply once;
    /// in live mode it was applied as the selection changed.
    pub fn finish(&mut self) -> (r: Option<ResizeRequest>)
        requires
            old(self).wf(),
        ensures
            *final(self) == (GridResize { running: false, ..*old(self) }),
            r == (if old(self).live {
                None
            } else {
                Some(old(self).request_spec())
            }),
    {
        self.running = false;
        if !self.live {
            Some(self.move_and_resize())
        } else {
            None
        }
    }

    /// The geometry of the covered cells on the screen, with the session's
    /// method.
    pub fn move_and_resize(&self) -> (r: ResizeRequest)
        requires
            self.wf(),
        ensures
            r == self.request_spec(),
            r.x == self.x + self.selection.dimensions_spec(self.grid).0,
            r.y == self.y + self.selection.dimensions_spec(self.grid).1,
            r.width == self.selection.dimensions_spec(self.grid).2,
            r.height == self.selection.dimensions_spec(self.grid).3,
    {
        let (x, y, w, h) = self.selection.get_dimensions(&self.grid);
        proof {
            lemma_dimensions_inside(self.selection, self.grid);
        }
        ResizeRequest { method: self.method, x: self.x + x, y: self.y + y, width: w, height: h }
    }

    /// Handles one event: runs its handler, then compares the covered cells
    /// with the last frame's. A change asks for a redraw and, in live mode,
    /// for the new geometry to be applied.
    pub fn handle_event(&mut self, event: Event) -> (step: Step)
        requires
            old(self).wf(),
        ensures
            final(self).wf(),
            final(self).synced(),
            *final(self) == (GridResize {
                last_box: final(self).last_box,
                ..old(self).after_event(event)
            }),
            step == old(self).step_spec(event),
    {
        let finished = match event {
            Event::ButtonPress { button, x, y } => {
                self.button_press(button, x, y);
                None
            },
            Event::ButtonRelease { button, x, y } => self.button_release(button, x, y),
            Event::Motion { time, x, y } => {
                self.motion(time, x, y);
                None
            },
            Event::KeyPress { keysym } => {
                self.key_press(keysym);
                None
            },
            Event::Other => None,
        };
        let b = self.selection.get(&self.grid);
        let changed = !same_box(b, self.last_box);
        self.last_box = b;
        let apply = if finished.is_some() {
            finished
        } else if changed && self.live {
            Some(self.move_and_resize())
        } else {
            None
        };
        Step { redraw: changed, apply }
    }

    /// The cell under the pointer, given in screen coordinates.
    pub open spec fn hover_spec(&self, px: int, py: int) -> Rect {
        let i = self.grid.lower_spec(px - self.x, py - self.y);
        Rect {
            x: (i.0 * self.grid.cell_width) as i32,
            y: (i.1 * self.grid.cell_height) as i32,
            width: self.grid.cell_width,
            height: self.grid.cell_height,
        }
    }

    /// What the overlay shows: the covered cells, the cell under the pointer
    /// (screen position, when known) and the grid lines.
    pub fn frame(&self, pointer: Option<(i32, i32)>) -> (f: Frame)
        requires
            self.wf(),
        ensures
            ({
                let d = self.selection.dimensions_spec(self.grid);
                f.selection == Rect {
                    x: d.0 as i32,
                    y: d.1 as i32,
                    width: d.2 as u32,
                    height: d.3 as u32,
                }
            }),
            f.hover == (match pointer {
                Some(p) => Some(self.hover_spec(p.0 as int, p.1 as int)),
                None => None,
            }),
            f.columns@.len() == self.grid.vertical_cells + 1,
            forall|i: int|
                0 <= i <= self.grid.vertical_cells ==> f.columns@[i] == i
                    * self.grid.cell_width,
            f.rows@.len() == self.grid.horizontal_cells + 1,
            forall|i: int|
                0 <= i <= self.grid.horizontal_cells ==> f.rows@[i] == i
                    * self.grid.cell_height,
            f.width == self.width,
            f.height == self.height,
    {
        let (x, y, w, h) = self.selection.get_dimensions(&self.grid);
        let selection = Rect { x, y, width: w, height: h };
        let hover = match pointer {
            Some(p) => Some(self.hover_cell(p.0, p.1)),
            None => None,
        };
        let columns = boundaries(self.grid.cell_width, self.grid.vertical_cells);
        let rows = boundaries(self.grid.cell_height, self.grid.horizontal_cells);
        Frame { selection, hover, columns, rows, width: self.width, height: self.height }
    }

    fn hover_cell(&self, px: i32, py: i32) -> (r: Rect)
        requires
            self.wf(),
        ensures
            r == self.hover_spec(px as int, py as int),
    {
        let lx = clamp_offset(px, self.x);
        let ly = clamp_offset(py, self.y);
        proof {
            lemma_clamp_same_index(
                px - self.x,
                lx as int,
                self.grid.cell_width as int,
                self.grid.vertical_cells as int,
            );
            lemma_clamp_same_index(
                py - self.y,
                ly as int,
                self.grid.cell_height as int,
                self.grid.horizontal_cells as int,
            );
        }
        let (ix, iy) = self.grid.lower_bound(lx, ly);
        let (cx, cy) = self.grid.position((ix, iy));
        proof {
            assert(ix * self.grid.cell_width <= self.width) by (nonlinear_arith)
                requires
                    ix <= self.grid.vertical_cells,
                    self.grid.cell_width * self.grid.vertical_cells == self.width,
            ;
            assert(iy * self.grid.cell_height <= self.height) by (nonlinear_arith)
                requires
                    iy <= self.grid.horizontal_cells,
                    self.grid.cell_height * self.grid.horizontal_cells == self.height,
            ;
        }
        Rect {
            x: cx as i32,
            y: cy as i32,
            width: self.grid.cell_width,
            height: self.grid.cell_height,
        }
    }
}

fn fits_i32(v: i64) -> (r: bool)
    ensures
        r == (i32::MIN <= v <= i32::MAX),
{
    i32::MIN as i64 <= v && v <= i32::MAX as i64
}

fn fits_u32(v: i64) -> (r: bool)
    ensures
        r == (0 <= v <= u32::MAX),
{
    0 <= v && v <= u32::MAX as i64
}

fn same_box(a: ((u32, u32), (u32, u32)), b: ((u32, u32), (u32, u32))) -> (r: bool)
    ensures
        r == (a == b),
{
    a.0.0 == b.0.0 && a.0.1 == b.0.1 && a.1.0 == b.1.0 && a.1.1 == b.1.1
}

/// `p - origin`, held to the range of `i32`.
fn clamp_offset(p: i32, origin: i32) -> (r: i32)
    ensures
        r == (if p - origin > i32::MAX {
            i32::MAX as int
        } else if p - origin < i32::MIN {
            i32::MIN as int
        } else {
            p - origin
        }),
{
    let d = p as i64 - origin as i64;
    if d > i32::MAX as i64 {
        i32::MAX
    } else if d < i32::MIN as i64 {
        i32::MIN
    } else {
        d as i32
    }
}

proof fn lemma_clamp_same_index(c: int, clamped: int, s: int, n: int)
    requires
        s >= 0,
        n > 0,
        s * n <= i32::MAX,
        clamped == (if c > i32::MAX {
            i32::MAX as int
        } else if c < i32::MIN {
            i32::MIN as int
        } else {
            c
        }),
    ensures
        lower_index(c, s, n) == lower_index(clamped, s, n),
{
    if c > i32::MAX && s > 0 {
        vstd::arithmetic::div_mod::lemma_div_is_ordered(s * n, i32::MAX as int, s);
        vstd::arithmetic::div_mod::lemma_div_is_ordered(s * n, c, s);
        vstd::arithmetic::div_mod::lemma_div_multiples_vanish(n, s);
    }
}

/// The covered cells lie inside the overlay: their position and extent are
/// within the grid's area.
proof fn lemma_dimensions_inside(sel: Selection, grid: Grid)
    requires
        grid.wf(),
    ensures
        0 <= sel.dimensions_spec(grid).0,
        0 <= sel.dimensions_spec(grid).1,
        0 <= sel.dimensions_spec(grid).2,
        0 <= sel.dimensions_spec(grid).3,
        sel.dimensions_spec(grid).0 + sel.dimensions_spec(grid).2 <= grid.cell_width
            * grid.vertical_cells,
        sel.dimensions_spec(grid).1 + sel.dimensions_spec(grid).3 <= grid.cell_height
            * grid.horizontal_cells,
{
    let r = sel.rect();
    crate::selection::lemma_index_order(r.0, r.2, grid.cell_width as int, grid.vertical_cells as int);
    crate::selection::lemma_index_order(r.1, r.3, grid.cell_height as int, grid.horizontal_cells as int);
    crate::selection::lemma_upper_index_bounded(r.2, grid.cell_width as int, grid.vertical_cells as int);
    crate::selection::lemma_upper_index_bounded(r.3, grid.cell_height as int, grid.horizontal_cells as int);
    crate::selection::lemma_upper_index_bounded(r.0, grid.cell_width as int, grid.vertical_cells as int);
    crate::selection::lemma_upper_index_bounded(r.1, grid.cell_height as int, grid.horizontal_cells as int);
    let b = sel.box_spec(grid);
    let (s, n, t, m) = (grid.cell_width as int, grid.vertical_cells as int, grid.cell_height as int, grid.horizontal_cells as int);
    assert(0 <= b.0.0 * s <= b.1.0 * s <= n * s) by (nonlinear_arith)
        requires
            0 <= b.0.0 <= b.1.0 <= n,
            s >= 0,
    ;
    assert(0 <= b.0.1 * t <= b.1.1 * t <= m * t) by (nonlinear_arith)
        requires
            0 <= b.0.1 <= b.1.1 <= m,
            t >= 0,
    ;
    assert(n * s == s * n && m * t == t * m) by (nonlinear_arith);
}

/// The boundaries `0, s, 2s, ..., n*s`.
fn boundaries(s: u32, n: u32) -> (v: Vec<u32>)
    requires
        s * n <= u32::MAX,
    ensures
        v@.len() == n + 1,
        forall|i: int| 0 <= i <= n ==> v@[i] == i * s,
{
    let mut v: Vec<u32> = Vec::new();
    let mut i: u32 = 0;
    loop
        invariant
            i <= n,
            s * n <= u32::MAX,
            v@.len() == i,
            forall|j: int| 0 <= j < i ==> v@[j] == j * s,
        decreases n - i,
    {
        assert(i * s <= s * n) by (nonlinear_arith)
            requires
                i <= n,
        ;
        v.push(i * s);
        if i == n {
            return v;
        }
        i = i + 1;
    }
}

/// Motion events closer than `MOTION_INTERVAL` to the last accepted one change
/// nothing; later ones move the far corner to the event's position.
pub proof fn lemma_motion_debounced(s: GridResize, time: u64, x: i32, y: i32)
    ensures
        elapsed(s.last_motion, time) < MOTION_INTERVAL ==> s.after_event(
            Event::Motion { time, x, y },
        ) == s,
        elapsed(s.last_motion, time) >= MOTION_INTERVAL ==> {
            let t = s.after_event(Event::Motion { time, x, y });
            &&& t.selection.p2_x == x
            &&& t.selection.p2_y == y
            &&& t.last_motion == time
        },
{
}

/// Cancelling never applies a geometry, and ends the gesture.
pub proof fn lemma_cancel_never_applies(s: GridResize, e: Event)
    requires
        s.synced(),
        cancels(e),
    ensures
        s.step_spec(e).apply.is_none(),
        !s.after_event(e).running,
{
}

/// Outside live mode a geometry is applied on finish only, once, with the
/// selection's covered cells; the gesture then ends.
pub proof fn lemma_finish_applies_once(s: GridResize, e: Event)
    requires
        !s.live,
    ensures
        finishes(e) ==> s.step_spec(e).apply == Some(s.request_spec()),
        finishes(e) ==> !s.after_event(e).running,
        !finishes(e) ==> s.step_spec(e).apply.is_none(),
{
}

/// In live mode a geometry is applied exactly when the covered cells change,
/// and finishing adds no application of its own.
pub proof fn lemma_live_applies_on_change(s: GridResize, e: Event)
    requires
        s.live,
        s.synced(),
    ensures
        s.step_spec(e).apply.is_some() <==> s.after_event(e).box_spec() != s.box_spec(),
        s.step_spec(e).apply.is_some() ==> s.step_spec(e).apply == Some(
            s.after_event(e).request_spec(),
        ),
        finishes(e) ==> s.step_spec(e).apply.is_none(),
{
}

} // verus!
