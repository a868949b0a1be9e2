//! The drawing stage: stamps the brush stroke between the previous and the
//! current cursor position into the buffer that the next update reads.
use vstd::prelude::*;

use crate::buffer::{destination_of, frame_roles, GridSize, MAX_GRID_DIMENSION};
use crate::input::{CanvasPosition, DrawingParams};

verus! {

/// Radius of the brush, in cells.
pub const BRUSH_RADIUS: u16 = 10;

/// State word of an empty cell.
pub const CELL_EMPTY: u32 = 0;

/// State word that the brush writes.
pub const CELL_FILLED: u32 = 1;

/// Whether cell `(px, py)` lies within `radius` of the segment from `a` to
/// `b`: its squared distance to the nearest point of the segment is at most
/// `radius * radius`. With `a == b` the segment is the point `a`.
pub open spec fn in_stroke(px: int, py: int, a: CanvasPosition, b: CanvasPosition, radius: int) -> bool {
    let dx = b.x - a.x;
    let dy = b.y - a.y;
    let wx = px - a.x;
    let wy = py - a.y;
    let len2 = dx * dx + dy * dy;
    let dot = wx * dx + wy * dy;
    if dot <= 0 {
        // nearest point is a
        wx * wx + wy * wy <= radius * radius
    } else if dot >= len2 {
        // nearest point is b
        (px - b.x) * (px - b.x) + (py - b.y) * (py - b.y) <= radius * radius
    } else {
        // nearest point is inside the segment: distance is |w x d| / |d|
        let cross = wx * dy - wy * dx;
        cross * cross <= radius * radius * len2
    }
}

/// What the drawing kernel is handed each dispatch.
#[derive(Debug, Clone, Copy, PartialEq, Eq, Structural)]
pub struct DrawingPushConstants {
    pub draw_start: CanvasPosition,
    pub draw_end: CanvasPosition,
    pub draw_radius: u16,
}

impl DrawingPushConstants {
    pub fn new(draw_start: CanvasPosition, draw_end: CanvasPosition, draw_radius: u16) -> (r: Self)
        ensures
            r.draw_start == draw_start,
            r.draw_end == draw_end,
            r.draw_radius == draw_radius,
    {
        DrawingPushConstants { draw_start, draw_end, draw_radius }
    }

    /// Whether the stroke these constants describe covers cell `(x, y)`.
    pub open spec fn covers(self, x: int, y: int) -> bool {
        in_stroke(x, y, self.draw_start, self.draw_end, self.draw_radius as int)
    }
}

/// Executable form of `in_stroke` for a cell of a grid.
pub fn stroke_covers(px: u32, py: u32, c: &DrawingPushConstants) -> (r: bool)
    requires
        px < MAX_GRID_DIMENSION,
        py < MAX_GRID_DIMENSION,
    ensures
        r == c.covers(px as int, py as int),
{
    let ax = c.draw_start.x as i128;
    let ay = c.draw_start.y as i128;
    let bx = c.draw_end.x as i128;
    let by = c.draw_end.y as i128;
    let radius = c.draw_radius as i128;
    let dx = bx - ax;
    let dy = by - ay;
    let wx = px as i128 - ax;
    let wy = py as i128 - ay;
    assert(-0x20000 < dx < 0x20000 && -0x20000 < dy < 0x20000);
    assert(-0x20000 < wx < 0x20000 && -0x20000 < wy < 0x20000);
    proof {
        lemma_products_fit(dx as int, dy as int, wx as int, wy as int, radius as int);
    }
    let len2 = dx * dx + dy * dy;
    let dot = wx * dx + wy * dy;
    let r2 = radius * radius;
    if dot <= 0 {
        wx * wx + wy * wy <= r2
    } else if dot >= len2 {
        let ex = px as i128 - bx;
        let ey = py as i128 - by;
        assert(-0x20000 < ex < 0x20000 && -0x20000 < ey < 0x20000);
        proof {
            lemma_products_fit(ex as int, ey as int, ex as int, ey as int, radius as int);
        }
        ex * ex + ey * ey <= r2
    } else {
        let cross = wx * dy - wy * dx;
        proof {
            lemma_square_fits(cross as int, r2 as int, len2 as int);
        }
        cross * cross <= r2 * len2
    }
}

proof fn lemma_products_fit(dx: int, dy: int, wx: int, wy: int, r: int)
    requires
        -0x20000 < dx < 0x20000,
        -0x20000 < dy < 0x20000,
        -0x20000 < wx < 0x20000,
        -0x20000 < wy < 0x20000,
        0 <= r < 0x10000,
    ensures
        0 <= dx * dx < 0x4_0000_0000,
        0 <= dy * dy < 0x4_0000_0000,
        0 <= wx * wx < 0x4_0000_0000,
        0 <= wy * wy < 0x4_0000_0000,
        -0x4_0000_0000 < wx * dx < 0x4_0000_0000,
        -0x4_0000_0000 < wy * dy < 0x4_0000_0000,
        -0x4_0000_0000 < wx * dy < 0x4_0000_0000,
        -0x4_0000_0000 < wy * dx < 0x4_0000_0000,
        0 <= r * r < 0x1_0000_0000,
{
    assert(0 <= dx * dx < 0x4_0000_0000) by (nonlinear_arith)
        requires -0x20000 < dx < 0x20000;
    assert(0 <= dy * dy < 0x4_0000_0000) by (nonlinear_arith)
        requires -0x20000 < dy < 0x20000;
    assert(0 <= wx * wx < 0x4_0000_0000) by (nonlinear_arith)
        requires -0x20000 < wx < 0x20000;
    assert(0 <= wy * wy < 0x4_0000_0000) by (nonlinear_arith)
        requires -0x20000 < wy < 0x20000;
    assert(-0x4_0000_0000 < wx * dx < 0x4_0000_0000) by (nonlinear_arith)
        requires -0x20000 < wx < 0x20000, -0x20000 < dx < 0x20000;
    assert(-0x4_0000_0000 < wy * dy < 0x4_0000_0000) by (nonlinear_arith)
        requires -0x20000 < wy < 0x20000, -0x20000 < dy < 0x20000;
    assert(-0x4_0000_0000 < wx * dy < 0x4_0000_0000) by (nonlinear_arith)
        requires -0x20000 < wx < 0x20000, -0x20000 < dy < 0x20000;
    assert(-0x4_0000_0000 < wy * dx < 0x4_0000_0000) by (nonlinear_arith)
        requires -0x20000 < wy < 0x20000, -0x20000 < dx < 0x20000;
    assert(0 <= r * r < 0x1_0000_0000) by (nonlinear_arith)
        requires 0 <= r < 0x10000;
}

proof fn lemma_square_fits(cross: int, r2: int, len2: int)
    requires
        -0x8_0000_0000 < cross < 0x8_0000_0000,
        0 <= r2 < 0x1_0000_0000,
        0 <= len2 < 0x8_0000_0000,
    ensures
        0 <= cross * cross < 0x40_0000_0000_0000_0000,
        0 <= r2 * len2 < 0x8_0000_0000_0000_0000,
{
    assert(0 <= cross * cross < 0x40_0000_0000_0000_0000) by (nonlinear_arith)
        requires -0x8_0000_0000 < cross < 0x8_0000_0000;
    assert(0 <= r2 * len2 < 0x8_0000_0000_0000_0000) by (nonlinear_arith)
        requires 0 <= r2 < 0x1_0000_0000, 0 <= len2 < 0x8_0000_0000;
}

/// Contents of a cell buffer after the stroke `c` is stamped on it: every
/// covered cell is filled, every other keeps its state.
pub open spec fn stamped(cells: Seq<u32>, width: int, c: DrawingPushConstants) -> Seq<u32> {
    Seq::new(cells.len(), |i: int| if c.covers(i % width, i / width) { CELL_FILLED } else { cells[i] })
}

/// Stamps the stroke `c` into `cells`, a buffer of the grid `size` laid out
/// row by row.
pub fn stamp_stroke(cells: &mut Vec<u32>, size: GridSize, c: &DrawingPushConstants)
    requires
        size.wf(),
        old(cells)@.len() == size.cells(),
    ensures
        final(cells)@ == stamped(old(cells)@, size.width as int, *c),
{
    let n = size.cell_count();
    let w = size.width as usize;
    let mut i: usize = 0;
    while i < n
        invariant
            size.wf(),
            n == size.cells(),
            w == size.width,
            0 <= i <= n,
            cells@.len() == n,
            old(cells)@.len() == n,
            forall|j: int| 0 <= j < i ==> cells@[j] == stamped(old(cells)@, w as int, *c)[j],
            forall|j: int| i <= j < n ==> cells@[j] == old(cells)@[j],
        decreases n - i,
    {
        assert(i / w < size.height) by (nonlinear_arith)
            requires
                i < n,
                n == size.width * size.height,
                w == size.width,
                w > 0,
        ;
        let x = (i % w) as u32;
        let y = (i / w) as u32;
        let covered = stroke_covers(x, y, c);
        if covered {
            cells.set(i, CELL_FILLED);
        }
        assert(stamped(old(cells)@, w as int, *c)[i as int] == if covered {
            CELL_FILLED
        } else {
            old(cells)@[i as int]
        });
        i = i + 1;
    }
    assert(cells@ =~= stamped(old(cells)@, w as int, *c));
}

/// One dispatch of the drawing kernel: the buffer it writes and what it is
/// handed.
#[derive(Debug, Clone, Copy, PartialEq, Eq, Structural)]
pub struct DrawingDispatch {
    pub buffer: usize,
    pub constants: DrawingPushConstants,
}

/// Marker of the drawing stage's place in the execution graph.
#[derive(Debug, Clone, Copy, PartialEq, Eq, Hash, Structural)]
pub struct DrawingLabel;

/// Readiness of the drawing kernel.
#[derive(Debug, Clone, Copy, PartialEq, Eq, Structural)]
pub enum DrawingState {
    Loading,
    Update,
}

/// The state after one poll: `Loading` moves on once the kernel has
/// compiled; `Update` stays.
pub open spec fn drawing_advance(state: DrawingState, compiled: bool) -> DrawingState {
    match state {
        DrawingState::Loading => if compiled { DrawingState::Update } else { DrawingState::Loading },
        DrawingState::Update => DrawingState::Update,
    }
}

/// The drawing stage's node in the execution graph.
#[derive(Debug, Clone, Copy, PartialEq, Eq, Structural)]
pub struct DrawingNode {
    pub state: DrawingState,
}

/// What the drawing stage dispatches this frame, if anything: with the
/// kernel ready and the user drawing, a stamp of the stroke from the current
/// to the previous cursor position into the destination of the update step
/// numbered `frame`.
pub open spec fn drawing_plan(state: DrawingState, params: DrawingParams, frame: u64) -> Option<DrawingDispatch> {
    if state == DrawingState::Update && params.is_drawing {
        Some(DrawingDispatch {
            buffer: destination_of(frame) as usize,
            constants: DrawingPushConstants {
                draw_start: params.canvas_position,
                draw_end: params.previous_canvas_position,
                draw_radius: BRUSH_RADIUS,
            },
        })
    } else {
        None
    }
}

impl Default for DrawingNode {
    fn default() -> (r: Self)
        ensures
            r.state == DrawingState::Loading,
    {
        DrawingNode { state: DrawingState::Loading }
    }
}

impl DrawingNode {
    /// Polls the kernel's compilation once, before this frame's dispatch.
    pub fn update(&mut self, compiled: bool)
        ensures
            final(self).state == drawing_advance(old(self).state, compiled),
    {
        if compiled {
            self.state = DrawingState::Update;
        }
    }

    /// Decides this frame's dispatch, for the counter value `frame` that the
    /// update step will use as it stands before this frame's increment.
    pub fn run(&self, params: &DrawingParams, frame: u64) -> (r: Option<DrawingDispatch>)
        ensures
            r == drawing_plan(self.state, *params, frame),
    {
        if self.state == DrawingState::Update && params.is_drawing {
            let roles = frame_roles(frame);
            Some(DrawingDispatch {
                buffer: roles.destination,
                constants: DrawingPushConstants::new(
                    params.canvas_position,
                    params.previous_canvas_position,
                    BRUSH_RADIUS,
                ),
            })
        } else {
            None
        }
    }
}

} // verus!
