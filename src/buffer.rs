//! Grid dimensions, the size uniform, the ping-pong roles of the two cell
//! buffers, and the buffers themselves with what each dispatch does to them.
use vstd::prelude::*;

use crate::pipeline::colour::{coloured, colourise, ColourDispatch};
use crate::pipeline::drawing::{drawing_plan, stamp_stroke, stamped, DrawingDispatch, DrawingNode, CELL_EMPTY};
use crate::input::DrawingParams;
use crate::WORKGROUP_SIZE;

verus! {

/// Largest side of a grid: the 2D texture limit that wgpu guarantees on
/// every backend by default.
pub const MAX_GRID_DIMENSION: u32 = 8192;

/// Why a pair of dimensions cannot make a grid.
#[derive(Debug, Clone, Copy, PartialEq, Eq, Structural)]
pub enum GridError {
    /// A side is zero.
    Empty,
    /// A side exceeds `MAX_GRID_DIMENSION`.
    TooLarge,
    /// A side is not a multiple of `WORKGROUP_SIZE`, so whole workgroups
    /// would not cover the grid exactly.
    NotWorkgroupMultiple,
}

/// Dimensions of the simulation grid; fixed once the grid is made.
#[derive(Debug, Clone, Copy, PartialEq, Eq, Structural)]
pub struct GridSize {
    pub width: u32,
    pub height: u32,
}

/// Whether `width` by `height` is an acceptable grid.
pub open spec fn valid_dimensions(width: int, height: int) -> bool {
    &&& 0 < width <= MAX_GRID_DIMENSION
    &&& 0 < height <= MAX_GRID_DIMENSION
    &&& width % (WORKGROUP_SIZE as int) == 0
    &&& height % (WORKGROUP_SIZE as int) == 0
}

/// The error that `GridSize::new` reports for `width` by `height`, checked
/// in this order: empty, too large, not a workgroup multiple.
pub open spec fn dimension_error(width: int, height: int) -> Option<GridError> {
    if width == 0 || height == 0 {
        Some(GridError::Empty)
    } else if width > MAX_GRID_DIMENSION || height > MAX_GRID_DIMENSION {
        Some(GridError::TooLarge)
    } else if width % (WORKGROUP_SIZE as int) != 0 || height % (WORKGROUP_SIZE as int) != 0 {
        Some(GridError::NotWorkgroupMultiple)
    } else {
        None
    }
}

impl GridSize {
    pub open spec fn wf(self) -> bool {
        valid_dimensions(self.width as int, self.height as int)
    }

    /// Number of cells, and so the length of each cell buffer.
    pub open spec fn cells(self) -> nat {
        (self.width * self.height) as nat
    }

    /// Makes a grid of `width` by `height` cells, or says why it cannot.
    pub fn new(width: u32, height: u32) -> (r: Result<GridSize, GridError>)
        ensures
            dimension_error(width as int, height as int) is None <==> r is Ok,
            r matches Ok(g) ==> g.width == width && g.height == height && g.wf(),
            r matches Err(e) ==> dimension_error(width as int, height as int) == Some(e),
    {
        if width == 0 || height == 0 {
            Err(GridError::Empty)
        } else if width > MAX_GRID_DIMENSION || height > MAX_GRID_DIMENSION {
            Err(GridError::TooLarge)
        } else if width % WORKGROUP_SIZE != 0 || height % WORKGROUP_SIZE != 0 {
            Err(GridError::NotWorkgroupMultiple)
        } else {
            Ok(GridSize { width, height })
        }
    }

    /// Number of cells in the grid.
    pub fn cell_count(&self) -> (r: usize)
        requires
            self.wf(),
        ensures
            r == self.cells(),
    {
        assert(self.width * self.height <= MAX_GRID_DIMENSION * MAX_GRID_DIMENSION) by (nonlinear_arith)
            requires
                self.width <= MAX_GRID_DIMENSION,
                self.height <= MAX_GRID_DIMENSION,
        ;
        (self.width as usize) * (self.height as usize)
    }

    /// Number of workgroups along each axis that a kernel covering the whole
    /// grid is dispatched with.
    pub fn workgroups(&self) -> (r: (u32, u32))
        requires
            self.wf(),
        ensures
            r.0 * WORKGROUP_SIZE == self.width,
            r.1 * WORKGROUP_SIZE == self.height,
    {
        (self.width / WORKGROUP_SIZE, self.height / WORKGROUP_SIZE)
    }

    /// The words of the size uniform that every kernel reads: width, then
    /// height.
    pub fn uniform_words(&self) -> (r: Vec<u32>)
        ensures
            r@ == seq![self.width, self.height],
    {
        let mut v: Vec<u32> = Vec::new();
        v.push(self.width);
        v.push(self.height);
        v
    }
}

/// Index, 0 or 1, of the buffer that the update step numbered `frame` reads.
pub open spec fn source_of(frame: u64) -> int {
    (frame % 2) as int
}

/// Index, 0 or 1, of the buffer that the update step numbered `frame`
/// writes. It is the other buffer than the one read, and the one that the
/// next step reads.
pub open spec fn destination_of(frame: u64) -> int {
    ((frame as int + 1) % 2) as int
}

/// The two buffer roles of one step.
#[derive(Debug, Clone, Copy, PartialEq, Eq, Structural)]
pub struct FrameRoles {
    pub source: usize,
    pub destination: usize,
}

/// The one place where buffer roles are derived from the frame counter;
/// every stage takes its buffer from here.
pub fn frame_roles(frame: u64) -> (r: FrameRoles)
    ensures
        r.source == source_of(frame),
        r.destination == destination_of(frame),
        r.source != r.destination,
        r.source < 2 && r.destination < 2,
{
    if frame % 2 == 0 {
        FrameRoles { source: 0, destination: 1 }
    } else {
        FrameRoles { source: 1, destination: 0 }
    }
}

/// The counter after one more completed update. It wraps at `u64::MAX`,
/// which keeps the parity alternating since 2^64 is even.
pub open spec fn next_frame(frame: u64) -> u64 {
    if frame == u64::MAX { 0 } else { (frame + 1) as u64 }
}

/// Roles alternate: each step reads the buffer that the step before wrote,
/// so the source at frame n is the destination at frame n - 1, and the
/// roles go A, B, A, B, ... by parity.
pub proof fn lemma_roles_alternate(frame: u64)
    ensures
        source_of(next_frame(frame)) == destination_of(frame),
        destination_of(next_frame(frame)) == source_of(frame),
        source_of(frame) != destination_of(frame),
{
}

/// The two cell buffers of a grid, each `size.cells()` state words laid out
/// row by row. Which one a stage reads or writes is decided by the frame
/// plan; the buffers are never reallocated.
pub struct CellularAutomataBuffers {
    pub size: GridSize,
    pub first: Vec<u32>,
    pub second: Vec<u32>,
}

/// Contents of the two buffers, as a pair.
pub type BufferContents = (Seq<u32>, Seq<u32>);

/// `contents` with buffer `which` replaced by `cells`.
pub open spec fn with_buffer(contents: BufferContents, which: int, cells: Seq<u32>) -> BufferContents {
    if which == 0 {
        (cells, contents.1)
    } else {
        (contents.0, cells)
    }
}

/// Buffer `which` of `contents`.
pub open spec fn buffer_of(contents: BufferContents, which: int) -> Seq<u32> {
    if which == 0 {
        contents.0
    } else {
        contents.1
    }
}

/// What a drawing dispatch, or its absence, leaves in the buffers.
pub open spec fn drawing_effect(contents: BufferContents, width: int, d: Option<DrawingDispatch>) -> BufferContents {
    match d {
        Some(d) => with_buffer(contents, d.buffer as int, stamped(buffer_of(contents, d.buffer as int), width, d.constants)),
        None => contents,
    }
}

/// What a colour dispatch, or its absence, leaves in a texture that held
/// `texture`.
pub open spec fn colour_effect(contents: BufferContents, palette: Seq<u32>, d: Option<ColourDispatch>, texture: Seq<u32>) -> Seq<u32> {
    match d {
        Some(d) => coloured(palette, buffer_of(contents, d.buffer as int)),
        None => texture,
    }
}

impl CellularAutomataBuffers {
    pub open spec fn wf(&self) -> bool {
        &&& self.size.wf()
        &&& self.first@.len() == self.size.cells()
        &&& self.second@.len() == self.size.cells()
    }

    pub open spec fn contents(&self) -> BufferContents {
        (self.first@, self.second@)
    }

    /// Two buffers for the grid `size`, every cell empty.
    pub fn new(size: GridSize) -> (r: CellularAutomataBuffers)
        requires
            size.wf(),
        ensures
            r.wf(),
            r.size == size,
            r.first@ == Seq::new(size.cells(), |i: int| CELL_EMPTY),
            r.second@ == r.first@,
    {
        let n = size.cell_count();
        let first = filled(n, CELL_EMPTY);
        let second = filled(n, CELL_EMPTY);
        CellularAutomataBuffers { size, first, second }
    }

    /// Carries out the drawing stage's dispatch, if there is one.
    pub fn execute_drawing(&mut self, d: Option<DrawingDispatch>)
        requires
            old(self).wf(),
            d matches Some(d) ==> d.buffer < 2,
        ensures
            final(self).wf(),
            final(self).size == old(self).size,
            final(self).contents() == drawing_effect(old(self).contents(), old(self).size.width as int, d),
    {
        if let Some(d) = d {
            if d.buffer == 0 {
                stamp_stroke(&mut self.first, self.size, &d.constants);
            } else {
                stamp_stroke(&mut self.second, self.size, &d.constants);
            }
        }
    }

    /// Carries out the init kernel's seeding of buffer `which` with the state
    /// `seed` in every cell.
    pub fn execute_init(&mut self, which: usize, seed: u32)
        requires
            old(self).wf(),
            which < 2,
        ensures
            final(self).wf(),
            final(self).size == old(self).size,
            final(self).contents() == with_buffer(
                old(self).contents(),
                which as int,
                Seq::new(old(self).size.cells(), |i: int| seed),
            ),
    {
        let n = self.size.cell_count();
        if which == 0 {
            self.first = filled(n, seed);
        } else {
            self.second = filled(n, seed);
        }
    }

    /// Carries out the colour stage's dispatch, if there is one, on `texture`.
    pub fn execute_colour(&self, d: Option<ColourDispatch>, palette: &Vec<u32>, texture: &mut Vec<u32>)
        requires
            self.wf(),
            old(texture)@.len() == self.size.cells(),
            d matches Some(d) ==> d.buffer < 2,
        ensures
            final(texture)@ == colour_effect(self.contents(), palette@, d, old(texture)@),
    {
        if let Some(d) = d {
            if d.buffer == 0 {
                colourise(&self.first, palette, texture);
            } else {
                colourise(&self.second, palette, texture);
            }
        }
    }
}

/// A buffer of `n` cells, each holding `state`.
pub fn filled(n: usize, state: u32) -> (r: Vec<u32>)
    ensures
        r@ == Seq::new(n as nat, |i: int| state),
{
    let mut v: Vec<u32> = Vec::new();
    let mut i: usize = 0;
    while i < n
        invariant
            0 <= i <= n,
            v@ == Seq::new(i as nat, |j: int| state),
        decreases n - i,
    {
        v.push(state);
        i = i + 1;
        assert(v@ =~= Seq::new(i as nat, |j: int| state));
    }
    v
}

/// With the user not drawing, the drawing stage leaves both buffers exactly
/// as they were, whatever its readiness and the frame.
pub proof fn lemma_drawing_noop(
    node: DrawingNode,
    params: DrawingParams,
    frame: u64,
    contents: BufferContents,
    width: int,
)
    requires
        !params.is_drawing,
    ensures
        drawing_effect(contents, width, drawing_plan(node.state, params, frame)) == contents,
{
}

/// Colouring twice from the same buffers, with no update step between,
/// leaves the texture as colouring once did: the result does not depend on
/// what the texture held.
pub proof fn lemma_colour_idempotent(
    contents: BufferContents,
    palette: Seq<u32>,
    d: Option<ColourDispatch>,
    texture: Seq<u32>,
)
    ensures
        colour_effect(contents, palette, d, colour_effect(contents, palette, d, texture))
            == colour_effect(contents, palette, d, texture),
{
}

} // verus!
