//! What each stage binds: the entries of its bind-group layout, fixed at
//! startup, and the resources of its bind group, rebuilt every frame from that
//! frame's buffer roles.
use vstd::prelude::*;

use crate::buffer::GridSize;
use crate::pipeline::cellular_automata::AutomataDispatch;
use crate::pipeline::colour::ColourDispatch;
use crate::pipeline::drawing::DrawingDispatch;

verus! {

/// Bytes of the size uniform: two `u32` words.
pub const SIZE_UNIFORM_BYTES: u64 = 8;

/// Bytes of one cell state word.
pub const CELL_BYTES: u64 = 4;

/// The kind of resource a layout entry admits, with the least size a buffer
/// bound there must have.
#[derive(Debug, Clone, Copy, PartialEq, Eq, Structural)]
pub enum BindingKind {
    Uniform { min_size: u64 },
    Storage { read_only: bool, min_size: u64 },
    StorageTexture,
}

/// One entry of a bind-group layout; every entry is visible to compute only.
#[derive(Debug, Clone, Copy, PartialEq, Eq, Structural)]
pub struct LayoutEntry {
    pub binding: u32,
    pub kind: BindingKind,
}

/// A resource bound in a bind group.
#[derive(Debug, Clone, Copy, PartialEq, Eq, Structural)]
pub enum BoundResource {
    SizeUniform,
    /// One of the two cell buffers, 0 or 1.
    CellBuffer { index: usize },
    DisplayTexture,
}

/// One entry of a bind group.
#[derive(Debug, Clone, Copy, PartialEq, Eq, Structural)]
pub struct BindingEntry {
    pub binding: u32,
    pub resource: BoundResource,
}

/// Bytes of one cell buffer of the grid `size`.
pub open spec fn cell_buffer_bytes(size: GridSize) -> int {
    size.cells() * CELL_BYTES
}

/// Executable form of `cell_buffer_bytes`.
pub fn cell_buffer_size(size: &GridSize) -> (r: u64)
    requires
        size.wf(),
    ensures
        r == cell_buffer_bytes(*size),
{
    let n = size.cell_count();
    assert(n <= 0x400_0000) by (nonlinear_arith)
        requires
            n == size.width * size.height,
            size.width <= 8192,
            size.height <= 8192,
    ;
    (n as u64) * CELL_BYTES
}

/// Layout of the drawing stage: the size uniform, and the cell buffer that
/// the stroke is stamped into.
pub open spec fn drawing_layout_spec(size: GridSize) -> Seq<LayoutEntry> {
    seq![
        LayoutEntry { binding: 0, kind: BindingKind::Uniform { min_size: SIZE_UNIFORM_BYTES } },
        LayoutEntry {
            binding: 1,
            kind: BindingKind::Storage { read_only: false, min_size: cell_buffer_bytes(size) as u64 },
        },
    ]
}

/// Layout of the automata stage: the size uniform, the buffer read, the
/// buffer written, and the display texture.
pub open spec fn automata_layout_spec(size: GridSize) -> Seq<LayoutEntry> {
    seq![
        LayoutEntry { binding: 0, kind: BindingKind::Uniform { min_size: SIZE_UNIFORM_BYTES } },
        LayoutEntry {
            binding: 1,
            kind: BindingKind::Storage { read_only: true, min_size: cell_buffer_bytes(size) as u64 },
        },
        LayoutEntry {
            binding: 2,
            kind: BindingKind::Storage { read_only: false, min_size: cell_buffer_bytes(size) as u64 },
        },
        LayoutEntry { binding: 3, kind: BindingKind::StorageTexture },
    ]
}

/// Layout of the colour stage: the size uniform, the buffer read, and the
/// display texture.
pub open spec fn colour_layout_spec(size: GridSize) -> Seq<LayoutEntry> {
    seq![
        LayoutEntry { binding: 0, kind: BindingKind::Uniform { min_size: SIZE_UNIFORM_BYTES } },
        LayoutEntry {
            binding: 1,
            kind: BindingKind::Storage { read_only: true, min_size: cell_buffer_bytes(size) as u64 },
        },
        LayoutEntry { binding: 2, kind: BindingKind::StorageTexture },
    ]
}

/// The drawing stage's layout entries.
pub fn drawing_layout(size: &GridSize) -> (r: Vec<LayoutEntry>)
    requires
        size.wf(),
    ensures
        r@ == drawing_layout_spec(*size),
{
    let cells = cell_buffer_size(size);
    let mut v: Vec<LayoutEntry> = Vec::new();
    v.push(LayoutEntry { binding: 0, kind: BindingKind::Uniform { min_size: SIZE_UNIFORM_BYTES } });
    v.push(LayoutEntry { binding: 1, kind: BindingKind::Storage { read_only: false, min_size: cells } });
    v
}

/// The automata stage's layout entries.
pub fn automata_layout(size: &GridSize) -> (r: Vec<LayoutEntry>)
    requires
        size.wf(),
    ensures
        r@ == automata_layout_spec(*size),
{
    let cells = cell_buffer_size(size);
    let mut v: Vec<LayoutEntry> = Vec::new();
    v.push(LayoutEntry { binding: 0, kind: BindingKind::Uniform { min_size: SIZE_UNIFORM_BYTES } });
    v.push(LayoutEntry { binding: 1, kind: BindingKind::Storage { read_only: true, min_size: cells } });
    v.push(LayoutEntry { binding: 2, kind: BindingKind::Storage { read_only: false, min_size: cells } });
    v.push(LayoutEntry { binding: 3, kind: BindingKind::StorageTexture });
    v
}

/// The colour stage's layout entries.
pub fn colour_layout(size: &GridSize) -> (r: Vec<LayoutEntry>)
    requires
        size.wf(),
    ensures
        r@ == colour_layout_spec(*size),
{
    let cells = cell_buffer_size(size);
    let mut v: Vec<LayoutEntry> = Vec::new();
    v.push(LayoutEntry { binding: 0, kind: BindingKind::Uniform { min_size: SIZE_UNIFORM_BYTES } });
    v.push(LayoutEntry { binding: 1, kind: BindingKind::Storage { read_only: true, min_size: cells } });
    v.push(LayoutEntry { binding: 2, kind: BindingKind::StorageTexture });
    v
}

/// Whether `resource` may stand at a layout entry of `kind`.
pub open spec fn fits(kind: BindingKind, resource: BoundResource) -> bool {
    match kind {
        BindingKind::Uniform { .. } => resource == BoundResource::SizeUniform,
        BindingKind::Storage { .. } => resource is CellBuffer,
        BindingKind::StorageTexture => resource == BoundResource::DisplayTexture,
    }
}

/// Whether `group` binds, entry by entry, what `layout` declares.
pub open spec fn matches_layout(group: Seq<BindingEntry>, layout: Seq<LayoutEntry>) -> bool {
    &&& group.len() == layout.len()
    &&& forall|i: int|
        0 <= i < group.len() ==> group[i].binding == layout[i].binding && fits(layout[i].kind, group[i].resource)
}

/// Whether no cell buffer stands twice in `group`, so that no dispatch reads
/// and writes one buffer.
pub open spec fn no_aliasing(group: Seq<BindingEntry>) -> bool {
    forall|i: int, j: int|
        0 <= i < j < group.len() && group[i].resource is CellBuffer ==> group[i].resource != group[j].resource
}

/// The drawing stage's bind group for dispatch `d`.
pub fn queue_drawing_bind_group(d: &DrawingDispatch) -> (r: Vec<BindingEntry>)
    ensures
        r@ == seq![
            BindingEntry { binding: 0, resource: BoundResource::SizeUniform },
            BindingEntry { binding: 1, resource: BoundResource::CellBuffer { index: d.buffer } },
        ],
        forall|size: GridSize| matches_layout(r@, #[trigger] drawing_layout_spec(size)),
        no_aliasing(r@),
{
    let mut v: Vec<BindingEntry> = Vec::new();
    v.push(BindingEntry { binding: 0, resource: BoundResource::SizeUniform });
    v.push(BindingEntry { binding: 1, resource: BoundResource::CellBuffer { index: d.buffer } });
    v
}

/// The automata stage's bind group for dispatch `a`, if it dispatches. The
/// update kernel reads the source and writes the destination; the init
/// kernel writes the buffer it seeds and has the other one as its source.
pub fn queue_bind_group(a: &AutomataDispatch) -> (r: Option<Vec<BindingEntry>>)
    requires
        *a matches AutomataDispatch::Update { roles } ==> roles.source < 2 && roles.destination < 2
            && roles.source != roles.destination,
        *a matches AutomataDispatch::Init { buffer } ==> buffer < 2,
    ensures
        *a is Idle <==> r is None,
        *a matches AutomataDispatch::Update { roles } ==> r matches Some(g) && g@ == automata_group(
            roles.source,
            roles.destination,
        ),
        *a matches AutomataDispatch::Init { buffer } ==> r matches Some(g) && g@ == automata_group(
            (1 - buffer) as usize,
            buffer,
        ),
        r matches Some(g) ==> forall|size: GridSize| matches_layout(g@, #[trigger] automata_layout_spec(size)),
        r matches Some(g) ==> no_aliasing(g@),
{
    match *a {
        AutomataDispatch::Idle => None,
        AutomataDispatch::Update { roles } => Some(automata_entries(roles.source, roles.destination)),
        AutomataDispatch::Init { buffer } => Some(automata_entries(1 - buffer, buffer)),
    }
}


/// The automata stage's bind group reading buffer `source` and writing
/// buffer `destination`.
pub open spec fn automata_group(source: usize, destination: usize) -> Seq<BindingEntry> {
    seq![
        BindingEntry { binding: 0, resource: BoundResource::SizeUniform },
        BindingEntry { binding: 1, resource: BoundResource::CellBuffer { index: source } },
        BindingEntry { binding: 2, resource: BoundResource::CellBuffer { index: destination } },
        BindingEntry { binding: 3, resource: BoundResource::DisplayTexture },
    ]
}

fn automata_entries(source: usize, destination: usize) -> (r: Vec<BindingEntry>)
    ensures
        r@ == automata_group(source, destination),
{
    let mut v: Vec<BindingEntry> = Vec::new();
    v.push(BindingEntry { binding: 0, resource: BoundResource::SizeUniform });
    v.push(BindingEntry { binding: 1, resource: BoundResource::CellBuffer { index: source } });
    v.push(BindingEntry { binding: 2, resource: BoundResource::CellBuffer { index: destination } });
    v.push(BindingEntry { binding: 3, resource: BoundResource::DisplayTexture });
    v
}

/// The colour stage's bind group for dispatch `c`.
pub fn queue_colour_bind_group(c: &ColourDispatch) -> (r: Vec<BindingEntry>)
    ensures
        r@ == seq![
            BindingEntry { binding: 0, resource: BoundResource::SizeUniform },
            BindingEntry { binding: 1, resource: BoundResource::CellBuffer { index: c.buffer } },
            BindingEntry { binding: 2, resource: BoundResource::DisplayTexture },
        ],
        forall|size: GridSize| matches_layout(r@, #[trigger] colour_layout_spec(size)),
        no_aliasing(r@),
{
    let mut v: Vec<BindingEntry> = Vec::new();
    v.push(BindingEntry { binding: 0, resource: BoundResource::SizeUniform });
    v.push(BindingEntry { binding: 1, resource: BoundResource::CellBuffer { index: c.buffer } });
    v.push(BindingEntry { binding: 2, resource: BoundResource::DisplayTexture });
    v
}

} // verus!
