//! The colour stage: maps each cell's state word to a texel of the display
//! texture.
use vstd::prelude::*;

use crate::buffer::{destination_of, frame_roles};

verus! {

/// Texel written for a state that the palette has no entry for: opaque
/// magenta, packed as RGBA bytes from the high end.
pub const MISSING_COLOUR: u32 = 0xff00ffff;

/// Texel of an empty cell: opaque black, the texture's initial fill.
pub const EMPTY_COLOUR: u32 = 0x000000ff;

/// Texel of a filled cell: sand.
pub const SAND_COLOUR: u32 = 0xc2b280ff;

/// The texel for cell state `state` under `palette`: the palette's entry at
/// that index, or `MISSING_COLOUR` past its end.
pub open spec fn colour_of(palette: Seq<u32>, state: u32) -> u32 {
    if (state as int) < palette.len() {
        palette[state as int]
    } else {
        MISSING_COLOUR
    }
}

/// The texture that `cells` colours to under `palette`, texel by cell.
pub open spec fn coloured(palette: Seq<u32>, cells: Seq<u32>) -> Seq<u32> {
    Seq::new(cells.len(), |i: int| colour_of(palette, cells[i]))
}

/// The palette for the states that the brush and an empty grid hold.
pub fn default_palette() -> (r: Vec<u32>)
    ensures
        r@ == seq![EMPTY_COLOUR, SAND_COLOUR],
{
    let mut p: Vec<u32> = Vec::new();
    p.push(EMPTY_COLOUR);
    p.push(SAND_COLOUR);
    p
}

/// Writes the colour of every cell into `texture`. What the texture held
/// before plays no part.
pub fn colourise(cells: &Vec<u32>, palette: &Vec<u32>, texture: &mut Vec<u32>)
    requires
        old(texture)@.len() == cells@.len(),
    ensures
        final(texture)@ == coloured(palette@, cells@),
{
    let n = cells.len();
    let mut i: usize = 0;
    while i < n
        invariant
            n == cells@.len(),
            texture@.len() == n,
            0 <= i <= n,
            forall|j: int| 0 <= j < i ==> texture@[j] == colour_of(palette@, cells@[j]),
        decreases n - i,
    {
        let state = cells[i];
        let colour = if (state as usize) < palette.len() {
            palette[state as usize]
        } else {
            MISSING_COLOUR
        };
        texture.set(i, colour);
        i = i + 1;
    }
    assert(texture@ =~= coloured(palette@, cells@));
}

/// One dispatch of the colour kernel: the buffer it reads.
#[derive(Debug, Clone, Copy, PartialEq, Eq, Structural)]
pub struct ColourDispatch {
    pub buffer: usize,
}

/// Readiness of the colour kernel.
#[derive(Debug, Clone, Copy, PartialEq, Eq, Structural)]
pub enum ColourState {
    Loading,
    Update,
}

/// The state after one poll: `Loading` moves on once the kernel has
/// compiled; `Update` stays.
pub open spec fn colour_advance(state: ColourState, compiled: bool) -> ColourState {
    match state {
        ColourState::Loading => if compiled { ColourState::Update } else { ColourState::Loading },
        ColourState::Update => ColourState::Update,
    }
}

/// What the colour stage dispatches: once ready, every frame, reading the
/// buffer that the latest update step numbered `frame` wrote.
pub open spec fn colour_plan(state: ColourState, frame: u64) -> Option<ColourDispatch> {
    if state == ColourState::Update {
        Some(ColourDispatch { buffer: destination_of(frame) as usize })
    } else {
        None
    }
}

/// The colour stage's node in the execution graph.
#[derive(Debug, Clone, Copy, PartialEq, Eq, Structural)]
pub struct ColourNode {
    pub state: ColourState,
}

impl Default for ColourNode {
    fn default() -> (r: Self)
        ensures
            r.state == ColourState::Loading,
    {
        ColourNode { state: ColourState::Loading }
    }
}

impl ColourNode {
    /// Polls the kernel's compilation once, before this frame's dispatch.
    pub fn update(&mut self, compiled: bool)
        ensures
            final(self).state == colour_advance(old(self).state, compiled),
    {
        if compiled {
            self.state = ColourState::Update;
        }
    }

    /// Decides this frame's dispatch; `frame` is the counter after this
    /// frame's update step.
    pub fn run(&self, frame: u64) -> (r: Option<ColourDispatch>)
        ensures
            r == colour_plan(self.state, frame),
    {
        if self.state == ColourState::Update {
            Some(ColourDispatch { buffer: frame_roles(frame).destination })
        } else {
            None
        }
    }
}

} // verus!
