//! The automata stage: seeds the grid once with the init kernel, then runs
//! the update kernel every frame, reading one buffer and writing the other.
use vstd::prelude::*;

use crate::buffer::{destination_of, frame_roles, source_of, FrameRoles};

verus! {

/// Readiness of the automata stage, which owns two kernels.
#[derive(Debug, Clone, Copy, PartialEq, Eq, Structural)]
pub enum CellularAutomataState {
    /// The init kernel has not compiled yet.
    Loading,
    /// The init kernel has compiled; this frame runs it, once.
    Init,
    /// The grid is seeded; the update kernel has not compiled yet.
    Seeded,
    /// Both kernels are ready; every frame runs an update step.
    Update,
}

/// The state after one poll of the two kernels' compilation.
pub open spec fn automata_advance(state: CellularAutomataState, init_compiled: bool, update_compiled: bool) -> CellularAutomataState {
    match state {
        CellularAutomataState::Loading => if init_compiled {
            CellularAutomataState::Init
        } else {
            CellularAutomataState::Loading
        },
        CellularAutomataState::Init | CellularAutomataState::Seeded => if update_compiled {
            CellularAutomataState::Update
        } else {
            CellularAutomataState::Seeded
        },
        CellularAutomataState::Update => CellularAutomataState::Update,
    }
}

/// What the automata stage dispatches in one frame.
#[derive(Debug, Clone, Copy, PartialEq, Eq, Structural)]
pub enum AutomataDispatch {
    /// Nothing.
    Idle,
    /// The init kernel over the whole grid, seeding `buffer`.
    Init { buffer: usize },
    /// One update step from `roles.source` into `roles.destination`.
    Update { roles: FrameRoles },
}

/// The dispatch of a stage in `state`, where `frame` counts the update steps
/// including this frame's own. Init seeds the buffer that the first update
/// step reads.
pub open spec fn automata_plan(state: CellularAutomataState, frame: u64) -> AutomataDispatch {
    match state {
        CellularAutomataState::Init => AutomataDispatch::Init { buffer: destination_of(frame) as usize },
        CellularAutomataState::Update => AutomataDispatch::Update {
            roles: FrameRoles { source: source_of(frame) as usize, destination: destination_of(frame) as usize },
        },
        _ => AutomataDispatch::Idle,
    }
}

/// The automata stage's node in the execution graph.
#[derive(Debug, Clone, Copy, PartialEq, Eq, Structural)]
pub struct CellularAutomataNode {
    pub state: CellularAutomataState,
}

impl Default for CellularAutomataNode {
    fn default() -> (r: Self)
        ensures
            r.state == CellularAutomataState::Loading,
    {
        CellularAutomataNode { state: CellularAutomataState::Loading }
    }
}

impl CellularAutomataNode {
    /// Polls the compilation of the init and the update kernel once, before
    /// this frame's dispatch.
    pub fn update(&mut self, init_compiled: bool, update_compiled: bool)
        ensures
            final(self).state == automata_advance(old(self).state, init_compiled, update_compiled),
    {
        match self.state {
            CellularAutomataState::Loading => {
                if init_compiled {
                    self.state = CellularAutomataState::Init;
                }
            },
            CellularAutomataState::Init | CellularAutomataState::Seeded => {
                if update_compiled {
                    self.state = CellularAutomataState::Update;
                } else {
                    self.state = CellularAutomataState::Seeded;
                }
            },
            CellularAutomataState::Update => {},
        }
    }

    /// Whether this frame runs an update step, so that the frame counter
    /// moves on before the dispatch.
    pub fn steps(&self) -> (r: bool)
        ensures
            r == (self.state == CellularAutomataState::Update),
    {
        self.state == CellularAutomataState::Update
    }

    /// Decides this frame's dispatch; `frame` already counts this frame's
    /// update step, if it makes one.
    pub fn run(&self, frame: u64) -> (r: AutomataDispatch)
        ensures
            r == automata_plan(self.state, frame),
    {
        match self.state {
            CellularAutomataState::Init => {
                let roles = frame_roles(frame);
                AutomataDispatch::Init { buffer: roles.destination }
            },
            CellularAutomataState::Update => AutomataDispatch::Update { roles: frame_roles(frame) },
            _ => AutomataDispatch::Idle,
        }
    }
}

} // verus!
