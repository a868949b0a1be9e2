//! Scheduling core of a GPU falling-sand simulation: the grid and its two
//! ping-pong cell buffers, the per-stage readiness machines, the fixed
//! execution graph and the per-frame plan of which kernel runs on which
//! buffer.
use vstd::prelude::*;

pub mod binding;
pub mod buffer;
pub mod input;
pub mod pipeline;

verus! {

/// Width of the simulation grid, in cells.
pub const SIMULATION_WIDTH: u32 = 1280;

/// Height of the simulation grid, in cells.
pub const SIMULATION_HEIGHT: u32 = 720;

/// Side of the square workgroup that every compute kernel is dispatched in.
pub const WORKGROUP_SIZE: u32 = 8;

} // verus!
