//! The three compute stages and the fixed graph that orders them, and the
//! per-frame step that polls their readiness, moves the frame counter and
//! decides each stage's dispatch.
use vstd::prelude::*;

pub mod cellular_automata;
pub mod colour;
pub mod drawing;

use crate::buffer::next_frame;
use crate::input::DrawingParams;
use cellular_automata::{
    automata_advance, automata_plan, AutomataDispatch, CellularAutomataNode, CellularAutomataState,
};
use colour::{colour_advance, colour_plan, ColourDispatch, ColourNode, ColourState};
use drawing::{drawing_advance, drawing_plan, DrawingDispatch, DrawingNode, DrawingState};

verus! {

/// A node of the render graph.
#[derive(Debug, Clone, Copy, PartialEq, Eq, Hash, Structural)]
pub enum StageLabel {
    Drawing,
    CellularAutomata,
    Colour,
    /// Presentation of the display texture by the camera.
    CameraDriver,
}

/// The order in which every frame runs the stages.
pub open spec fn graph_order() -> Seq<StageLabel> {
    seq![StageLabel::Drawing, StageLabel::CellularAutomata, StageLabel::Colour, StageLabel::CameraDriver]
}

/// Owner of the execution graph: user drawing, then the automata step, then
/// colouring, then presentation.
#[derive(Debug, Clone, Copy, PartialEq, Eq, Structural)]
pub struct PipelinesPlugin;

impl PipelinesPlugin {
    /// The chain of render-graph edges, as the sequence of nodes it links.
    pub fn render_graph_order(&self) -> (r: Vec<StageLabel>)
        ensures
            r@ == graph_order(),
    {
        let mut order: Vec<StageLabel> = Vec::new();
        order.push(StageLabel::Drawing);
        order.push(StageLabel::CellularAutomata);
        order.push(StageLabel::Colour);
        order.push(StageLabel::CameraDriver);
        order
    }
}

/// Which kernels have finished compiling, as polled at the start of a frame.
#[derive(Debug, Clone, Copy, PartialEq, Eq, Structural)]
pub struct CompileStatus {
    pub drawing: bool,
    pub init: bool,
    pub update: bool,
    pub colour: bool,
}

/// Every dispatch of one frame, in graph order.
#[derive(Debug, Clone, Copy, PartialEq, Eq, Structural)]
pub struct FramePlan {
    pub drawing: Option<DrawingDispatch>,
    pub automata: AutomataDispatch,
    pub colour: Option<ColourDispatch>,
}

/// The stage nodes and the frame counter: the number of update steps
/// dispatched so far, wrapping at `u64::MAX`.
#[derive(Debug, Clone, Copy, PartialEq, Eq, Structural)]
pub struct FrameScheduler {
    pub drawing: DrawingNode,
    pub automata: CellularAutomataNode,
    pub colour: ColourNode,
    pub frame_number: u64,
}

/// The scheduler after one frame with compile status `compiled`.
pub open spec fn scheduler_after(s: FrameScheduler, compiled: CompileStatus) -> FrameScheduler {
    let automata = automata_advance(s.automata.state, compiled.init, compiled.update);
    FrameScheduler {
        drawing: DrawingNode { state: drawing_advance(s.drawing.state, compiled.drawing) },
        automata: CellularAutomataNode { state: automata },
        colour: ColourNode { state: colour_advance(s.colour.state, compiled.colour) },
        frame_number: if automata == CellularAutomataState::Update {
            next_frame(s.frame_number)
        } else {
            s.frame_number
        },
    }
}

/// The dispatches of the frame that takes `s` to `scheduler_after(s,
/// compiled)`. Drawing binds with the counter as it stands; the counter
/// then moves on if the automata stage steps, and the automata and colour
/// stages bind with the new value. So drawing writes the buffer that the
/// step reads, and colouring reads the buffer that the step wrote.
pub open spec fn frame_plan(s: FrameScheduler, compiled: CompileStatus, params: DrawingParams) -> FramePlan {
    let t = scheduler_after(s, compiled);
    FramePlan {
        drawing: drawing_plan(t.drawing.state, params, s.frame_number),
        automata: automata_plan(t.automata.state, t.frame_number),
        colour: colour_plan(t.colour.state, t.frame_number),
    }
}

impl FrameScheduler {
    /// A scheduler before any frame: every stage loading, no step taken.
    pub fn new() -> (r: FrameScheduler)
        ensures
            r.drawing.state == DrawingState::Loading,
            r.automata.state == CellularAutomataState::Loading,
            r.colour.state == ColourState::Loading,
            r.frame_number == 0,
    {
        FrameScheduler {
            drawing: DrawingNode::default(),
            automata: CellularAutomataNode::default(),
            colour: ColourNode::default(),
            frame_number: 0,
        }
    }

    /// Runs one frame: polls every stage's readiness, then decides the
    /// dispatch of each stage in graph order, moving the counter on exactly
    /// when the automata stage steps.
    pub fn step(&mut self, compiled: CompileStatus, params: &DrawingParams) -> (r: FramePlan)
        ensures
            *final(self) == scheduler_after(*old(self), compiled),
            r == frame_plan(*old(self), compiled, *params),
    {
        self.drawing.update(compiled.drawing);
        self.automata.update(compiled.init, compiled.update);
        self.colour.update(compiled.colour);

        let drawing = self.drawing.run(params, self.frame_number);
        if self.automata.steps() {
            self.frame_number = self.frame_number.wrapping_add(1);
        }
        let automata = self.automata.run(self.frame_number);
        let colour = self.colour.run(self.frame_number);
        FramePlan { drawing, automata, colour }
    }
}

/// A stage's readiness never goes back: a ready stage stays ready, and a
/// stage past loading never loads again, whatever a poll reports.
pub proof fn lemma_readiness_monotonic(s: FrameScheduler, compiled: CompileStatus)
    ensures
        s.drawing.state == DrawingState::Update ==> scheduler_after(s, compiled).drawing.state
            == DrawingState::Update,
        s.colour.state == ColourState::Update ==> scheduler_after(s, compiled).colour.state
            == ColourState::Update,
        s.automata.state == CellularAutomataState::Update ==> scheduler_after(s, compiled).automata.state
            == CellularAutomataState::Update,
        s.automata.state != CellularAutomataState::Loading ==> scheduler_after(s, compiled).automata.state
            != CellularAutomataState::Loading,
{
}

/// Within a frame all stages agree on the buffers: drawing writes the buffer
/// that the update step reads, which the step before wrote; colouring reads
/// the buffer that the step, or the init kernel, wrote; and no step reads
/// and writes one buffer.
pub proof fn lemma_frame_roles_agree(s: FrameScheduler, compiled: CompileStatus, params: DrawingParams)
    ensures
        ({
            let p = frame_plan(s, compiled, params);
            &&& (p.automata matches AutomataDispatch::Update { roles } ==> (p.drawing matches Some(d)
                ==> d.buffer == roles.source))
            &&& (p.automata matches AutomataDispatch::Update { roles } ==> (p.colour matches Some(c)
                ==> c.buffer == roles.destination))
            &&& (p.automata matches AutomataDispatch::Init { buffer } ==> (p.colour matches Some(c)
                ==> c.buffer == buffer))
            &&& (p.automata matches AutomataDispatch::Init { buffer } ==> (p.drawing matches Some(d)
                ==> d.buffer == buffer))
            &&& (p.automata matches AutomataDispatch::Update { roles } ==> roles.source != roles.destination)
        }),
{
}

/// Update steps of consecutive frames alternate the buffers: each step reads
/// the buffer that the step of the frame before wrote.
pub proof fn lemma_consecutive_steps_alternate(
    s: FrameScheduler,
    first: CompileStatus,
    second: CompileStatus,
    params1: DrawingParams,
    params2: DrawingParams,
)
    ensures
        ({
            let p1 = frame_plan(s, first, params1);
            let p2 = frame_plan(scheduler_after(s, first), second, params2);
            p1.automata matches AutomataDispatch::Update { roles: r1 } ==> p2.automata matches AutomataDispatch::Update {
                roles: r2,
            } && r2.source == r1.destination && r2.destination == r1.source
        }),
{
}

/// The init kernel's dispatch count over the frames that poll `polls`
/// (pairs of init and update compile status) from `state`.
pub open spec fn init_dispatches(state: CellularAutomataState, polls: Seq<(bool, bool)>) -> nat
    decreases polls.len(),
{
    if polls.len() == 0 {
        0
    } else {
        let next = automata_advance(state, polls[0].0, polls[0].1);
        (if next == CellularAutomataState::Init { 1nat } else { 0nat })
            + init_dispatches(next, polls.subrange(1, polls.len() as int))
    }
}

/// The automata stage's state after the frames that poll `polls`.
pub open spec fn automata_after(state: CellularAutomataState, polls: Seq<(bool, bool)>) -> CellularAutomataState
    decreases polls.len(),
{
    if polls.len() == 0 {
        state
    } else {
        automata_after(
            automata_advance(state, polls[0].0, polls[0].1),
            polls.subrange(1, polls.len() as int),
        )
    }
}

/// The init kernel runs exactly once over a simulation's life, however many
/// frames pass between the two kernels' compilation: never while loading,
/// once when it leaves loading, never after; and steady update is reached
/// only through it.
pub proof fn lemma_init_once(polls: Seq<(bool, bool)>)
    ensures
        init_dispatches(CellularAutomataState::Loading, polls) == (if automata_after(
            CellularAutomataState::Loading,
            polls,
        ) == CellularAutomataState::Loading {
            0nat
        } else {
            1nat
        }),
    decreases polls.len(),
{
    if polls.len() > 0 {
        let rest = polls.subrange(1, polls.len() as int);
        let next = automata_advance(CellularAutomataState::Loading, polls[0].0, polls[0].1);
        if next == CellularAutomataState::Loading {
            lemma_init_once(rest);
        } else {
            lemma_no_init_after_loading(next, rest);
        }
    }
}

/// Past loading the init kernel never runs again and loading never returns.
pub proof fn lemma_no_init_after_loading(state: CellularAutomataState, polls: Seq<(bool, bool)>)
    requires
        state != CellularAutomataState::Loading,
    ensures
        init_dispatches(state, polls) == 0,
        automata_after(state, polls) != CellularAutomataState::Loading,
    decreases polls.len(),
{
    if polls.len() > 0 {
        let next = automata_advance(state, polls[0].0, polls[0].1);
        lemma_no_init_after_loading(next, polls.subrange(1, polls.len() as int));
    }
}

} // verus!
