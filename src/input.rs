//! Per-frame drawing input: the cursor in canvas space and whether the user is
//! painting.
use vstd::prelude::*;

verus! {

/// A cursor position in canvas space: grid cells, origin at the grid's
/// corner, y growing with the row index. The grid is at most
/// `MAX_GRID_DIMENSION` cells a side, so every position that can touch it fits.
#[derive(Debug, Clone, Copy, PartialEq, Eq, Structural)]
pub struct CanvasPosition {
    pub x: i16,
    pub y: i16,
}

/// A mouse button, as far as drawing cares.
#[derive(Debug, Clone, Copy, PartialEq, Eq, Structural)]
pub enum MouseButton {
    Left,
    Other,
}

/// One press or release of a mouse button.
#[derive(Debug, Clone, Copy, PartialEq, Eq, Structural)]
pub struct MouseButtonInput {
    pub button: MouseButton,
    pub pressed: bool,
}

/// What the drawing stage reads each frame.
#[derive(Debug, Clone, Copy, PartialEq, Eq, Structural)]
pub struct DrawingParams {
    pub canvas_position: CanvasPosition,
    pub is_drawing: bool,
    pub previous_canvas_position: CanvasPosition,
}

/// Whether the user is drawing after `events`, starting from `drawing`: the
/// last event of the left button decides, and without one nothing changes.
pub open spec fn drawing_after(drawing: bool, events: Seq<MouseButtonInput>) -> bool
    decreases events.len(),
{
    if events.len() == 0 {
        drawing
    } else {
        let last = events.last();
        if last.button == MouseButton::Left {
            last.pressed
        } else {
            drawing_after(drawing, events.drop_last())
        }
    }
}

impl DrawingParams {
    /// Parameters before any input: not drawing, both positions at the origin.
    pub fn new() -> (r: DrawingParams)
        ensures
            !r.is_drawing,
            r.canvas_position == (CanvasPosition { x: 0, y: 0 }),
            r.previous_canvas_position == r.canvas_position,
    {
        let origin = CanvasPosition { x: 0, y: 0 };
        DrawingParams { canvas_position: origin, is_drawing: false, previous_canvas_position: origin }
    }
}

/// Takes one frame of input: the button events in the order they came, and
/// the cursor in canvas space if it is over the view. A known cursor becomes
/// the current position and the old current one the previous.
pub fn update_input_state(
    input_state: &mut DrawingParams,
    events: &Vec<MouseButtonInput>,
    cursor: Option<CanvasPosition>,
)
    ensures
        final(input_state).is_drawing == drawing_after(old(input_state).is_drawing, events@),
        cursor matches Some(c) ==> final(input_state).canvas_position == c
            && final(input_state).previous_canvas_position == old(input_state).canvas_position,
        cursor is None ==> final(input_state).canvas_position == old(input_state).canvas_position
            && final(input_state).previous_canvas_position == old(input_state).previous_canvas_position,
{
    let mut i: usize = 0;
    while i < events.len()
        invariant
            0 <= i <= events@.len(),
            input_state.is_drawing == drawing_after(old(input_state).is_drawing, events@.take(i as int)),
            input_state.canvas_position == old(input_state).canvas_position,
            input_state.previous_canvas_position == old(input_state).previous_canvas_position,
        decreases events@.len() - i,
    {
        let event = events[i];
        proof {
            assert(events@.take(i as int + 1).drop_last() =~= events@.take(i as int));
        }
        if event.button == MouseButton::Left {
            input_state.is_drawing = event.pressed;
        }
        i = i + 1;
    }
    assert(events@.take(events@.len() as int) =~= events@);
    if let Some(c) = cursor {
        input_state.previous_canvas_position = input_state.canvas_position;
        input_state.canvas_position = c;
    }
}

} // verus!
