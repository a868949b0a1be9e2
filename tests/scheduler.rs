use falling_sand_game::buffer::{frame_roles, CellularAutomataBuffers, FrameRoles, GridSize};
use falling_sand_game::input::{CanvasPosition, DrawingParams};
use falling_sand_game::pipeline::cellular_automata::{AutomataDispatch, CellularAutomataState};
use falling_sand_game::pipeline::colour::{ColourDispatch, ColourState};
use falling_sand_game::pipeline::drawing::{DrawingState, BRUSH_RADIUS};
use falling_sand_game::pipeline::{CompileStatus, FrameScheduler, PipelinesPlugin, StageLabel};

fn none_compiled() -> CompileStatus {
    CompileStatus { drawing: false, init: false, update: false, colour: false }
}

fn all_compiled() -> CompileStatus {
    CompileStatus { drawing: true, init: true, update: true, colour: true }
}

fn idle_params() -> DrawingParams {
    DrawingParams::new()
}

#[test]
fn graph_runs_drawing_automata_colour_then_camera() {
    let order = PipelinesPlugin.render_graph_order();
    assert_eq!(
        order,
        vec![StageLabel::Drawing, StageLabel::CellularAutomata, StageLabel::Colour, StageLabel::CameraDriver]
    );
}

#[test]
fn loading_frames_dispatch_nothing() {
    let mut s = FrameScheduler::new();
    for _ in 0..5 {
        let plan = s.step(none_compiled(), &idle_params());
        assert_eq!(plan.drawing, None);
        assert_eq!(plan.automata, AutomataDispatch::Idle);
        assert_eq!(plan.colour, None);
    }
    assert_eq!(s.frame_number, 0);
    assert_eq!(s.automata.state, CellularAutomataState::Loading);
}

#[test]
fn scenario_init_then_first_update_reads_seeded_buffer() {
    let size = GridSize::new(16, 8).unwrap();
    let mut buffers = CellularAutomataBuffers::new(size);
    let mut s = FrameScheduler::new();
    // frames 1 and 2: nothing has compiled
    for _ in 0..2 {
        let plan = s.step(none_compiled(), &idle_params());
        assert_eq!(plan.automata, AutomataDispatch::Idle);
    }
    // frame 3: everything compiles, the init kernel seeds the grid
    let plan3 = s.step(all_compiled(), &idle_params());
    let seeded = match plan3.automata {
        AutomataDispatch::Init { buffer } => buffer,
        other => panic!("expected init, got {:?}", other),
    };
    buffers.execute_init(seeded, 7);
    let seeded_cells = if seeded == 0 { &buffers.first } else { &buffers.second };
    assert_eq!(seeded_cells.len(), 128);
    assert!(seeded_cells.iter().all(|&c| c == 7));
    assert_eq!(plan3.colour, Some(ColourDispatch { buffer: seeded }));
    assert_eq!(s.frame_number, 0);
    // frame 4: the first update step reads the seeded buffer
    let plan4 = s.step(all_compiled(), &idle_params());
    match plan4.automata {
        AutomataDispatch::Update { roles } => {
            assert_eq!(roles.source, seeded);
            assert_ne!(roles.destination, seeded);
            assert_eq!(plan4.colour, Some(ColourDispatch { buffer: roles.destination }));
        }
        other => panic!("expected update, got {:?}", other),
    }
    assert_eq!(s.frame_number, 1);
}

#[test]
fn init_runs_once_however_late_update_compiles() {
    let mut s = FrameScheduler::new();
    let mut inits = 0;
    let mut updates = 0;
    for frame in 0..20 {
        let compiled = CompileStatus {
            drawing: true,
            init: frame >= 2,
            update: frame >= 9,
            colour: true,
        };
        let plan = s.step(compiled, &idle_params());
        match plan.automata {
            AutomataDispatch::Init { .. } => {
                assert_eq!(updates, 0);
                inits += 1;
            }
            AutomataDispatch::Update { .. } => updates += 1,
            AutomataDispatch::Idle => assert_eq!(updates, 0),
        }
    }
    assert_eq!(inits, 1);
    assert_eq!(updates, 11);
    assert_eq!(s.frame_number, 11);
}

#[test]
fn seeded_state_waits_for_update_kernel() {
    let mut s = FrameScheduler::new();
    let only_init = CompileStatus { drawing: false, init: true, update: false, colour: false };
    s.step(only_init, &idle_params());
    assert_eq!(s.automata.state, CellularAutomataState::Init);
    let plan = s.step(only_init, &idle_params());
    assert_eq!(s.automata.state, CellularAutomataState::Seeded);
    assert_eq!(plan.automata, AutomataDispatch::Idle);
}

#[test]
fn update_roles_alternate_by_parity() {
    let mut s = FrameScheduler::new();
    s.step(all_compiled(), &idle_params());
    let mut previous: Option<FrameRoles> = None;
    for n in 1..9u64 {
        let plan = s.step(all_compiled(), &idle_params());
        let roles = match plan.automata {
            AutomataDispatch::Update { roles } => roles,
            other => panic!("expected update, got {:?}", other),
        };
        assert_eq!(s.frame_number, n);
        assert_eq!(roles.source, (n % 2) as usize);
        assert_eq!(roles.destination, ((n + 1) % 2) as usize);
        if let Some(p) = previous {
            assert_eq!(roles.source, p.destination);
        }
        previous = Some(roles);
    }
}

#[test]
fn frame_roles_at_the_counter_limit_keep_alternating() {
    let last = frame_roles(u64::MAX);
    let wrapped = frame_roles(u64::MAX.wrapping_add(1));
    assert_eq!(last, FrameRoles { source: 1, destination: 0 });
    assert_eq!(wrapped.source, last.destination);
    let mut s = FrameScheduler::new();
    s.step(all_compiled(), &idle_params());
    s.frame_number = u64::MAX;
    let plan = s.step(all_compiled(), &idle_params());
    assert_eq!(s.frame_number, 0);
    assert_eq!(plan.automata, AutomataDispatch::Update { roles: FrameRoles { source: 0, destination: 1 } });
}

#[test]
fn drawing_writes_the_buffer_the_update_reads() {
    let mut s = FrameScheduler::new();
    s.step(all_compiled(), &idle_params());
    let mut params = DrawingParams::new();
    params.is_drawing = true;
    params.previous_canvas_position = CanvasPosition { x: 2, y: 3 };
    params.canvas_position = CanvasPosition { x: 4, y: 5 };
    for _ in 0..4 {
        let plan = s.step(all_compiled(), &params);
        let d = plan.drawing.expect("drawing dispatch");
        assert_eq!(d.constants.draw_start, CanvasPosition { x: 4, y: 5 });
        assert_eq!(d.constants.draw_end, CanvasPosition { x: 2, y: 3 });
        assert_eq!(d.constants.draw_radius, BRUSH_RADIUS);
        match plan.automata {
            AutomataDispatch::Update { roles } => assert_eq!(d.buffer, roles.source),
            other => panic!("expected update, got {:?}", other),
        }
    }
}

#[test]
fn not_drawing_dispatches_no_stamp() {
    let mut s = FrameScheduler::new();
    for _ in 0..3 {
        let plan = s.step(all_compiled(), &idle_params());
        assert_eq!(plan.drawing, None);
    }
    assert_eq!(s.drawing.state, DrawingState::Update);
}

#[test]
fn readiness_never_regresses() {
    let mut s = FrameScheduler::new();
    s.step(all_compiled(), &idle_params());
    s.step(all_compiled(), &idle_params());
    for _ in 0..3 {
        s.step(none_compiled(), &idle_params());
        assert_eq!(s.drawing.state, DrawingState::Update);
        assert_eq!(s.automata.state, CellularAutomataState::Update);
        assert_eq!(s.colour.state, ColourState::Update);
    }
}
