use falling_sand_game::buffer::{CellularAutomataBuffers, GridError, GridSize, MAX_GRID_DIMENSION};
use falling_sand_game::input::{CanvasPosition, DrawingParams};
use falling_sand_game::pipeline::colour::{
    colourise, default_palette, ColourDispatch, EMPTY_COLOUR, MISSING_COLOUR, SAND_COLOUR,
};
use falling_sand_game::pipeline::drawing::{
    stamp_stroke, stroke_covers, DrawingDispatch, DrawingNode, DrawingPushConstants, DrawingState, CELL_EMPTY,
    CELL_FILLED,
};
use falling_sand_game::{SIMULATION_HEIGHT, SIMULATION_WIDTH, WORKGROUP_SIZE};

#[test]
fn grid_size_accepts_workgroup_multiples() {
    let g = GridSize::new(SIMULATION_WIDTH, SIMULATION_HEIGHT).unwrap();
    assert_eq!(g.cell_count(), 921_600);
    assert_eq!(g.workgroups(), (160, 90));
    assert_eq!(g.uniform_words(), vec![1280, 720]);
    assert_eq!(WORKGROUP_SIZE, 8);
    let largest = GridSize::new(MAX_GRID_DIMENSION, MAX_GRID_DIMENSION).unwrap();
    assert_eq!(largest.cell_count(), 8192 * 8192);
}

#[test]
fn grid_size_errors() {
    assert_eq!(GridSize::new(0, 8), Err(GridError::Empty));
    assert_eq!(GridSize::new(16, 0), Err(GridError::Empty));
    assert_eq!(GridSize::new(8200, 8), Err(GridError::TooLarge));
    assert_eq!(GridSize::new(16, 12), Err(GridError::NotWorkgroupMultiple));
    assert_eq!(GridSize::new(10, 8), Err(GridError::NotWorkgroupMultiple));
}

#[test]
fn new_buffers_are_empty() {
    let b = CellularAutomataBuffers::new(GridSize::new(16, 8).unwrap());
    assert_eq!(b.first, vec![CELL_EMPTY; 128]);
    assert_eq!(b.second, vec![CELL_EMPTY; 128]);
}

#[test]
fn scenario_stroke_covers_the_swept_row() {
    let size = GridSize::new(16, 8).unwrap();
    let mut buffers = CellularAutomataBuffers::new(size);
    let stroke = DrawingPushConstants::new(CanvasPosition { x: 5, y: 0 }, CanvasPosition { x: 0, y: 0 }, 1);
    buffers.execute_drawing(Some(DrawingDispatch { buffer: 1, constants: stroke }));
    for x in 0..=5usize {
        assert_eq!(buffers.second[x], CELL_FILLED, "cell ({}, 0)", x);
        assert_eq!(buffers.second[16 + x], CELL_FILLED, "cell ({}, 1)", x);
        assert_eq!(buffers.second[32 + x], CELL_EMPTY, "cell ({}, 2)", x);
    }
    assert_eq!(buffers.second[6], CELL_FILLED);
    assert_eq!(buffers.second[7], CELL_EMPTY);
    assert_eq!(buffers.second[16 + 6], CELL_EMPTY);
    assert_eq!(buffers.first, vec![CELL_EMPTY; 128]);
}

#[test]
fn first_drawing_frame_stamps_a_disc() {
    let c = DrawingPushConstants::new(CanvasPosition { x: 8, y: 4 }, CanvasPosition { x: 8, y: 4 }, 2);
    assert!(stroke_covers(8, 4, &c));
    assert!(stroke_covers(10, 4, &c));
    assert!(stroke_covers(9, 5, &c));
    assert!(!stroke_covers(10, 5, &c));
    assert!(!stroke_covers(11, 4, &c));
}

#[test]
fn diagonal_stroke_measures_distance_to_the_segment() {
    let c = DrawingPushConstants::new(CanvasPosition { x: 0, y: 0 }, CanvasPosition { x: 4, y: 4 }, 1);
    assert!(stroke_covers(2, 2, &c));
    assert!(stroke_covers(2, 3, &c));
    assert!(!stroke_covers(1, 3, &c));
    assert!(!stroke_covers(5, 5, &c));
}

#[test]
fn stroke_from_far_off_canvas_crosses_it() {
    let size = GridSize::new(16, 8).unwrap();
    let mut cells = vec![CELL_EMPTY; 128];
    let c = DrawingPushConstants::new(CanvasPosition { x: i16::MIN, y: 3 }, CanvasPosition { x: i16::MAX, y: 3 }, 0);
    stamp_stroke(&mut cells, size, &c);
    for i in 0..128usize {
        let expected = if i / 16 == 3 { CELL_FILLED } else { CELL_EMPTY };
        assert_eq!(cells[i], expected, "cell {}", i);
    }
}

#[test]
fn drawing_is_a_no_op_when_not_drawing() {
    let size = GridSize::new(16, 8).unwrap();
    let mut buffers = CellularAutomataBuffers::new(size);
    buffers.execute_init(0, 3);
    let before = (buffers.first.clone(), buffers.second.clone());
    let node = DrawingNode { state: DrawingState::Update };
    let mut params = DrawingParams::new();
    params.canvas_position = CanvasPosition { x: 4, y: 4 };
    let plan = node.run(&params, 6);
    assert_eq!(plan, None);
    buffers.execute_drawing(plan);
    assert_eq!((buffers.first.clone(), buffers.second.clone()), before);
}

#[test]
fn colouring_twice_gives_the_same_texture() {
    let size = GridSize::new(16, 8).unwrap();
    let mut buffers = CellularAutomataBuffers::new(size);
    let stroke = DrawingPushConstants::new(CanvasPosition { x: 3, y: 3 }, CanvasPosition { x: 3, y: 3 }, 1);
    buffers.execute_drawing(Some(DrawingDispatch { buffer: 0, constants: stroke }));
    let palette = default_palette();
    let mut texture = vec![0u32; 128];
    buffers.execute_colour(Some(ColourDispatch { buffer: 0 }), &palette, &mut texture);
    let once = texture.clone();
    buffers.execute_colour(Some(ColourDispatch { buffer: 0 }), &palette, &mut texture);
    assert_eq!(texture, once);
    assert_eq!(once[3 * 16 + 3], SAND_COLOUR);
    assert_eq!(once[0], EMPTY_COLOUR);
}

#[test]
fn colour_stage_not_ready_leaves_texture() {
    let buffers = CellularAutomataBuffers::new(GridSize::new(8, 8).unwrap());
    let mut texture = vec![42u32; 64];
    buffers.execute_colour(None, &default_palette(), &mut texture);
    assert_eq!(texture, vec![42u32; 64]);
}

#[test]
fn colourise_maps_each_state_through_the_palette() {
    let cells = vec![0u32, 1, 2, 1];
    let palette = vec![10u32, 20, 30];
    let mut texture = vec![0u32; 4];
    colourise(&cells, &palette, &mut texture);
    assert_eq!(texture, vec![10, 20, 30, 20]);
    let mut texture = vec![0u32; 4];
    colourise(&vec![5u32, 0, 0, 0], &default_palette(), &mut texture);
    assert_eq!(texture, vec![MISSING_COLOUR, EMPTY_COLOUR, EMPTY_COLOUR, EMPTY_COLOUR]);
}
