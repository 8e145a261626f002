use siege_of_life::grid::{CellType, Direction, Faction, Grid, GridCoord};
use siege_of_life::input::drag_drop::{
    anchor_allowed, drag_drop_step, get_pattern_cells, knob_turn, placement_fits, start_drag, DeployAction,
    DeployInput,
};
use siege_of_life::input::drawing::{
    add_to_zone, drawing_step, get_brush_coords, push_history, remove_from_zone, undo_last_draw, DrawHistory,
    DrawInput, DrawMode,
};
use siege_of_life::level::data::LevelData;
use siege_of_life::patterns::{glider_red, lwss_red};
use siege_of_life::player::deploy::{
    place_unit, unit_pattern, validate_deploy_position, DeployPhase, DeployUnitType, DragDeployState,
};
use siege_of_life::player::resources::DeploymentResources;
use siege_of_life::state::config::ZoneBrushConfig;

fn input(cursor: Option<(usize, usize)>, click: bool) -> DeployInput {
    DeployInput { cursor: cursor.map(|(x, y)| GridCoord::new(x, y)), escape_pressed: false, left_clicked: click }
}

#[test]
fn knob_points_along_the_larger_move() {
    let a = GridCoord::new(10, 10);
    assert_eq!(knob_turn(a, GridCoord::new(10, 10)), None);
    assert_eq!(knob_turn(a, GridCoord::new(13, 11)), Some(Direction::Right));
    assert_eq!(knob_turn(a, GridCoord::new(7, 12)), Some(Direction::Left));
    assert_eq!(knob_turn(a, GridCoord::new(11, 14)), Some(Direction::Down));
    assert_eq!(knob_turn(a, GridCoord::new(9, 2)), Some(Direction::Up));
    // A tie goes to the columns.
    assert_eq!(knob_turn(a, GridCoord::new(12, 8)), Some(Direction::Right));
}

#[test]
fn picking_a_unit_starts_dragging() {
    let mut d = DragDeployState::default();
    start_drag(&mut d, DeployUnitType::LWSS);
    assert_eq!(d.unit_type, Some(DeployUnitType::LWSS));
    assert_eq!(d.rotation_dir, Some(Direction::Right));
    assert_eq!(d.phase, DeployPhase::Idle);
    assert!(d.start_pos.is_none() && d.current_pos.is_none());
}

#[test]
fn unit_cells_are_red_patterns() {
    let p = GridCoord::new(8, 8);
    assert_eq!(get_pattern_cells(DeployUnitType::Glider, p, Direction::Up), glider_red(p, Direction::Up));
    assert_eq!(unit_pattern(DeployUnitType::LWSS, p, Direction::Left), lwss_red(p, Direction::Left));
}

#[test]
fn placement_needs_empty_cells_in_the_zone() {
    let mut g = Grid::new(10, 10);
    let cells = get_pattern_cells(DeployUnitType::Glider, GridCoord::new(5, 5), Direction::Right);
    assert!(placement_fits(&g, &cells, &[]));
    let zone: Vec<GridCoord> = cells.iter().map(|(c, _)| *c).collect();
    assert!(placement_fits(&g, &cells, &zone));
    assert!(!placement_fits(&g, &cells, &zone[1..]));
    g.set(cells[2].0, CellType::Wall);
    assert!(!placement_fits(&g, &cells, &[]));
    let edge = get_pattern_cells(DeployUnitType::Glider, GridCoord::new(9, 9), Direction::Right);
    assert!(!placement_fits(&Grid::new(10, 10), &edge, &[]));
    // Anchoring with a zone needs some direction that fits.
    assert!(anchor_allowed(&g, DeployUnitType::Glider, GridCoord::new(1, 1), &[]));
    assert!(!anchor_allowed(&g, DeployUnitType::Glider, GridCoord::new(1, 1), &[GridCoord::new(0, 0)]));
}

#[test]
fn deploying_a_glider_by_clicks() {
    let mut g = Grid::new(20, 20);
    let mut res = DeploymentResources::default();
    let mut d = DragDeployState::default();
    start_drag(&mut d, DeployUnitType::Glider);
    // The unit follows the pointer.
    assert_eq!(drag_drop_step(&mut d, &mut g, &mut res, &[], true, true, &input(Some((6, 6)), false)), DeployAction::Nothing);
    assert_eq!(d.current_pos, Some(GridCoord::new(6, 6)));
    // A click anchors it and starts turning.
    assert_eq!(drag_drop_step(&mut d, &mut g, &mut res, &[], true, true, &input(Some((6, 6)), true)), DeployAction::Nothing);
    assert_eq!(d.phase, DeployPhase::Rotating);
    assert_eq!(d.start_pos, Some(GridCoord::new(6, 6)));
    // Moving the pointer down turns it down.
    drag_drop_step(&mut d, &mut g, &mut res, &[], true, true, &input(Some((6, 9)), false));
    assert_eq!(d.rotation_dir, Some(Direction::Down));
    // A second click places it.
    let action = drag_drop_step(&mut d, &mut g, &mut res, &[], true, true, &input(Some((6, 9)), true));
    assert_eq!(action, DeployAction::BeginEvolution);
    for (c, t) in glider_red(GridCoord::new(6, 6), Direction::Down) {
        assert_eq!(g.get(c), t);
    }
    assert_eq!(res.remaining_gliders, 2);
    assert!(res.deployed_this_round);
    assert!(d.unit_type.is_none() && d.phase == DeployPhase::Idle);
}

#[test]
fn escape_drops_the_unit_then_leaves() {
    let mut g = Grid::new(10, 10);
    let mut res = DeploymentResources::default();
    let mut d = DragDeployState::default();
    start_drag(&mut d, DeployUnitType::LWSS);
    let esc = DeployInput { cursor: None, escape_pressed: true, left_clicked: false };
    assert_eq!(drag_drop_step(&mut d, &mut g, &mut res, &[], true, false, &esc), DeployAction::Nothing);
    assert!(d.unit_type.is_none());
    assert_eq!(drag_drop_step(&mut d, &mut g, &mut res, &[], true, false, &esc), DeployAction::BackToEditing);
    assert_eq!(drag_drop_step(&mut d, &mut g, &mut res, &[], true, true, &esc), DeployAction::BackToLevelSelect);
}

#[test]
fn no_unit_left_means_no_placement() {
    let mut g = Grid::new(20, 20);
    let mut res = DeploymentResources { remaining_gliders: 0, remaining_lwss: 1, deployed_this_round: false };
    let mut d = DragDeployState::default();
    start_drag(&mut d, DeployUnitType::Glider);
    drag_drop_step(&mut d, &mut g, &mut res, &[], true, true, &input(Some((5, 5)), true));
    let action = drag_drop_step(&mut d, &mut g, &mut res, &[], true, true, &input(Some((5, 5)), true));
    assert_eq!(action, DeployAction::Nothing);
    assert!(g.cells.iter().flatten().all(|c| *c == CellType::Empty));
    assert_eq!(res.remaining_gliders, 0);
    assert!(d.unit_type.is_none());
}

#[test]
fn place_unit_and_validation() {
    let mut g = Grid::new(20, 20);
    let mut res = DeploymentResources { remaining_gliders: 1, remaining_lwss: 0, deployed_this_round: false };
    let pos = GridCoord::new(4, 4);
    let level = LevelData {
        id: "x".to_string(),
        name: "X".to_string(),
        version: 1,
        width: 20,
        height: 20,
        initial_cells: Vec::new(),
        deployment_zone: glider_red(pos, Direction::Right).iter().map(|(c, _)| *c).collect(),
        max_gliders: 1,
        max_lwss: 0,
        evolution_steps: 10,
    };
    assert!(validate_deploy_position(&g, DeployUnitType::Glider, pos, Direction::Right, &level));
    // Outside the zone it is refused.
    assert!(!validate_deploy_position(&g, DeployUnitType::Glider, pos, Direction::Up, &level));
    assert!(!place_unit(&mut g, DeployUnitType::LWSS, pos, Direction::Right, &mut res));
    // With none of the kind left, nothing is placed wherever the pointer is.
    let far = GridCoord::new(usize::MAX, usize::MAX);
    assert!(!place_unit(&mut g, DeployUnitType::LWSS, far, Direction::Right, &mut res));
    assert!(place_unit(&mut g, DeployUnitType::Glider, pos, Direction::Right, &mut res));
    assert_eq!(res.remaining_gliders, 0);
    assert!(res.deployed_this_round);
    assert!(!validate_deploy_position(&g, DeployUnitType::Glider, pos, Direction::Right, &level));
}

#[test]
fn brush_covers_a_clipped_square() {
    let g = Grid::new(10, 10);
    assert_eq!(get_brush_coords(GridCoord::new(4, 4), 1, &g), vec![GridCoord::new(4, 4)]);
    assert_eq!(get_brush_coords(GridCoord::new(4, 4), 0, &g), vec![GridCoord::new(4, 4)]);
    let b = get_brush_coords(GridCoord::new(0, 1), 2, &g);
    assert_eq!(
        b,
        vec![
            GridCoord::new(0, 0),
            GridCoord::new(0, 1),
            GridCoord::new(0, 2),
            GridCoord::new(1, 0),
            GridCoord::new(1, 1),
            GridCoord::new(1, 2)
        ]
    );
    assert_eq!(get_brush_coords(GridCoord::new(5, 5), 3, &g).len(), 25);
}

#[test]
fn zone_painting_adds_and_removes() {
    let mut zone = vec![GridCoord::new(1, 1)];
    add_to_zone(&mut zone, &[GridCoord::new(1, 1), GridCoord::new(2, 1), GridCoord::new(2, 1)]);
    assert_eq!(zone, vec![GridCoord::new(1, 1), GridCoord::new(2, 1)]);
    remove_from_zone(&mut zone, &[GridCoord::new(1, 1), GridCoord::new(9, 9)]);
    assert_eq!(zone, vec![GridCoord::new(2, 1)]);
}

fn press(x: usize, y: usize, just: bool) -> DrawInput {
    DrawInput {
        cursor: Some(GridCoord::new(x, y)),
        left_pressed: true,
        right_pressed: false,
        left_just_pressed: just,
        right_just_pressed: false,
        right_just_released: false,
    }
}

#[test]
fn drawing_then_undo_restores_the_grid() {
    let mut g = Grid::new(30, 30);
    g.set(GridCoord::new(11, 11), CellType::Wall);
    let before = g.cells.clone();
    let mut zone = Vec::new();
    let mut mode = DrawMode::default();
    let mut last = None;
    let mut history = DrawHistory::default();
    let brush = ZoneBrushConfig::default();
    let red = CellType::Normal(Faction::Red);
    drawing_step(&mut g, &mut zone, &mut mode, &mut last, &mut history, true, &press(3, 3, true), red, &None, &brush);
    assert_eq!(g.get(GridCoord::new(3, 3)), red);
    // Holding on the same cell draws nothing more.
    drawing_step(&mut g, &mut zone, &mut mode, &mut last, &mut history, true, &press(3, 3, false), red, &None, &brush);
    assert_eq!(history.history.len(), 1);
    // Painting does not cover solid cells.
    drawing_step(&mut g, &mut zone, &mut mode, &mut last, &mut history, true, &press(11, 11, false), red, &None, &brush);
    assert_eq!(g.get(GridCoord::new(11, 11)), CellType::Wall);
    assert_eq!(history.history.len(), 1);
    // A pattern is stamped on the first press.
    let pattern = Some("Block".to_string());
    drawing_step(&mut g, &mut zone, &mut mode, &mut last, &mut history, true, &press(20, 20, true), red, &pattern, &brush);
    assert_eq!(g.get(GridCoord::new(21, 21)), red);
    assert_eq!(history.history.len(), 2);
    undo_last_draw(&mut g, &mut history);
    undo_last_draw(&mut g, &mut history);
    assert_eq!(g.cells, before);
    assert!(history.history.is_empty());
    // Undo with nothing recorded does nothing.
    undo_last_draw(&mut g, &mut history);
    assert_eq!(g.cells, before);
}

#[test]
fn right_button_erases() {
    let mut g = Grid::new(10, 10);
    g.set(GridCoord::new(2, 2), CellType::Bomb);
    let mut zone = Vec::new();
    let mut mode = DrawMode::Draw;
    let mut last = None;
    let mut history = DrawHistory::default();
    let brush = ZoneBrushConfig::default();
    let erase = DrawInput {
        cursor: Some(GridCoord::new(2, 2)),
        left_pressed: true,
        right_pressed: true,
        left_just_pressed: true,
        right_just_pressed: true,
        right_just_released: false,
    };
    drawing_step(&mut g, &mut zone, &mut mode, &mut last, &mut history, true, &erase, CellType::Wall, &None, &brush);
    assert_eq!(mode, DrawMode::Erase);
    assert_eq!(g.get(GridCoord::new(2, 2)), CellType::Empty);
    assert_eq!(history.history[0], vec![(GridCoord::new(2, 2), CellType::Bomb)]);
}

#[test]
fn undoing_an_erase_brings_the_cell_back() {
    let mut g = Grid::new(10, 10);
    let red = CellType::Normal(Faction::Red);
    g.set(GridCoord::new(4, 6), red);
    let before = g.cells.clone();
    let mut zone = Vec::new();
    let mut mode = DrawMode::Draw;
    let mut last = None;
    let mut history = DrawHistory::default();
    let brush = ZoneBrushConfig::default();
    let erase = DrawInput {
        cursor: Some(GridCoord::new(4, 6)),
        left_pressed: true,
        right_pressed: true,
        left_just_pressed: true,
        right_just_pressed: true,
        right_just_released: false,
    };
    drawing_step(&mut g, &mut zone, &mut mode, &mut last, &mut history, true, &erase, red, &None, &brush);
    assert_eq!(g.get(GridCoord::new(4, 6)), CellType::Empty);
    undo_last_draw(&mut g, &mut history);
    assert_eq!(g.get(GridCoord::new(4, 6)), red);
    assert_eq!(g.cells, before);
    assert!(history.history.is_empty());
}

#[test]
fn undoing_a_pattern_at_the_corner_restores_every_cell() {
    let mut g = Grid::new(12, 12);
    g.set(GridCoord::new(0, 0), CellType::Bomb);
    g.set(GridCoord::new(1, 0), CellType::Wall);
    g.set(GridCoord::new(0, 1), CellType::Normal(Faction::Blue));
    g.set(GridCoord::new(2, 1), CellType::HighValue);
    let before = g.cells.clone();
    let mut zone = Vec::new();
    let mut mode = DrawMode::Draw;
    let mut last = None;
    let mut history = DrawHistory::default();
    let brush = ZoneBrushConfig::default();
    let red = CellType::Normal(Faction::Red);
    for name in ["Glider", "Pulsar", "LWSS", "Beacon"] {
        let pattern = Some(name.to_string());
        drawing_step(&mut g, &mut zone, &mut mode, &mut last, &mut history, true, &press(0, 0, true), red, &pattern, &brush);
        assert_ne!(g.cells, before);
        undo_last_draw(&mut g, &mut history);
        assert_eq!(g.cells, before, "{}", name);
    }
}

#[test]
fn zone_brush_paints_the_zone() {
    let mut g = Grid::new(10, 10);
    let mut zone = Vec::new();
    let mut mode = DrawMode::Draw;
    let mut last = None;
    let mut history = DrawHistory::default();
    let brush = ZoneBrushConfig { active: true, size: 2 };
    drawing_step(&mut g, &mut zone, &mut mode, &mut last, &mut history, true, &press(5, 5, true), CellType::Wall, &None, &brush);
    assert_eq!(zone.len(), 9);
    assert!(g.cells.iter().flatten().all(|c| *c == CellType::Empty));
    assert!(history.history.is_empty());
    // Not editing: nothing happens and the last cell is forgotten.
    drawing_step(&mut g, &mut zone, &mut mode, &mut last, &mut history, false, &press(1, 1, true), CellType::Wall, &None, &brush);
    assert!(last.is_none());
    assert_eq!(zone.len(), 9);
}

#[test]
fn history_keeps_the_last_hundred_strokes() {
    let mut h = DrawHistory::default();
    for i in 0..105 {
        push_history(&mut h, vec![(GridCoord::new(i, 0), CellType::Empty)]);
    }
    assert_eq!(h.history.len(), 100);
    assert_eq!(h.history[0][0].0, GridCoord::new(5, 0));
    assert_eq!(h.history[99][0].0, GridCoord::new(104, 0));
}
