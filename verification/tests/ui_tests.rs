use siege_of_life::grid::{CellType, Direction, Faction, Grid, GridCoord};
use siege_of_life::level::data::LevelData;
use siege_of_life::patterns::glider_red;
use siege_of_life::player::deploy::{DeployPhase, DeployUnitType, DragDeployState};
use siege_of_life::player::resources::DeploymentResources;
use siege_of_life::render::{ghost_preview, visible_zone_cells};
use siege_of_life::state::config::{
    AppState, DeploymentZoneData, DialogMessage, EraserConfig, EvolutionConfig, SelectedElement, SelectedPattern,
    SimulatorDeployConfig, SimulatorSnapshot, SimulatorState, ZoneBrushConfig,
};
use siege_of_life::state::session::ScreenChange;
use siege_of_life::state::victory::{GameplayVictoryOverlay, VictoryKind};
use siege_of_life::text::{concat_text, same_text};
use siege_of_life::ui::deployment_panel::{can_select_unit, deployment_panel_click, deployment_panel_visible, PanelButton};
use siege_of_life::ui::level_io::{
    apply_opened_level, apply_pending_level_load, apply_save_browse, finish_save, open_save_modal,
    take_browsed_path, LevelFileDialogState, SimulatorLevelMeta,
};
use siege_of_life::ui::simulator_panel::{simulator_panel_click, simulator_panel_visible, SimulatorPanelButton};

#[test]
fn deployment_panel_visibility_and_picks() {
    let none = GameplayVictoryOverlay::default();
    let shown = GameplayVictoryOverlay { kind: Some(VictoryKind::Trial) };
    assert!(deployment_panel_visible(AppState::Deployment, SimulatorState::Editing, &none));
    assert!(deployment_panel_visible(AppState::Simulator, SimulatorState::DeploymentTest, &none));
    assert!(!deployment_panel_visible(AppState::Simulator, SimulatorState::TrialPlay, &none));
    assert!(!deployment_panel_visible(AppState::Deployment, SimulatorState::Editing, &shown));

    let res = DeploymentResources { remaining_gliders: 1, remaining_lwss: 0, deployed_this_round: false };
    let mut d = DragDeployState::default();
    assert!(can_select_unit(&res, &d, DeployUnitType::Glider));
    assert!(!can_select_unit(&res, &d, DeployUnitType::LWSS));
    // A disabled button does nothing.
    assert_eq!(deployment_panel_click(PanelButton::Pick(DeployUnitType::LWSS), false, &res, &mut d), ScreenChange::Stay);
    assert!(d.unit_type.is_none());
    deployment_panel_click(PanelButton::Pick(DeployUnitType::Glider), false, &res, &mut d);
    assert_eq!(d.unit_type, Some(DeployUnitType::Glider));
    assert!(!can_select_unit(&res, &d, DeployUnitType::Glider));
    // "Back" is not offered while a unit is picked.
    assert_eq!(deployment_panel_click(PanelButton::Back, true, &res, &mut d), ScreenChange::Stay);
    deployment_panel_click(PanelButton::Cancel, false, &res, &mut d);
    assert!(d.unit_type.is_none() && d.rotation_dir.is_none() && d.phase == DeployPhase::Idle);
    assert_eq!(
        deployment_panel_click(PanelButton::Back, true, &res, &mut d),
        ScreenChange::Simulator(SimulatorState::Editing)
    );
    assert_eq!(
        deployment_panel_click(PanelButton::Back, false, &res, &mut d),
        ScreenChange::Game(AppState::LevelSelect)
    );
}

struct Editor {
    evo: EvolutionConfig,
    element: SelectedElement,
    pattern: SelectedPattern,
    res: DeploymentResources,
    snap: SimulatorSnapshot,
    drag: DragDeployState,
    grid: Grid,
    cfg: SimulatorDeployConfig,
    zone: DeploymentZoneData,
    brush: ZoneBrushConfig,
    eraser: EraserConfig,
}

fn editor() -> Editor {
    Editor {
        evo: EvolutionConfig { steps_per_deployment: 30, current_step: 7, is_paused: false },
        element: SelectedElement::default(),
        pattern: SelectedPattern(Some("Block".to_string())),
        res: DeploymentResources::default(),
        snap: SimulatorSnapshot::default(),
        drag: DragDeployState::default(),
        grid: Grid::new(8, 8),
        cfg: SimulatorDeployConfig::default(),
        zone: DeploymentZoneData { zone: vec![GridCoord::new(1, 1)] },
        brush: ZoneBrushConfig::default(),
        eraser: EraserConfig::default(),
    }
}

fn click(e: &mut Editor, b: SimulatorPanelButton, s: SimulatorState) -> (Option<AppState>, Option<SimulatorState>) {
    let r = simulator_panel_click(
        b, s, &mut e.evo, &mut e.element, &mut e.pattern, &mut e.res, &mut e.snap, &mut e.drag, &mut e.grid,
        &mut e.cfg, &mut e.zone, &mut e.brush, &mut e.eraser,
    );
    (r.game, r.simulator)
}

#[test]
fn simulator_panel_editing_controls() {
    assert!(simulator_panel_visible(AppState::Simulator, SimulatorState::Editing, false));
    assert!(!simulator_panel_visible(AppState::Simulator, SimulatorState::DeploymentTest, false));
    assert!(!simulator_panel_visible(AppState::Simulator, SimulatorState::TrialPlay, true));
    let mut e = editor();
    let ed = SimulatorState::Editing;
    click(&mut e, SimulatorPanelButton::ToggleEraser, ed);
    assert!(e.eraser.active && e.pattern.0.is_none());
    click(&mut e, SimulatorPanelButton::ToggleZoneBrush, ed);
    assert!(e.brush.active && !e.eraser.active);
    click(&mut e, SimulatorPanelButton::ToggleEraser, ed);
    assert!(e.eraser.active && !e.brush.active);
    click(&mut e, SimulatorPanelButton::Pattern(Some("Toad".to_string())), ed);
    assert_eq!(e.pattern.0.as_deref(), Some("Toad"));
    assert!(!e.eraser.active);
    click(&mut e, SimulatorPanelButton::Element(CellType::Bomb), ed);
    assert_eq!(e.element.0, CellType::Bomb);
    assert!(e.pattern.0.is_none());
    click(&mut e, SimulatorPanelButton::MaxGliders(-4), ed);
    click(&mut e, SimulatorPanelButton::MaxLwss(5), ed);
    assert_eq!((e.cfg.max_gliders, e.cfg.max_lwss), (0, 5));
    click(&mut e, SimulatorPanelButton::EraserRadius(4), ed);
    click(&mut e, SimulatorPanelButton::ZoneBrushSize(3), ed);
    assert_eq!((e.eraser.radius, e.brush.size), (4, 3));
    click(&mut e, SimulatorPanelButton::ClearZone, ed);
    assert!(e.zone.zone.is_empty());
    e.grid.set(GridCoord::new(2, 2), CellType::Wall);
    click(&mut e, SimulatorPanelButton::ClearAll, ed);
    assert!(e.grid.cells.iter().flatten().all(|c| *c == CellType::Empty));
    // Trial controls are not shown while editing.
    assert_eq!(click(&mut e, SimulatorPanelButton::TogglePause, ed), (None, None));
    assert!(!e.evo.is_paused);
}

#[test]
fn simulator_panel_trial_controls() {
    let mut e = editor();
    e.grid.set(GridCoord::new(3, 3), CellType::Wall);
    e.cfg = SimulatorDeployConfig { max_gliders: 1, max_lwss: 2 };
    e.brush.active = true;
    assert_eq!(click(&mut e, SimulatorPanelButton::EnterTrial, SimulatorState::Editing), (None, Some(SimulatorState::DeploymentTest)));
    assert!(!e.brush.active);
    assert_eq!(e.snap.zone, Some(vec![GridCoord::new(1, 1)]));
    assert_eq!((e.res.remaining_gliders, e.res.remaining_lwss), (1, 2));
    assert_eq!((e.evo.current_step, e.evo.is_paused), (0, true));
    let tp = SimulatorState::TrialPlay;
    click(&mut e, SimulatorPanelButton::TogglePause, tp);
    assert!(!e.evo.is_paused);
    e.grid.set(GridCoord::new(5, 5), CellType::Normal(Faction::Red));
    click(&mut e, SimulatorPanelButton::SingleStep, tp);
    assert_eq!(e.evo.current_step, 1);
    assert_eq!(e.grid.get(GridCoord::new(5, 5)), CellType::Empty);
    assert_eq!(click(&mut e, SimulatorPanelButton::BackToEditing, tp), (None, Some(SimulatorState::Editing)));
    let r = click(&mut e, SimulatorPanelButton::BackToMainMenu, tp);
    assert_eq!(r, (Some(AppState::MainMenu), Some(SimulatorState::Editing)));
    assert!(e.snap.grid.is_none() && e.snap.zone.is_none());
    assert_eq!((e.evo.current_step, e.evo.is_paused), (0, true));
}

#[test]
fn ghost_preview_while_deploying() {
    let mut g = Grid::new(10, 10);
    let zone = DeploymentZoneData { zone: Vec::new() };
    let mut d = DragDeployState::default();
    assert!(ghost_preview(AppState::Deployment, SimulatorState::Editing, &d, &g, &zone).is_none());
    d.unit_type = Some(DeployUnitType::Glider);
    d.current_pos = Some(GridCoord::new(9, 9));
    // Not deploying: no preview.
    assert!(ghost_preview(AppState::Evolution, SimulatorState::Editing, &d, &g, &zone).is_none());
    let p = ghost_preview(AppState::Deployment, SimulatorState::Editing, &d, &g, &zone).unwrap();
    assert!(!p.valid && !p.rotating);
    assert_eq!(p.cells, vec![GridCoord::new(8, 9)]);
    d.current_pos = Some(GridCoord::new(4, 4));
    let p = ghost_preview(AppState::Simulator, SimulatorState::DeploymentTest, &d, &g, &zone).unwrap();
    assert!(p.valid);
    let expected: Vec<GridCoord> = glider_red(GridCoord::new(4, 4), Direction::Right).iter().map(|(c, _)| *c).collect();
    assert_eq!(p.cells, expected);
    g.set(expected[0], CellType::Wall);
    d.phase = DeployPhase::Rotating;
    d.start_pos = Some(GridCoord::new(4, 4));
    d.current_pos = Some(GridCoord::new(0, 0));
    let p = ghost_preview(AppState::Deployment, SimulatorState::Editing, &d, &g, &zone).unwrap();
    assert!(!p.valid && p.rotating);
    assert_eq!(p.cells, expected);
}

#[test]
fn zone_shows_in_the_simulator_and_while_deploying() {
    let g = Grid::new(5, 5);
    let zone = DeploymentZoneData { zone: vec![GridCoord::new(1, 1), GridCoord::new(7, 0), GridCoord::new(4, 4)] };
    assert_eq!(visible_zone_cells(AppState::Simulator, &zone, &g), vec![GridCoord::new(1, 1), GridCoord::new(4, 4)]);
    assert_eq!(visible_zone_cells(AppState::Deployment, &zone, &g).len(), 2);
    assert!(visible_zone_cells(AppState::Evolution, &zone, &g).is_empty());
}

fn saved_level() -> LevelData {
    LevelData {
        id: "saved".to_string(),
        name: "Saved".to_string(),
        version: 1,
        width: 4,
        height: 2,
        initial_cells: vec![vec![CellType::Wall; 4], vec![CellType::Empty; 4]],
        deployment_zone: vec![GridCoord::new(0, 1)],
        max_gliders: 6,
        max_lwss: 3,
        evolution_steps: 77,
    }
}

#[test]
fn save_dialog_flow() {
    let meta = SimulatorLevelMeta::default();
    assert_eq!(meta.name, "未命名关卡");
    assert!(meta.file_path.is_none());
    let mut dialog = LevelFileDialogState::default();
    open_save_modal(&mut dialog, &meta, "levels");
    assert!(dialog.save_modal_open);
    assert_eq!(dialog.draft_name, "未命名关卡");
    assert_eq!(dialog.draft_path, "levels/custom_level.json");
    let named = SimulatorLevelMeta { name: "My Level".to_string(), file_path: Some("/a/b.json".to_string()) };
    open_save_modal(&mut dialog, &named, "levels");
    assert_eq!(dialog.draft_path, "/a/b.json");

    apply_save_browse(&mut dialog, "/x/new level");
    assert_eq!(dialog.draft_path, "/x/new level.json");
    assert_eq!(dialog.draft_name, "new level");

    let mut meta = SimulatorLevelMeta::default();
    let mut msg = DialogMessage::default();
    finish_save(&mut dialog, &mut meta, &mut msg, Err("disk full".to_string()));
    assert_eq!(msg.0.as_deref(), Some("disk full"));
    assert!(dialog.save_modal_open);
    finish_save(&mut dialog, &mut meta, &mut msg, Ok(("/x/new level.json".to_string(), saved_level())));
    assert_eq!(meta.name, "Saved");
    assert_eq!(meta.file_path.as_deref(), Some("/x/new level.json"));
    assert_eq!(msg.0.as_deref(), Some("已保存: /x/new level.json"));
    assert!(!dialog.save_modal_open);
}

#[test]
fn opened_level_waits_then_loads() {
    let mut dialog = LevelFileDialogState::default();
    let mut meta = SimulatorLevelMeta::default();
    let mut msg = DialogMessage::default();
    apply_opened_level(&mut dialog, &mut meta, &mut msg, "/l/a.json", Err("JSON 解析失败: eof".to_string()));
    assert_eq!(msg.0.as_deref(), Some("JSON 解析失败: eof"));
    assert!(dialog.pending_load.is_none());
    apply_opened_level(&mut dialog, &mut meta, &mut msg, "/l/a.json", Ok(saved_level()));
    assert_eq!(msg.0.as_deref(), Some("已打开: /l/a.json"));
    assert_eq!(meta.name, "Saved");
    assert_eq!(meta.file_path.as_deref(), Some("/l/a.json"));
    assert!(dialog.pending_load.is_some());

    let mut grid = Grid::new(2, 2);
    let mut cfg = SimulatorDeployConfig::default();
    let mut zone = DeploymentZoneData::default();
    let mut evo = EvolutionConfig::default();
    meta.name = "changed".to_string();
    apply_pending_level_load(&mut dialog, &mut grid, &mut cfg, &mut zone, &mut meta, &mut evo);
    assert!(dialog.pending_load.is_none());
    assert_eq!(meta.name, "Saved");
    assert_eq!((grid.width, grid.height), (4, 2));
    assert_eq!(grid.get(GridCoord::new(3, 0)), CellType::Wall);
    assert_eq!((cfg.max_gliders, cfg.max_lwss), (6, 3));
    assert_eq!(zone.zone, vec![GridCoord::new(0, 1)]);
    assert_eq!(evo.steps_per_deployment, 77);
    // Nothing waits any more: nothing changes.
    apply_pending_level_load(&mut dialog, &mut grid, &mut cfg, &mut zone, &mut meta, &mut evo);
    assert_eq!(grid.width, 4);
}

#[test]
fn text_helpers() {
    assert!(same_text("abc", "abc"));
    assert!(!same_text("abc", "abd"));
    assert_eq!(concat_text("已打开: ", "x"), "已打开: x");
    assert_eq!(concat_text("", ""), "");
}

#[test]
fn browsed_path_names_the_level_unless_the_stem_is_empty() {
    let mut dialog = LevelFileDialogState::default();
    dialog.draft_name = "Old".to_string();
    take_browsed_path(&mut dialog, "/p/.json".to_string(), Some(String::new()));
    assert_eq!(dialog.draft_path, "/p/.json");
    assert_eq!(dialog.draft_name, "Old");
    take_browsed_path(&mut dialog, "/p/new.json".to_string(), Some("new".to_string()));
    assert_eq!(dialog.draft_name, "new");
    take_browsed_path(&mut dialog, "/".to_string(), None);
    assert_eq!(dialog.draft_path, "/");
    assert_eq!(dialog.draft_name, "new");
}
