use siege_of_life::grid::{CellType, Faction, Grid, GridCoord};
use siege_of_life::level::data::{LevelData, SaveData};
use siege_of_life::level::loader::LevelRegistry;
use siege_of_life::player::deploy::{DeployPhase, DeployUnitType, DragDeployState};
use siege_of_life::player::resources::DeploymentResources;
use siege_of_life::state::config::{
    AppState, CurrentJudgment, CurrentLevelId, DeploymentZoneData, EvolutionConfig, JudgmentResult,
    SimulatorDeployConfig, SimulatorSnapshot, SimulatorState, ZoneBrushConfig,
};
use siege_of_life::state::deployment::{begin_evolution_after_deploy, enter_deployment};
use siege_of_life::state::evolution::{
    advance_evolution, enter_evolution, fast_forward_current_round, level_evolution_runs, level_evolution_tick,
    skip_allowed, skip_evolution, trial_evolution_runs, trial_evolution_tick, RoundEvolutionResult, TickOutcome,
};
use siege_of_life::state::judgment::{enter_judgment, judgment_system};
use siege_of_life::state::session::{
    go_next_level, hold_pause_under_overlay, level_select_entries, load_level_session, restart_current_level,
    restart_trial, select_level, victory_overlay_buttons, victory_overlay_click, defeat_overlay_click,
    OverlayButton, ScreenChange,
};
use siege_of_life::state::simulator::{
    enter_simulator, enter_trial, finish_trial_round, restore_simulator_editing_snapshot,
};
use siege_of_life::state::victory::{
    any_gameplay_overlay_active, apply_trial_snapshot, resolve_high_value_victory, settle_pending_victory,
    trigger_level_defeat, trigger_trial_defeat, trigger_trial_victory, DefeatKind, GameplayDefeatOverlay,
    GameplayOverlayState, GameplayVictoryOverlay, PendingVictory, PendingVictoryKind, VictoryKind,
};

fn red() -> CellType {
    CellType::Normal(Faction::Red)
}

fn level(id: &str, w: usize, h: usize) -> LevelData {
    let mut rows = vec![vec![CellType::Empty; w]; h];
    rows[0][0] = CellType::HighValue;
    LevelData {
        id: id.to_string(),
        name: format!("Level {}", id),
        version: 1,
        width: w,
        height: h,
        initial_cells: rows,
        deployment_zone: vec![GridCoord::new(1, 1), GridCoord::new(2, 1)],
        max_gliders: 3,
        max_lwss: 1,
        evolution_steps: 120,
    }
}

fn registry() -> LevelRegistry {
    let mut r = LevelRegistry::default();
    r.register(level("level_01", 8, 6));
    r.register(level("level_02", 10, 7));
    r
}

struct Session {
    current: CurrentLevelId,
    grid: Grid,
    zone: DeploymentZoneData,
    res: DeploymentResources,
    evo: EvolutionConfig,
    drag: DragDeployState,
}

fn session() -> Session {
    Session {
        current: CurrentLevelId(Some("level_01".to_string())),
        grid: Grid::new(3, 3),
        zone: DeploymentZoneData::default(),
        res: DeploymentResources { remaining_gliders: 0, remaining_lwss: 0, deployed_this_round: true },
        evo: EvolutionConfig { steps_per_deployment: 5, current_step: 4, is_paused: false },
        drag: DragDeployState {
            active: true,
            unit_type: Some(DeployUnitType::Glider),
            start_pos: None,
            current_pos: Some(GridCoord::new(1, 1)),
            rotation_dir: None,
            phase: DeployPhase::Idle,
        },
    }
}

fn assert_started(s: &Session, id: &str, data: &LevelData) {
    assert_eq!(s.current.0.as_deref(), Some(id));
    assert_eq!((s.grid.width, s.grid.height), (data.width, data.height));
    assert_eq!(s.grid.get(GridCoord::new(0, 0)), CellType::HighValue);
    assert_eq!(s.zone.zone, data.deployment_zone);
    assert_eq!((s.res.remaining_gliders, s.res.remaining_lwss, s.res.deployed_this_round), (3, 1, false));
    assert_eq!((s.evo.steps_per_deployment, s.evo.current_step, s.evo.is_paused), (120, 0, true));
    assert!(!s.drag.active && s.drag.unit_type.is_none() && s.drag.phase == DeployPhase::Idle);
}

#[test]
fn a_level_session_starts_with_deployment() {
    let mut s = session();
    let data = level("level_02", 10, 7);
    let next = load_level_session(
        "level_02", &data, &mut s.current, &mut s.grid, &mut s.zone, &mut s.res, &mut s.evo, &mut s.drag,
    );
    assert_eq!(next, AppState::Deployment);
    assert_started(&s, "level_02", &data);
}

#[test]
fn next_level_follows_the_order() {
    let r = registry();
    let mut s = session();
    let mut overlay = GameplayVictoryOverlay { kind: Some(VictoryKind::Level { has_next_level: true }) };
    let next = go_next_level(
        &mut overlay, &mut s.current, &r, &mut s.grid, &mut s.zone, &mut s.res, &mut s.evo, &mut s.drag,
    );
    assert_eq!(next, Some(AppState::Deployment));
    assert!(overlay.kind.is_none());
    assert_started(&s, "level_02", &level("level_02", 10, 7));
    // From the last level there is no next one: nothing changes.
    overlay.kind = Some(VictoryKind::Level { has_next_level: false });
    s.evo.current_step = 9;
    let next = go_next_level(
        &mut overlay, &mut s.current, &r, &mut s.grid, &mut s.zone, &mut s.res, &mut s.evo, &mut s.drag,
    );
    assert_eq!(next, None);
    assert!(overlay.kind.is_some());
    assert_eq!(s.evo.current_step, 9);
    assert_eq!(s.current.0.as_deref(), Some("level_02"));
}

#[test]
fn restart_needs_a_known_level() {
    let r = registry();
    let mut s = session();
    let mut overlay = GameplayVictoryOverlay { kind: Some(VictoryKind::Level { has_next_level: true }) };
    let next = restart_current_level(
        &mut overlay, &mut s.current, &r, &mut s.grid, &mut s.zone, &mut s.res, &mut s.evo, &mut s.drag,
    );
    assert_eq!(next, Some(AppState::Deployment));
    assert!(overlay.kind.is_none());
    assert_started(&s, "level_01", &level("level_01", 8, 6));
    let mut s2 = session();
    s2.current = CurrentLevelId(Some("missing".to_string()));
    overlay.kind = Some(VictoryKind::Trial);
    let next = restart_current_level(
        &mut overlay, &mut s2.current, &r, &mut s2.grid, &mut s2.zone, &mut s2.res, &mut s2.evo, &mut s2.drag,
    );
    assert_eq!(next, None);
    assert_eq!(overlay.kind, Some(VictoryKind::Trial));
    assert_eq!(s2.grid.width, 3);
}

#[test]
fn overlay_buttons_and_clicks() {
    assert_eq!(
        victory_overlay_buttons(VictoryKind::Level { has_next_level: true }),
        vec![OverlayButton::NextLevel, OverlayButton::Restart, OverlayButton::Back]
    );
    assert_eq!(
        victory_overlay_buttons(VictoryKind::Level { has_next_level: false }),
        vec![OverlayButton::Restart, OverlayButton::Back]
    );
    assert_eq!(victory_overlay_buttons(VictoryKind::Trial), vec![OverlayButton::Restart, OverlayButton::Back]);

    let r = registry();
    let snap = SimulatorSnapshot::default();
    let cfg = SimulatorDeployConfig::default();
    let mut s = session();
    let mut overlay = GameplayVictoryOverlay { kind: Some(VictoryKind::Level { has_next_level: false }) };
    // "Next level" is not offered here: nothing happens.
    let next = victory_overlay_click(
        OverlayButton::NextLevel, &mut overlay, &mut s.current, &r, &mut s.grid, &mut s.zone, &mut s.res,
        &mut s.evo, &mut s.drag, &snap, &cfg,
    );
    assert_eq!(next, ScreenChange::Stay);
    assert!(overlay.kind.is_some());
    // "Back" returns to the level selection.
    let next = victory_overlay_click(
        OverlayButton::Back, &mut overlay, &mut s.current, &r, &mut s.grid, &mut s.zone, &mut s.res,
        &mut s.evo, &mut s.drag, &snap, &cfg,
    );
    assert_eq!(next, ScreenChange::Game(AppState::LevelSelect));
    assert!(overlay.kind.is_none());
    assert!(s.drag.unit_type.is_none() && !s.drag.active);
    assert_eq!(s.evo.current_step, 4);
    // Without an overlay nothing happens.
    let next = victory_overlay_click(
        OverlayButton::Restart, &mut overlay, &mut s.current, &r, &mut s.grid, &mut s.zone, &mut s.res,
        &mut s.evo, &mut s.drag, &snap, &cfg,
    );
    assert_eq!(next, ScreenChange::Stay);
}

#[test]
fn trial_overlay_clicks() {
    let r = registry();
    let cfg = SimulatorDeployConfig { max_gliders: 5, max_lwss: 4 };
    let mut s = session();
    let mut defeat = GameplayDefeatOverlay { kind: Some(DefeatKind::Trial) };
    // Without a saved level the trial cannot restart.
    let empty = SimulatorSnapshot::default();
    let next = defeat_overlay_click(
        OverlayButton::Restart, &mut defeat, &mut s.current, &r, &mut s.grid, &mut s.zone, &mut s.res,
        &mut s.evo, &mut s.drag, &empty, &cfg,
    );
    assert_eq!(next, ScreenChange::Stay);
    assert_eq!(defeat.kind, Some(DefeatKind::Trial));
    // With one it starts over.
    let mut saved = Grid::new(4, 4);
    saved.set(GridCoord::new(3, 3), CellType::Bomb);
    let snap = SimulatorSnapshot { grid: Some(saved.snapshot()), zone: Some(vec![GridCoord::new(2, 2)]) };
    let next = defeat_overlay_click(
        OverlayButton::Restart, &mut defeat, &mut s.current, &r, &mut s.grid, &mut s.zone, &mut s.res,
        &mut s.evo, &mut s.drag, &snap, &cfg,
    );
    assert_eq!(next, ScreenChange::Simulator(SimulatorState::DeploymentTest));
    assert!(defeat.kind.is_none());
    assert_eq!(s.grid.get(GridCoord::new(3, 3)), CellType::Bomb);
    assert_eq!(s.zone.zone, vec![GridCoord::new(2, 2)]);
    assert_eq!((s.res.remaining_gliders, s.res.remaining_lwss, s.res.deployed_this_round), (5, 4, false));
    assert_eq!((s.evo.current_step, s.evo.is_paused), (0, true));
    // "Back" on a trial's victory returns to the editor.
    let mut victory = GameplayVictoryOverlay { kind: Some(VictoryKind::Trial) };
    s.evo.current_step = 7;
    s.evo.is_paused = false;
    let next = victory_overlay_click(
        OverlayButton::Back, &mut victory, &mut s.current, &r, &mut s.grid, &mut s.zone, &mut s.res,
        &mut s.evo, &mut s.drag, &snap, &cfg,
    );
    assert_eq!(next, ScreenChange::Simulator(SimulatorState::Editing));
    assert_eq!((s.evo.current_step, s.evo.is_paused), (0, true));
    assert!(victory.kind.is_none());
    // restart_trial on its own.
    let mut victory = GameplayVictoryOverlay { kind: Some(VictoryKind::Trial) };
    assert_eq!(
        restart_trial(&mut victory, &snap, &mut s.grid, &mut s.zone, &mut s.res, &cfg, &mut s.evo, &mut s.drag),
        Some(SimulatorState::DeploymentTest)
    );
    assert!(victory.kind.is_none());
}

#[test]
fn defeat_on_a_level_restarts_it() {
    let r = registry();
    let mut s = session();
    let mut defeat = GameplayDefeatOverlay { kind: Some(DefeatKind::Level) };
    let next = defeat_overlay_click(
        OverlayButton::Restart, &mut defeat, &mut s.current, &r, &mut s.grid, &mut s.zone, &mut s.res,
        &mut s.evo, &mut s.drag, &SimulatorSnapshot::default(), &SimulatorDeployConfig::default(),
    );
    assert_eq!(next, ScreenChange::Game(AppState::Deployment));
    assert!(defeat.kind.is_none());
    assert_started(&s, "level_01", &level("level_01", 8, 6));
}

#[test]
fn overlay_keeps_the_evolution_paused() {
    let mut evo = EvolutionConfig { steps_per_deployment: 10, current_step: 3, is_paused: false };
    hold_pause_under_overlay(AppState::Deployment, SimulatorState::Editing, &mut evo);
    assert!(!evo.is_paused);
    hold_pause_under_overlay(AppState::Simulator, SimulatorState::TrialPlay, &mut evo);
    assert!(evo.is_paused);
    let mut evo2 = EvolutionConfig { steps_per_deployment: 10, current_step: 3, is_paused: false };
    hold_pause_under_overlay(AppState::Evolution, SimulatorState::Editing, &mut evo2);
    assert!(evo2.is_paused);
    assert_eq!(evo2.current_step, 3);
}

#[test]
fn level_selection_lists_and_opens_unlocked_levels() {
    let mut r = registry();
    r.ordered_ids.push("ghost".to_string()); // an id the registry cannot find
    r.levels.push(level("other", 2, 2));
    let mut save = SaveData::default();
    save.completed_levels.push("level_02".to_string());
    let entries = level_select_entries(&r, &save);
    assert_eq!(entries.len(), 2);
    assert_eq!((entries[0].index, entries[0].unlocked, entries[0].completed), (0, true, false));
    assert_eq!((entries[1].index, entries[1].unlocked, entries[1].completed), (1, false, true));

    let mut cur = CurrentLevelId(None);
    let mut grid = Grid::new(1, 1);
    let mut evo = EvolutionConfig::default();
    let mut res = DeploymentResources::default();
    // A locked level does not open.
    assert_eq!(select_level(1, &r, &save, &mut cur, &mut grid, &mut evo, &mut res), None);
    assert!(cur.0.is_none());
    assert_eq!(select_level(9, &r, &save, &mut cur, &mut grid, &mut evo, &mut res), None);
    assert_eq!(select_level(0, &r, &save, &mut cur, &mut grid, &mut evo, &mut res), Some(AppState::Deployment));
    assert_eq!(cur.0.as_deref(), Some("level_01"));
    assert_eq!((grid.width, grid.height), (8, 6));
    assert_eq!((evo.steps_per_deployment, evo.current_step, evo.is_paused), (120, 0, true));
    assert_eq!((res.remaining_gliders, res.remaining_lwss, res.deployed_this_round), (3, 1, false));
}

#[test]
fn entering_deployment_takes_the_level_zone() {
    let r = registry();
    let mut drag = session().drag;
    let mut zone = DeploymentZoneData { zone: vec![GridCoord::new(7, 7)] };
    enter_deployment(&mut drag, &mut zone, &CurrentLevelId(Some("level_02".to_string())), &r);
    assert_eq!(zone.zone, vec![GridCoord::new(1, 1), GridCoord::new(2, 1)]);
    assert!(drag.unit_type.is_none() && drag.current_pos.is_none() && drag.phase == DeployPhase::Idle);
    assert!(drag.active);
    enter_deployment(&mut drag, &mut zone, &CurrentLevelId(None), &r);
    assert!(zone.zone.is_empty());
}

#[test]
fn judgment_outcomes() {
    let r = registry();
    let mut g = Grid::new(4, 4);
    assert_eq!(enter_judgment(&g), JudgmentResult::Victory);
    g.set(GridCoord::new(1, 1), CellType::HighValue);
    assert_eq!(enter_judgment(&g), JudgmentResult::ContinueDeploy);

    let cur = CurrentLevelId(Some("level_01".to_string()));
    let mut save = SaveData::default();
    let mut victory = GameplayVictoryOverlay::default();
    let mut defeat = GameplayDefeatOverlay::default();
    let mut evo = EvolutionConfig::default();
    let with_units = DeploymentResources { remaining_gliders: 1, remaining_lwss: 0, deployed_this_round: true };
    let none_left = DeploymentResources { remaining_gliders: 0, remaining_lwss: 0, deployed_this_round: true };

    let mut j = CurrentJudgment(None);
    assert_eq!(
        judgment_system(&mut j, &with_units, &cur, &mut save, &r, &mut victory, &mut defeat, &mut evo),
        None
    );

    let mut j = CurrentJudgment(Some(JudgmentResult::ContinueDeploy));
    assert_eq!(
        judgment_system(&mut j, &with_units, &cur, &mut save, &r, &mut victory, &mut defeat, &mut evo),
        Some(AppState::Deployment)
    );
    assert!(j.0.is_none() && victory.kind.is_none() && defeat.kind.is_none());

    let mut j = CurrentJudgment(Some(JudgmentResult::ContinueDeploy));
    assert_eq!(
        judgment_system(&mut j, &none_left, &cur, &mut save, &r, &mut victory, &mut defeat, &mut evo),
        Some(AppState::Evolution)
    );
    assert_eq!(defeat.kind, Some(DefeatKind::Level));
    assert!(evo.is_paused);

    let mut j = CurrentJudgment(Some(JudgmentResult::Victory));
    let mut evo = EvolutionConfig::default();
    assert_eq!(
        judgment_system(&mut j, &none_left, &cur, &mut save, &r, &mut victory, &mut defeat, &mut evo),
        Some(AppState::Evolution)
    );
    assert_eq!(victory.kind, Some(VictoryKind::Level { has_next_level: true }));
    assert!(save.unlocked_levels.contains(&"level_02".to_string()));
    assert!(save.completed_levels.contains(&"level_01".to_string()));
    assert!(evo.is_paused);
}

fn hv_board() -> Grid {
    // A high-value target touched by a red block from the first step on.
    let mut g = Grid::new(10, 10);
    g.set(GridCoord::new(5, 5), CellType::HighValue);
    for (x, y) in [(3, 3), (4, 3), (3, 4), (4, 4)] {
        g.set(GridCoord::new(x, y), red());
    }
    g
}

#[test]
fn fast_forward_stops_at_victory() {
    let mut g = hv_board();
    let mut evo = EvolutionConfig { steps_per_deployment: 50, current_step: 10, is_paused: false };
    match fast_forward_current_round(&mut g, &mut evo) {
        RoundEvolutionResult::Victory { destroyed_high_values } => {
            assert_eq!(destroyed_high_values, vec![GridCoord::new(5, 5)]);
        },
        RoundEvolutionResult::StepLimitReached => panic!("the target is touched"),
    }
    assert_eq!(evo.current_step, 11);
    assert!(evo.is_paused);
    assert_eq!(g.get(GridCoord::new(5, 5)), CellType::Empty);
}

#[test]
fn fast_forward_runs_out_of_steps() {
    let mut g = Grid::new(10, 10);
    g.set(GridCoord::new(8, 8), CellType::HighValue);
    let mut evo = EvolutionConfig { steps_per_deployment: 6, current_step: 2, is_paused: false };
    assert!(matches!(fast_forward_current_round(&mut g, &mut evo), RoundEvolutionResult::StepLimitReached));
    assert_eq!(evo.current_step, 6);
    assert!(evo.is_paused);
}

#[test]
fn evolution_ticks() {
    let mut g = Grid::new(10, 10);
    g.set(GridCoord::new(8, 8), CellType::HighValue);
    let mut evo = EvolutionConfig { steps_per_deployment: 2, current_step: 0, is_paused: false };
    let t = advance_evolution(&mut g, &mut evo);
    assert_eq!(t.outcome, TickOutcome::Continue);
    assert!(!evo.is_paused);
    let r = registry();
    let cur = CurrentLevelId(Some("level_01".to_string()));
    let mut save = SaveData::default();
    let mut pending = PendingVictory::default();
    let mut victory = GameplayVictoryOverlay::default();
    let (t, verdict) = level_evolution_tick(&mut g, &mut evo, &mut pending, &mut victory, &cur, &mut save, &r);
    assert_eq!(t.outcome, TickOutcome::StepLimitReached);
    assert_eq!(verdict, Some(JudgmentResult::ContinueDeploy));
    assert!(evo.is_paused);

    // A step that destroys the last target makes the victory wait for its effects.
    let mut g = hv_board();
    let mut evo = EvolutionConfig { steps_per_deployment: 20, current_step: 0, is_paused: false };
    let (t, verdict) = level_evolution_tick(&mut g, &mut evo, &mut pending, &mut victory, &cur, &mut save, &r);
    assert_eq!(t.outcome, TickOutcome::Victory);
    assert_eq!(t.destroyed_high_values, vec![GridCoord::new(5, 5)]);
    assert!(verdict.is_none());
    assert_eq!(pending.kind, Some(PendingVictoryKind::Level));
    assert!(pending.settling);
    assert!(victory.kind.is_none());
}

#[test]
fn trial_round_end_without_units_is_a_defeat() {
    let r = registry();
    let cur = CurrentLevelId(None);
    let mut save = SaveData::default();
    let mut pending = PendingVictory::default();
    let mut victory = GameplayVictoryOverlay::default();
    let mut defeat = GameplayDefeatOverlay::default();
    let mut g = Grid::new(6, 6);
    g.set(GridCoord::new(5, 5), CellType::HighValue);
    let mut evo = EvolutionConfig { steps_per_deployment: 1, current_step: 0, is_paused: false };
    let mut res = DeploymentResources { remaining_gliders: 0, remaining_lwss: 0, deployed_this_round: true };
    let (t, next) = trial_evolution_tick(
        &mut g, &mut evo, &mut res, &mut pending, &mut victory, &mut defeat, &cur, &mut save, &r,
    );
    assert_eq!(t.outcome, TickOutcome::StepLimitReached);
    assert_eq!(next, None);
    assert_eq!(defeat.kind, Some(DefeatKind::Trial));

    let mut defeat = GameplayDefeatOverlay::default();
    let mut res = DeploymentResources { remaining_gliders: 0, remaining_lwss: 2, deployed_this_round: true };
    assert_eq!(finish_trial_round(&mut res, &mut defeat), Some(SimulatorState::DeploymentTest));
    assert!(!res.deployed_this_round);
    assert!(defeat.kind.is_none());
}

#[test]
fn skipping_a_trial_round_returns_to_deployment() {
    let r = registry();
    let cur = CurrentLevelId(None);
    let mut save = SaveData::default();
    let mut pending = PendingVictory::default();
    let mut victory = GameplayVictoryOverlay::default();
    let mut g = Grid::new(6, 6);
    g.set(GridCoord::new(5, 5), CellType::HighValue);
    let mut evo = EvolutionConfig { steps_per_deployment: 4, current_step: 1, is_paused: false };
    let mut res = DeploymentResources { remaining_gliders: 0, remaining_lwss: 0, deployed_this_round: true };
    let report = skip_evolution(false, &mut g, &mut evo, &mut pending, &mut victory, &cur, &mut save, &r, &mut res);
    assert_eq!(report.simulator, Some(SimulatorState::DeploymentTest));
    assert!(report.judgment.is_none());
    assert!(!res.deployed_this_round);
    assert_eq!(evo.current_step, 4);

    // In a level, a won round with a touched target waits for the effects.
    let mut g = hv_board();
    let mut evo = EvolutionConfig { steps_per_deployment: 4, current_step: 0, is_paused: false };
    let report = skip_evolution(true, &mut g, &mut evo, &mut pending, &mut victory, &cur, &mut save, &r, &mut res);
    assert_eq!(report.destroyed_high_values, vec![GridCoord::new(5, 5)]);
    assert_eq!(pending.kind, Some(PendingVictoryKind::Level));
}

#[test]
fn evolution_gates() {
    let pending = PendingVictory::default();
    let victory = GameplayVictoryOverlay::default();
    let defeat = GameplayDefeatOverlay::default();
    let running = EvolutionConfig { steps_per_deployment: 3, current_step: 0, is_paused: false };
    assert!(level_evolution_runs(AppState::Evolution, &victory, &pending, &running));
    assert!(!level_evolution_runs(AppState::Deployment, &victory, &pending, &running));
    assert!(trial_evolution_runs(AppState::Simulator, SimulatorState::TrialPlay, &victory, &defeat, &pending, &running));
    let lost = GameplayDefeatOverlay { kind: Some(DefeatKind::Trial) };
    assert!(!trial_evolution_runs(AppState::Simulator, SimulatorState::TrialPlay, &victory, &lost, &pending, &running));
    assert!(skip_allowed(AppState::Simulator, SimulatorState::TrialPlay, &victory, &pending, &running));
    let mut waiting = PendingVictory::default();
    waiting.schedule(PendingVictoryKind::Trial);
    assert!(!skip_allowed(AppState::Evolution, SimulatorState::Editing, &victory, &waiting, &running));
    let mut evo = EvolutionConfig { steps_per_deployment: 3, current_step: 2, is_paused: true };
    enter_evolution(&mut evo, &mut waiting);
    assert_eq!((evo.current_step, evo.is_paused), (0, false));
    assert!(!waiting.is_pending());
}

#[test]
fn pending_victory_settles_when_the_delay_ends() {
    let r = registry();
    let cur = CurrentLevelId(Some("level_01".to_string()));
    let mut save = SaveData::default();
    let mut overlay = GameplayVictoryOverlay::default();
    let mut pending = PendingVictory::default();
    resolve_high_value_victory(
        &[GridCoord::new(1, 1)], &mut pending, &mut overlay, PendingVictoryKind::Level, &cur, &mut save, &r,
    );
    assert!(pending.is_pending() && overlay.kind.is_none());
    assert!(!settle_pending_victory(&mut pending, false, &mut overlay, &cur, &mut save, &r));
    assert!(pending.is_pending());
    assert!(settle_pending_victory(&mut pending, true, &mut overlay, &cur, &mut save, &r));
    assert!(!pending.is_pending());
    assert_eq!(overlay.kind, Some(VictoryKind::Level { has_next_level: true }));
    assert_eq!(save.completed_levels, vec!["level_01".to_string()]);

    // With nothing destroyed in the last step, a trial's victory shows at once.
    let mut overlay = GameplayVictoryOverlay::default();
    resolve_high_value_victory(&[], &mut pending, &mut overlay, PendingVictoryKind::Trial, &cur, &mut save, &r);
    assert_eq!(overlay.kind, Some(VictoryKind::Trial));
    assert!(!pending.is_pending());
}

#[test]
fn overlays_block_input() {
    let mut victory = GameplayVictoryOverlay::default();
    let mut defeat = GameplayDefeatOverlay::default();
    assert!(!any_gameplay_overlay_active(&victory, &defeat));
    trigger_trial_defeat(&mut defeat);
    assert!(GameplayOverlayState { victory: &victory, defeat: &defeat }.blocks_input());
    defeat.clear();
    trigger_level_defeat(&mut defeat);
    assert_eq!(defeat.kind, Some(DefeatKind::Level));
    defeat.clear();
    trigger_trial_victory(&mut victory);
    assert!(victory.is_active());
    assert!(any_gameplay_overlay_active(&victory, &defeat));
    victory.clear();
    assert!(!GameplayOverlayState { victory: &victory, defeat: &defeat }.blocks_input());
}

#[test]
fn simulator_trial_round_trip() {
    let mut grid = Grid::new(5, 5);
    grid.set(GridCoord::new(2, 2), CellType::Wall);
    let mut zone = DeploymentZoneData { zone: vec![GridCoord::new(0, 0)] };
    let cfg = SimulatorDeployConfig { max_gliders: 2, max_lwss: 1 };
    let mut snap = SimulatorSnapshot::default();
    let mut brush = ZoneBrushConfig { active: true, size: 3 };
    let mut res = DeploymentResources::default();
    let mut evo = EvolutionConfig { steps_per_deployment: 8, current_step: 5, is_paused: false };
    let mut drag = session().drag;
    let next = enter_trial(&grid, &zone, &cfg, &mut snap, &mut brush, &mut res, &mut evo, &mut drag);
    assert_eq!(next, SimulatorState::DeploymentTest);
    assert!(!brush.active && brush.size == 3);
    assert_eq!((res.remaining_gliders, res.remaining_lwss), (2, 1));
    assert_eq!((evo.current_step, evo.is_paused), (0, true));

    // Play changes the grid and zone; returning to the editor brings them back.
    grid.set(GridCoord::new(2, 2), CellType::Empty);
    grid.set(GridCoord::new(4, 4), red());
    zone.zone.clear();
    assert!(restore_simulator_editing_snapshot(&mut snap, &mut grid, &mut zone, &mut evo, &mut drag));
    assert_eq!(grid.get(GridCoord::new(2, 2)), CellType::Wall);
    assert_eq!(grid.get(GridCoord::new(4, 4)), CellType::Empty);
    assert_eq!(zone.zone, vec![GridCoord::new(0, 0)]);
    assert!(snap.grid.is_none() && snap.zone.is_none());
    // Nothing more to restore.
    assert!(!restore_simulator_editing_snapshot(&mut snap, &mut grid, &mut zone, &mut evo, &mut drag));

    let mut pending = PendingVictory::default();
    pending.schedule(PendingVictoryKind::Trial);
    let mut defeat = GameplayDefeatOverlay { kind: Some(DefeatKind::Trial) };
    snap.grid = Some(grid.snapshot());
    enter_simulator(&mut grid, &mut snap, &mut pending, &mut defeat);
    assert!(grid.cells.iter().flatten().all(|c| *c == CellType::Empty));
    assert!(snap.grid.is_none() && !pending.is_pending() && defeat.kind.is_none());
}

#[test]
fn trial_snapshot_is_applied_and_kept() {
    let mut saved = Grid::new(3, 3);
    saved.set(GridCoord::new(0, 2), CellType::HighValue);
    let snap = SimulatorSnapshot { grid: Some(saved.snapshot()), zone: None };
    let mut grid = Grid::new(6, 6);
    let mut zone = DeploymentZoneData { zone: vec![GridCoord::new(5, 5)] };
    assert!(apply_trial_snapshot(&snap, &mut grid, &mut zone));
    assert_eq!(grid.width, 3);
    assert_eq!(grid.get(GridCoord::new(0, 2)), CellType::HighValue);
    assert_eq!(zone.zone, vec![GridCoord::new(5, 5)]);
    assert!(snap.grid.is_some());
    assert!(!apply_trial_snapshot(&SimulatorSnapshot::default(), &mut grid, &mut zone));
}

#[test]
fn placing_a_unit_starts_the_evolution() {
    let mut evo = EvolutionConfig { steps_per_deployment: 40, current_step: 12, is_paused: true };
    assert_eq!(begin_evolution_after_deploy(true, &mut evo), ScreenChange::Game(AppState::Evolution));
    assert_eq!((evo.current_step, evo.is_paused), (12, true));
    assert_eq!(
        begin_evolution_after_deploy(false, &mut evo),
        ScreenChange::Simulator(SimulatorState::TrialPlay)
    );
    assert_eq!((evo.steps_per_deployment, evo.current_step, evo.is_paused), (40, 0, false));
}
