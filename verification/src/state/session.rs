use vstd::prelude::*;

use crate::grid::board::Grid;
use crate::level::data::{LevelData, SaveData};
use crate::level::loader::{LevelRegistry, last_with_id};
use crate::player::deploy::{DragDeployState, drag_reset};
use crate::player::resources::DeploymentResources;
use crate::state::config::{
    AppState, CurrentLevelId, DeploymentZoneData, EvolutionConfig, SimulatorDeployConfig, SimulatorSnapshot,
    SimulatorState, copy_coords,
};
use crate::state::deployment::{level_board, load_level_to_grid};
use crate::state::victory::{
    DefeatKind, GameplayDefeatOverlay, GameplayVictoryOverlay, VictoryKind, apply_trial_snapshot, holds,
    lemma_first_pos_from, next_level_id, position_of, views,
};

verus! {

/// The state of a level session that has just started on level `id` with the level's data:
/// the level is current, its grid and zone are loaded, the player has its units, the
/// evolution waits at step zero, and no unit is being deployed.
pub open spec fn session_started(
    id: Seq<char>,
    data: LevelData,
    current: CurrentLevelId,
    grid: Grid,
    zone: DeploymentZoneData,
    res: DeploymentResources,
    evo: EvolutionConfig,
    drag: DragDeployState,
) -> bool {
    &&& current.0 matches Some(s) && s@ == id
    &&& grid.wf()
    &&& grid@ == level_board(data)
    &&& zone.zone@ == data.deployment_zone@
    &&& res.remaining_gliders == data.max_gliders
    &&& res.remaining_lwss == data.max_lwss
    &&& !res.deployed_this_round
    &&& evo.steps_per_deployment == data.evolution_steps
    &&& evo.current_step == 0
    &&& evo.is_paused
    &&& drag_reset(drag)
}

/// The state of a simulator trial that has just been restarted: the player has the configured
/// units again, the evolution waits at step zero, and no unit is being deployed.
pub open spec fn trial_restarted(
    config: SimulatorDeployConfig,
    res: DeploymentResources,
    evo_before: EvolutionConfig,
    evo: EvolutionConfig,
    drag: DragDeployState,
) -> bool {
    &&& res.remaining_gliders == config.max_gliders
    &&& res.remaining_lwss == config.max_lwss
    &&& !res.deployed_this_round
    &&& evo.current_step == 0
    &&& evo.is_paused
    &&& evo.steps_per_deployment == evo_before.steps_per_deployment
    &&& drag_reset(drag)
}

/// The level a restart starts: the current level, when the registry knows it (its id and the
/// level registered last under that id).
pub open spec fn restart_target(current: Option<String>, registry: LevelRegistry) -> Option<(Seq<char>, LevelData)> {
    match current {
        Some(id) => match last_with_id(registry.levels@, id@) {
            Some(i) => Some((id@, registry.levels@[i])),
            None => None,
        },
        None => None,
    }
}

/// The level "next level" starts: the one after the current level in the registry's order,
/// when there is one and the registry knows it.
pub open spec fn next_target(current: Option<String>, registry: LevelRegistry) -> Option<(Seq<char>, LevelData)> {
    match current {
        Some(id) => match next_level_id(views(registry.ordered_ids@), id@) {
            Some(nid) => match last_with_id(registry.levels@, nid) {
                Some(i) => Some((nid, registry.levels@[i])),
                None => None,
            },
            None => None,
        },
        None => None,
    }
}

/// Nothing of a level session changed.
pub open spec fn session_kept(
    current: (CurrentLevelId, CurrentLevelId),
    grid: (Grid, Grid),
    zone: (DeploymentZoneData, DeploymentZoneData),
    res: (DeploymentResources, DeploymentResources),
    evo: (EvolutionConfig, EvolutionConfig),
    drag: (DragDeployState, DragDeployState),
) -> bool {
    &&& current.1 == current.0
    &&& grid.1 == grid.0
    &&& zone.1.zone@ == zone.0.zone@
    &&& res.1 == res.0
    &&& evo.1 == evo.0
    &&& drag.1 == drag.0
}

/// Starts a session on a level: makes it current, loads its grid and deployment zone, gives
/// the player its units, resets the evolution (paused at step zero, with the level's steps per
/// deployment) and the deployment. The session starts with deployment.
pub fn load_level_session(
    level_id: &str,
    data: &LevelData,
    current_level_id: &mut CurrentLevelId,
    grid: &mut Grid,
    zone_data: &mut DeploymentZoneData,
    deploy_res: &mut DeploymentResources,
    evo_config: &mut EvolutionConfig,
    drag_state: &mut DragDeployState,
) -> (next: AppState)
    ensures
        next == AppState::Deployment,
        session_started(level_id@, *data, *final(current_level_id), *final(grid), *final(zone_data),
            *final(deploy_res), *final(evo_config), *final(drag_state)),
{
    current_level_id.0 = Some(level_id.to_owned());
    load_level_to_grid(grid, data);
    zone_data.zone = copy_coords(data.deployment_zone.as_slice());
    deploy_res.remaining_gliders = data.max_gliders;
    deploy_res.remaining_lwss = data.max_lwss;
    deploy_res.deployed_this_round = false;
    evo_config.steps_per_deployment = data.evolution_steps;
    evo_config.current_step = 0;
    evo_config.is_paused = true;
    *drag_state = DragDeployState::default();
    AppState::Deployment
}

/// Starts the current level over, when there is a current level and the registry knows it.
/// Returns the state to move to, or `None`, changing nothing, otherwise.
fn reload_current_level(
    current_level_id: &mut CurrentLevelId,
    registry: &LevelRegistry,
    grid: &mut Grid,
    zone_data: &mut DeploymentZoneData,
    deploy_res: &mut DeploymentResources,
    evo_config: &mut EvolutionConfig,
    drag_state: &mut DragDeployState,
) -> (next: Option<AppState>)
    ensures
        next is Some == restart_target(old(current_level_id).0, *registry) is Some,
        restart_target(old(current_level_id).0, *registry) matches Some((id, data)) ==> next
            == Some(AppState::Deployment) && session_started(id, data, *final(current_level_id), *final(grid),
            *final(zone_data), *final(deploy_res), *final(evo_config), *final(drag_state)),
        next is None ==> session_kept(
            (*old(current_level_id), *final(current_level_id)), (*old(grid), *final(grid)),
            (*old(zone_data), *final(zone_data)), (*old(deploy_res), *final(deploy_res)),
            (*old(evo_config), *final(evo_config)), (*old(drag_state), *final(drag_state))),
{
    let id = match &current_level_id.0 {
        Some(id) => id.clone(),
        None => return None,
    };
    let data = match registry.get(id.as_str()) {
        Some(d) => d,
        None => return None,
    };
    Some(load_level_session(id.as_str(), data, current_level_id, grid, zone_data, deploy_res, evo_config, drag_state))
}

/// "Restart" on a level's victory: closes the overlay and starts the current level over.
/// Without a current level known to the registry nothing happens and the result is `None`.
pub fn restart_current_level(
    victory_overlay: &mut GameplayVictoryOverlay,
    current_level_id: &mut CurrentLevelId,
    registry: &LevelRegistry,
    grid: &mut Grid,
    zone_data: &mut DeploymentZoneData,
    deploy_res: &mut DeploymentResources,
    evo_config: &mut EvolutionConfig,
    drag_state: &mut DragDeployState,
) -> (next: Option<AppState>)
    ensures
        next is Some == restart_target(old(current_level_id).0, *registry) is Some,
        restart_target(old(current_level_id).0, *registry) matches Some((id, data)) ==> next
            == Some(AppState::Deployment) && final(victory_overlay).kind is None && session_started(id, data,
            *final(current_level_id), *final(grid), *final(zone_data), *final(deploy_res), *final(evo_config),
            *final(drag_state)),
        next is None ==> final(victory_overlay).kind == old(victory_overlay).kind && session_kept(
            (*old(current_level_id), *final(current_level_id)), (*old(grid), *final(grid)),
            (*old(zone_data), *final(zone_data)), (*old(deploy_res), *final(deploy_res)),
            (*old(evo_config), *final(evo_config)), (*old(drag_state), *final(drag_state))),
{
    let next = reload_current_level(current_level_id, registry, grid, zone_data, deploy_res, evo_config, drag_state);
    if next.is_some() {
        victory_overlay.clear();
    }
    next
}

/// Starts the level after the current one in the registry's order, when there is one and the
/// registry knows it. Returns the state to move to, or `None`, changing nothing, otherwise.
fn start_next_level(
    current_level_id: &mut CurrentLevelId,
    registry: &LevelRegistry,
    grid: &mut Grid,
    zone_data: &mut DeploymentZoneData,
    deploy_res: &mut DeploymentResources,
    evo_config: &mut EvolutionConfig,
    drag_state: &mut DragDeployState,
) -> (next: Option<AppState>)
    ensures
        next is Some == next_target(old(current_level_id).0, *registry) is Some,
        next_target(old(current_level_id).0, *registry) matches Some((id, data)) ==> next
            == Some(AppState::Deployment) && session_started(id, data, *final(current_level_id), *final(grid),
            *final(zone_data), *final(deploy_res), *final(evo_config), *final(drag_state)),
        next is None ==> session_kept(
            (*old(current_level_id), *final(current_level_id)), (*old(grid), *final(grid)),
            (*old(zone_data), *final(zone_data)), (*old(deploy_res), *final(deploy_res)),
            (*old(evo_config), *final(evo_config)), (*old(drag_state), *final(drag_state))),
{
    let current_id = match &current_level_id.0 {
        Some(id) => id.clone(),
        None => return None,
    };
    let ghost ids = views(registry.ordered_ids@);
    proof {
        lemma_first_pos_from(ids, current_id@, 0);
    }
    let idx = match position_of(&registry.ordered_ids, &current_id) {
        Some(i) => i,
        None => return None,
    };
    assert(ids.len() == registry.ordered_ids@.len());
    let n = registry.ordered_ids.len();
    if idx + 1 >= n {
        return None;
    }
    let next_id = registry.ordered_ids[idx + 1].clone();
    assert(ids[idx + 1] == next_id@);
    let data = match registry.get(next_id.as_str()) {
        Some(d) => d,
        None => return None,
    };
    Some(load_level_session(next_id.as_str(), data, current_level_id, grid, zone_data, deploy_res, evo_config, drag_state))
}

/// "Next level" on a level's victory: closes the overlay and starts the level after the
/// current one in the registry's order. When there is no current level, no level after it, or
/// the registry does not know that level, nothing happens and the result is `None`.
pub fn go_next_level(
    victory_overlay: &mut GameplayVictoryOverlay,
    current_level_id: &mut CurrentLevelId,
    registry: &LevelRegistry,
    grid: &mut Grid,
    zone_data: &mut DeploymentZoneData,
    deploy_res: &mut DeploymentResources,
    evo_config: &mut EvolutionConfig,
    drag_state: &mut DragDeployState,
) -> (next: Option<AppState>)
    ensures
        next is Some == next_target(old(current_level_id).0, *registry) is Some,
        next_target(old(current_level_id).0, *registry) matches Some((id, data)) ==> next
            == Some(AppState::Deployment) && final(victory_overlay).kind is None && session_started(id, data,
            *final(current_level_id), *final(grid), *final(zone_data), *final(deploy_res), *final(evo_config),
            *final(drag_state)),
        next is None ==> final(victory_overlay).kind == old(victory_overlay).kind && session_kept(
            (*old(current_level_id), *final(current_level_id)), (*old(grid), *final(grid)),
            (*old(zone_data), *final(zone_data)), (*old(deploy_res), *final(deploy_res)),
            (*old(evo_config), *final(evo_config)), (*old(drag_state), *final(drag_state))),
{
    let next = start_next_level(current_level_id, registry, grid, zone_data, deploy_res, evo_config, drag_state);
    if next.is_some() {
        victory_overlay.clear();
    }
    next
}

/// Starts a simulator trial over from the level saved when it began, when one was saved: the
/// grid and zone come back, the player gets the configured units, the evolution is reset and
/// paused, and the trial returns to deployment. Returns `false`, changing nothing, otherwise.
fn reset_trial(
    snapshot: &SimulatorSnapshot,
    grid: &mut Grid,
    zone_data: &mut DeploymentZoneData,
    deploy_res: &mut DeploymentResources,
    deploy_config: &SimulatorDeployConfig,
    evo_config: &mut EvolutionConfig,
    drag_state: &mut DragDeployState,
) -> (done: bool)
    ensures
        done == snapshot.grid is Some,
        done ==> final(grid)@ == snapshot.grid->0@ && final(zone_data).zone@ == match snapshot.zone {
            Some(z) => z@,
            None => old(zone_data).zone@,
        } && trial_restarted(*deploy_config, *final(deploy_res), *old(evo_config), *final(evo_config),
            *final(drag_state)),
        !done ==> *final(grid) == *old(grid) && final(zone_data).zone@ == old(zone_data).zone@
            && *final(deploy_res) == *old(deploy_res) && *final(evo_config) == *old(evo_config)
            && *final(drag_state) == *old(drag_state),
{
    if !apply_trial_snapshot(snapshot, grid, zone_data) {
        return false;
    }
    deploy_res.remaining_gliders = deploy_config.max_gliders;
    deploy_res.remaining_lwss = deploy_config.max_lwss;
    deploy_res.deployed_this_round = false;
    evo_config.current_step = 0;
    evo_config.is_paused = true;
    *drag_state = DragDeployState::default();
    true
}

/// "Restart" on a trial's victory: closes the overlay and starts the trial over from the saved
/// level (see `reset_trial`), going back to deployment. Without a saved level nothing happens
/// and the result is `None`.
pub fn restart_trial(
    victory_overlay: &mut GameplayVictoryOverlay,
    snapshot: &SimulatorSnapshot,
    grid: &mut Grid,
    zone_data: &mut DeploymentZoneData,
    deploy_res: &mut DeploymentResources,
    deploy_config: &SimulatorDeployConfig,
    evo_config: &mut EvolutionConfig,
    drag_state: &mut DragDeployState,
) -> (next: Option<SimulatorState>)
    ensures
        next is Some == snapshot.grid is Some,
        next is Some ==> next == Some(SimulatorState::DeploymentTest) && final(victory_overlay).kind is None
            && final(grid)@ == snapshot.grid->0@ && final(zone_data).zone@ == match snapshot.zone {
                Some(z) => z@,
                None => old(zone_data).zone@,
            } && trial_restarted(*deploy_config, *final(deploy_res), *old(evo_config), *final(evo_config),
            *final(drag_state)),
        next is None ==> final(victory_overlay).kind == old(victory_overlay).kind && *final(grid) == *old(grid)
            && final(zone_data).zone@ == old(zone_data).zone@ && *final(deploy_res) == *old(deploy_res)
            && *final(evo_config) == *old(evo_config) && *final(drag_state) == *old(drag_state),
{
    if !reset_trial(snapshot, grid, zone_data, deploy_res, deploy_config, evo_config, drag_state) {
        return None;
    }
    victory_overlay.clear();
    Some(SimulatorState::DeploymentTest)
}

/// A button of the victory or defeat overlay.
#[derive(Clone, Copy, PartialEq, Eq, Debug, Structural)]
pub enum OverlayButton {
    NextLevel,
    Restart,
    Back,
}

/// Where a click on an overlay leads.
#[derive(Clone, Copy, PartialEq, Eq, Debug, Structural)]
pub enum ScreenChange {
    /// Stay on the current screen.
    Stay,
    /// Move to another state of the game.
    Game(AppState),
    /// Move to another state of the simulator.
    Simulator(SimulatorState),
}

/// The buttons a victory overlay offers, top to bottom: a level's victory offers the next
/// level when there is one, then a restart and a way back; a trial's victory a restart and a
/// way back.
pub fn victory_overlay_buttons(kind: VictoryKind) -> (r: Vec<OverlayButton>)
    ensures
        r@ == match kind {
            VictoryKind::Level { has_next_level: true } => seq![OverlayButton::NextLevel, OverlayButton::Restart,
                OverlayButton::Back],
            _ => seq![OverlayButton::Restart, OverlayButton::Back],
        },
{
    match kind {
        VictoryKind::Level { has_next_level: true } => vec![OverlayButton::NextLevel, OverlayButton::Restart,
            OverlayButton::Back],
        _ => vec![OverlayButton::Restart, OverlayButton::Back],
    }
}

/// Leaving a trial for the editor: the unit being deployed is dropped and the evolution paused
/// at step zero.
fn leave_trial(evo_config: &mut EvolutionConfig, drag_state: &mut DragDeployState) -> (next: ScreenChange)
    ensures
        next == ScreenChange::Simulator(SimulatorState::Editing),
        drag_reset(*final(drag_state)),
        final(evo_config).is_paused,
        final(evo_config).current_step == 0,
        final(evo_config).steps_per_deployment == old(evo_config).steps_per_deployment,
{
    *drag_state = DragDeployState::default();
    evo_config.is_paused = true;
    evo_config.current_step = 0;
    ScreenChange::Simulator(SimulatorState::Editing)
}

/// What a click on an overlay button did, for an overlay over a level (`level`) or over a
/// trial, where a level's overlay offers the next level when `has_next`; `next` is where the
/// click leads. A click that leads nowhere changed nothing.
pub open spec fn overlay_click_done(
    level: bool,
    has_next: bool,
    button: OverlayButton,
    registry: LevelRegistry,
    snapshot: SimulatorSnapshot,
    config: SimulatorDeployConfig,
    current: (CurrentLevelId, CurrentLevelId),
    grid: (Grid, Grid),
    zone: (DeploymentZoneData, DeploymentZoneData),
    res: (DeploymentResources, DeploymentResources),
    evo: (EvolutionConfig, EvolutionConfig),
    drag: (DragDeployState, DragDeployState),
    next: ScreenChange,
) -> bool {
    let kept = session_kept(current, grid, zone, res, evo, drag);
    if level {
        match button {
            OverlayButton::NextLevel => if has_next {
                match next_target(current.0.0, registry) {
                    Some((id, data)) => next == ScreenChange::Game(AppState::Deployment)
                        && session_started(id, data, current.1, grid.1, zone.1, res.1, evo.1, drag.1),
                    None => next == ScreenChange::Stay && kept,
                }
            } else {
                next == ScreenChange::Stay && kept
            },
            OverlayButton::Restart => match restart_target(current.0.0, registry) {
                Some((id, data)) => next == ScreenChange::Game(AppState::Deployment)
                    && session_started(id, data, current.1, grid.1, zone.1, res.1, evo.1, drag.1),
                None => next == ScreenChange::Stay && kept,
            },
            OverlayButton::Back => next == ScreenChange::Game(AppState::LevelSelect) && drag_reset(drag.1)
                && session_kept(current, grid, zone, res, evo, (drag.1, drag.1)),
        }
    } else {
        match button {
            OverlayButton::Restart => match snapshot.grid {
                Some(g) => {
                    &&& next == ScreenChange::Simulator(SimulatorState::DeploymentTest)
                    &&& current.1 == current.0
                    &&& grid.1@ == g@
                    &&& zone.1.zone@ == match snapshot.zone {
                        Some(z) => z@,
                        None => zone.0.zone@,
                    }
                    &&& trial_restarted(config, res.1, evo.0, evo.1, drag.1)
                },
                None => next == ScreenChange::Stay && kept,
            },
            OverlayButton::Back => {
                &&& next == ScreenChange::Simulator(SimulatorState::Editing)
                &&& session_kept(current, grid, zone, res, (evo.1, evo.1), (drag.1, drag.1))
                &&& drag_reset(drag.1)
                &&& evo.1.is_paused
                &&& evo.1.current_step == 0
                &&& evo.1.steps_per_deployment == evo.0.steps_per_deployment
            },
            OverlayButton::NextLevel => next == ScreenChange::Stay && kept,
        }
    }
}

/// Acts on a click on an overlay button (see `overlay_click_done`); the caller closes the
/// overlay when the click leads somewhere.
fn overlay_click(
    level: bool,
    has_next: bool,
    button: OverlayButton,
    current_level_id: &mut CurrentLevelId,
    registry: &LevelRegistry,
    grid: &mut Grid,
    zone_data: &mut DeploymentZoneData,
    deploy_res: &mut DeploymentResources,
    evo_config: &mut EvolutionConfig,
    drag_state: &mut DragDeployState,
    snapshot: &SimulatorSnapshot,
    deploy_config: &SimulatorDeployConfig,
) -> (next: ScreenChange)
    ensures
        overlay_click_done(level, has_next, button, *registry, *snapshot, *deploy_config,
            (*old(current_level_id), *final(current_level_id)), (*old(grid), *final(grid)),
            (*old(zone_data), *final(zone_data)), (*old(deploy_res), *final(deploy_res)),
            (*old(evo_config), *final(evo_config)), (*old(drag_state), *final(drag_state)), next),
{
    if level {
        match button {
            OverlayButton::NextLevel => {
                if !has_next {
                    return ScreenChange::Stay;
                }
                match start_next_level(current_level_id, registry, grid, zone_data, deploy_res, evo_config,
                    drag_state) {
                    Some(st) => ScreenChange::Game(st),
                    None => ScreenChange::Stay,
                }
            },
            OverlayButton::Restart => {
                match reload_current_level(current_level_id, registry, grid, zone_data, deploy_res, evo_config,
                    drag_state) {
                    Some(st) => ScreenChange::Game(st),
                    None => ScreenChange::Stay,
                }
            },
            OverlayButton::Back => {
                *drag_state = DragDeployState::default();
                ScreenChange::Game(AppState::LevelSelect)
            },
        }
    } else {
        match button {
            OverlayButton::Restart => {
                if reset_trial(snapshot, grid, zone_data, deploy_res, deploy_config, evo_config, drag_state) {
                    ScreenChange::Simulator(SimulatorState::DeploymentTest)
                } else {
                    ScreenChange::Stay
                }
            },
            OverlayButton::Back => leave_trial(evo_config, drag_state),
            OverlayButton::NextLevel => ScreenChange::Stay,
        }
    }
}

/// A click on a button of the victory overlay: on a level's victory, "next level" starts the
/// next level, "restart" the current one, "back" returns to the level selection; on a trial's
/// victory, "restart" starts the trial over and "back" returns to the editor (see
/// `overlay_click_done`). The overlay closes when the click leads somewhere; without an
/// overlay nothing happens.
pub fn victory_overlay_click(
    button: OverlayButton,
    victory_overlay: &mut GameplayVictoryOverlay,
    current_level_id: &mut CurrentLevelId,
    registry: &LevelRegistry,
    grid: &mut Grid,
    zone_data: &mut DeploymentZoneData,
    deploy_res: &mut DeploymentResources,
    evo_config: &mut EvolutionConfig,
    drag_state: &mut DragDeployState,
    snapshot: &SimulatorSnapshot,
    deploy_config: &SimulatorDeployConfig,
) -> (next: ScreenChange)
    ensures
        match old(victory_overlay).kind {
            None => next == ScreenChange::Stay,
            Some(kind) => overlay_click_done(kind is Level, kind == VictoryKind::Level { has_next_level: true }, button,
                *registry, *snapshot, *deploy_config, (*old(current_level_id), *final(current_level_id)),
                (*old(grid), *final(grid)), (*old(zone_data), *final(zone_data)),
                (*old(deploy_res), *final(deploy_res)), (*old(evo_config), *final(evo_config)),
                (*old(drag_state), *final(drag_state)), next),
        },
        next == ScreenChange::Stay ==> final(victory_overlay).kind == old(victory_overlay).kind && session_kept(
            (*old(current_level_id), *final(current_level_id)), (*old(grid), *final(grid)),
            (*old(zone_data), *final(zone_data)), (*old(deploy_res), *final(deploy_res)),
            (*old(evo_config), *final(evo_config)), (*old(drag_state), *final(drag_state))),
        next != ScreenChange::Stay ==> final(victory_overlay).kind is None,
{
    let (level, has_next) = match victory_overlay.kind {
        None => return ScreenChange::Stay,
        Some(VictoryKind::Level { has_next_level }) => (true, has_next_level),
        Some(VictoryKind::Trial) => (false, false),
    };
    let next = overlay_click(level, has_next, button, current_level_id, registry, grid, zone_data, deploy_res,
        evo_config, drag_state, snapshot, deploy_config);
    if next != ScreenChange::Stay {
        victory_overlay.clear();
    }
    next
}

/// A click on a button of the defeat overlay: on a level's defeat, "restart" starts the
/// current level over and "back" returns to the level selection; on a trial's defeat,
/// "restart" starts the trial over and "back" returns to the editor (see
/// `overlay_click_done`). The overlay closes when the click leads somewhere; without an
/// overlay nothing happens.
pub fn defeat_overlay_click(
    button: OverlayButton,
    defeat_overlay: &mut GameplayDefeatOverlay,
    current_level_id: &mut CurrentLevelId,
    registry: &LevelRegistry,
    grid: &mut Grid,
    zone_data: &mut DeploymentZoneData,
    deploy_res: &mut DeploymentResources,
    evo_config: &mut EvolutionConfig,
    drag_state: &mut DragDeployState,
    snapshot: &SimulatorSnapshot,
    deploy_config: &SimulatorDeployConfig,
) -> (next: ScreenChange)
    ensures
        match old(defeat_overlay).kind {
            None => next == ScreenChange::Stay,
            Some(kind) => overlay_click_done(kind == DefeatKind::Level, false, button, *registry, *snapshot,
                *deploy_config, (*old(current_level_id), *final(current_level_id)), (*old(grid), *final(grid)),
                (*old(zone_data), *final(zone_data)), (*old(deploy_res), *final(deploy_res)),
                (*old(evo_config), *final(evo_config)), (*old(drag_state), *final(drag_state)), next),
        },
        next == ScreenChange::Stay ==> final(defeat_overlay).kind == old(defeat_overlay).kind && session_kept(
            (*old(current_level_id), *final(current_level_id)), (*old(grid), *final(grid)),
            (*old(zone_data), *final(zone_data)), (*old(deploy_res), *final(deploy_res)),
            (*old(evo_config), *final(evo_config)), (*old(drag_state), *final(drag_state))),
        next != ScreenChange::Stay ==> final(defeat_overlay).kind is None,
{
    let level = match defeat_overlay.kind {
        None => return ScreenChange::Stay,
        Some(DefeatKind::Level) => true,
        Some(DefeatKind::Trial) => false,
    };
    let next = overlay_click(level, false, button, current_level_id, registry, grid, zone_data, deploy_res,
        evo_config, drag_state, snapshot, deploy_config);
    if next != ScreenChange::Stay {
        defeat_overlay.clear();
    }
    next
}

/// While an overlay shows over a running level or trial evolution, the evolution stays paused.
pub fn hold_pause_under_overlay(state: AppState, sim_state: SimulatorState, evo_config: &mut EvolutionConfig)
    ensures
        final(evo_config).is_paused == (old(evo_config).is_paused || state == AppState::Evolution
            || (state == AppState::Simulator && sim_state == SimulatorState::TrialPlay)),
        final(evo_config).current_step == old(evo_config).current_step,
        final(evo_config).steps_per_deployment == old(evo_config).steps_per_deployment,
{
    if state == AppState::Evolution || (state == AppState::Simulator && sim_state == SimulatorState::TrialPlay) {
        evo_config.is_paused = true;
    }
}

/// A level as the level selection lists it: its position in the registry's order and whether
/// the player has unlocked and completed it.
pub struct LevelEntry {
    pub index: usize,
    pub unlocked: bool,
    pub completed: bool,
}

/// Positions, among the first `n` of the registry's order, of the levels the registry knows.
pub open spec fn listed_upto(registry: LevelRegistry, n: int) -> Seq<int>
    decreases n,
{
    if n <= 0 {
        seq![]
    } else if last_with_id(registry.levels@, registry.ordered_ids@[n - 1]@) is Some {
        listed_upto(registry, n - 1).push(n - 1)
    } else {
        listed_upto(registry, n - 1)
    }
}

/// Positions in the registry's order of the levels the level selection lists.
pub open spec fn listed(registry: LevelRegistry) -> Seq<int> {
    listed_upto(registry, registry.ordered_ids@.len() as int)
}

/// The entries of the level selection: every level of the registry's order that the registry
/// knows, in that order, with whether the progress has it unlocked and completed.
pub fn level_select_entries(registry: &LevelRegistry, save_data: &SaveData) -> (r: Vec<LevelEntry>)
    ensures
        r@.len() == listed(*registry).len(),
        forall|k: int| #![trigger r@[k]] 0 <= k < r@.len() ==> {
            let i = listed(*registry)[k];
            &&& r@[k].index == i
            &&& r@[k].unlocked == views(save_data.unlocked_levels@).contains(registry.ordered_ids@[i]@)
            &&& r@[k].completed == views(save_data.completed_levels@).contains(registry.ordered_ids@[i]@)
        },
{
    let n = registry.ordered_ids.len();
    let mut out: Vec<LevelEntry> = Vec::new();
    let mut idx: usize = 0;
    while idx < n
        invariant
            n == registry.ordered_ids@.len(),
            idx <= n,
            out@.len() == listed_upto(*registry, idx as int).len(),
            forall|k: int| #![trigger out@[k]] 0 <= k < out@.len() ==> {
                let i = listed_upto(*registry, idx as int)[k];
                &&& out@[k].index == i
                &&& out@[k].unlocked == views(save_data.unlocked_levels@).contains(registry.ordered_ids@[i]@)
                &&& out@[k].completed == views(save_data.completed_levels@).contains(registry.ordered_ids@[i]@)
            },
        decreases n - idx,
    {
        let id = &registry.ordered_ids[idx];
        if registry.get(id.as_str()).is_some() {
            let unlocked = holds(&save_data.unlocked_levels, id);
            let completed = holds(&save_data.completed_levels, id);
            out.push(LevelEntry { index: idx, unlocked, completed });
        }
        idx = idx + 1;
    }
    out
}

/// A click on a level of the level selection, by its position in the registry's order: an
/// unlocked level the registry knows becomes current, its grid is loaded, the player gets its
/// units and the evolution waits at step zero with the level's steps per deployment; play
/// moves to deployment. Otherwise nothing happens and the result is `None`.
pub fn select_level(
    index: usize,
    registry: &LevelRegistry,
    save_data: &SaveData,
    current_level_id: &mut CurrentLevelId,
    grid: &mut Grid,
    evo_config: &mut EvolutionConfig,
    deploy_res: &mut DeploymentResources,
) -> (next: Option<AppState>)
    ensures
        ({
            let ok = index < registry.ordered_ids@.len()
                && views(save_data.unlocked_levels@).contains(registry.ordered_ids@[index as int]@)
                && last_with_id(registry.levels@, registry.ordered_ids@[index as int]@) is Some;
            &&& next is Some == ok
            &&& ok ==> {
                let id = registry.ordered_ids@[index as int]@;
                let data = registry.levels@[last_with_id(registry.levels@, id)->0];
                &&& next == Some(AppState::Deployment)
                &&& final(current_level_id).0 matches Some(s) && s@ == id
                &&& final(grid).wf()
                &&& final(grid)@ == level_board(data)
                &&& final(evo_config).steps_per_deployment == data.evolution_steps
                &&& final(evo_config).current_step == 0
                &&& final(evo_config).is_paused
                &&& final(deploy_res).remaining_gliders == data.max_gliders
                &&& final(deploy_res).remaining_lwss == data.max_lwss
                &&& !final(deploy_res).deployed_this_round
            }
            &&& !ok ==> *final(current_level_id) == *old(current_level_id) && *final(grid) == *old(grid)
                && *final(evo_config) == *old(evo_config) && *final(deploy_res) == *old(deploy_res)
        }),
{
    if index >= registry.ordered_ids.len() {
        return None;
    }
    let id = &registry.ordered_ids[index];
    if !holds(&save_data.unlocked_levels, id) {
        return None;
    }
    let data = match registry.get(id.as_str()) {
        Some(d) => d,
        None => return None,
    };
    current_level_id.0 = Some(id.clone());
    load_level_to_grid(grid, data);
    evo_config.steps_per_deployment = data.evolution_steps;
    evo_config.current_step = 0;
    evo_config.is_paused = true;
    deploy_res.remaining_gliders = data.max_gliders;
    deploy_res.remaining_lwss = data.max_lwss;
    deploy_res.deployed_this_round = false;
    Some(AppState::Deployment)
}

} // verus!
