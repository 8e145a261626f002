use vstd::prelude::*;

use crate::grid::board::Grid;
use crate::grid::types::CellType;
use crate::player::deploy::{DragDeployState, drag_reset};
use crate::player::resources::DeploymentResources;
use crate::state::config::{
    DeploymentZoneData, EvolutionConfig, SimulatorDeployConfig, SimulatorSnapshot, SimulatorState,
    ZoneBrushConfig, copy_coords,
};
use crate::state::victory::{GameplayDefeatOverlay, PendingVictory, trigger_trial_defeat};

verus! {

/// Entering the simulator: an empty grid, no saved trial, no pending victory, no defeat shown.
pub fn enter_simulator(
    grid: &mut Grid,
    snapshot: &mut SimulatorSnapshot,
    pending_victory: &mut PendingVictory,
    defeat_overlay: &mut GameplayDefeatOverlay,
)
    requires
        old(grid).wf(),
    ensures
        final(grid).wf(),
        final(grid).width == old(grid).width,
        final(grid).height == old(grid).height,
        forall|x: int, y: int| final(grid)@.in_bounds(x, y) ==> #[trigger] final(grid)@.at(x, y) == CellType::Empty,
        final(snapshot).grid is None,
        final(snapshot).zone is None,
        final(pending_victory).kind is None,
        final(defeat_overlay).kind is None,
{
    grid.clear();
    *snapshot = SimulatorSnapshot::default();
    pending_victory.clear();
    defeat_overlay.clear();
}

/// Back from a trial to editing: the level saved when the trial started comes back (grid and
/// zone), the evolution is reset and paused, and no unit is being deployed. The saved level is
/// used up. Without a saved grid nothing changes and the result is `false`.
pub fn restore_simulator_editing_snapshot(
    snapshot: &mut SimulatorSnapshot,
    grid: &mut Grid,
    zone_data: &mut DeploymentZoneData,
    evo_config: &mut EvolutionConfig,
    drag_state: &mut DragDeployState,
) -> (restored: bool)
    ensures
        restored == old(snapshot).grid is Some,
        !restored ==> *final(snapshot) == *old(snapshot) && *final(grid) == *old(grid)
            && final(zone_data).zone@ == old(zone_data).zone@ && *final(evo_config) == *old(evo_config)
            && *final(drag_state) == *old(drag_state),
        restored ==> {
            &&& final(snapshot).grid is None
            &&& final(snapshot).zone is None
            &&& final(grid)@ == old(snapshot).grid->0@
            &&& final(zone_data).zone@ == match old(snapshot).zone {
                Some(z) => z@,
                None => old(zone_data).zone@,
            }
            &&& final(evo_config).is_paused
            &&& final(evo_config).current_step == 0
            &&& final(evo_config).steps_per_deployment == old(evo_config).steps_per_deployment
            &&& drag_reset(*final(drag_state))
        },
{
    let saved_grid = match snapshot.grid.take() {
        Some(g) => g,
        None => return false,
    };
    grid.restore(&saved_grid);
    if let Some(saved_zone) = snapshot.zone.take() {
        zone_data.zone = saved_zone;
    }
    evo_config.is_paused = true;
    evo_config.current_step = 0;
    *drag_state = DragDeployState::default();
    true
}

/// End of a trial round that used up its steps: with no unit left the trial is lost;
/// otherwise the player deploys again.
pub fn finish_trial_round(deploy_res: &mut DeploymentResources, defeat_overlay: &mut GameplayDefeatOverlay) -> (next: Option<SimulatorState>)
    ensures
        old(deploy_res).remaining_gliders == 0 && old(deploy_res).remaining_lwss == 0 ==> next is None
            && final(defeat_overlay).kind == Some(crate::state::victory::DefeatKind::Trial)
            && *final(deploy_res) == *old(deploy_res),
        !(old(deploy_res).remaining_gliders == 0 && old(deploy_res).remaining_lwss == 0) ==> next
            == Some(SimulatorState::DeploymentTest) && !final(deploy_res).deployed_this_round
            && final(deploy_res).remaining_gliders == old(deploy_res).remaining_gliders
            && final(deploy_res).remaining_lwss == old(deploy_res).remaining_lwss
            && final(defeat_overlay).kind == old(defeat_overlay).kind,
{
    if deploy_res.remaining_gliders == 0 && deploy_res.remaining_lwss == 0 {
        trigger_trial_defeat(defeat_overlay);
        None
    } else {
        deploy_res.deployed_this_round = false;
        Some(SimulatorState::DeploymentTest)
    }
}

/// Starting a trial of the edited level: the level (grid and zone) is saved to come back to,
/// the zone brush is put away, the player gets the configured units, the evolution is reset
/// and paused, and no unit is being deployed. The trial starts with deployment.
pub fn enter_trial(
    grid: &Grid,
    zone_data: &DeploymentZoneData,
    deploy_config: &SimulatorDeployConfig,
    snapshot: &mut SimulatorSnapshot,
    zone_brush: &mut ZoneBrushConfig,
    deploy_res: &mut DeploymentResources,
    evo_config: &mut EvolutionConfig,
    drag_state: &mut DragDeployState,
) -> (next: SimulatorState)
    ensures
        next == SimulatorState::DeploymentTest,
        final(snapshot).grid matches Some(g) && g@ == grid@,
        final(snapshot).zone matches Some(z) && z@ == zone_data.zone@,
        !final(zone_brush).active,
        final(zone_brush).size == old(zone_brush).size,
        final(deploy_res).remaining_gliders == deploy_config.max_gliders,
        final(deploy_res).remaining_lwss == deploy_config.max_lwss,
        !final(deploy_res).deployed_this_round,
        final(evo_config).current_step == 0,
        final(evo_config).is_paused,
        final(evo_config).steps_per_deployment == old(evo_config).steps_per_deployment,
        drag_reset(*final(drag_state)),
{
    snapshot.grid = Some(grid.snapshot());
    snapshot.zone = Some(copy_coords(zone_data.zone.as_slice()));
    zone_brush.active = false;
    deploy_res.remaining_gliders = deploy_config.max_gliders;
    deploy_res.remaining_lwss = deploy_config.max_lwss;
    deploy_res.deployed_this_round = false;
    evo_config.current_step = 0;
    evo_config.is_paused = true;
    *drag_state = DragDeployState::default();
    SimulatorState::DeploymentTest
}

} // verus!
