use vstd::prelude::*;

use crate::input::drag_drop::start_drag;
use crate::player::deploy::{DeployPhase, DeployUnitType, DragDeployState, remaining_of};
use crate::player::resources::DeploymentResources;
use crate::state::config::{AppState, SimulatorState};
use crate::state::session::ScreenChange;
use crate::state::victory::GameplayVictoryOverlay;

verus! {

/// The deployment panel shows while deploying in a level or in a simulator trial, unless the
/// victory overlay is up.
pub fn deployment_panel_visible(state: AppState, sim_state: SimulatorState, overlay: &GameplayVictoryOverlay) -> (r: bool)
    ensures
        r == ((state == AppState::Deployment || (state == AppState::Simulator && sim_state
            == SimulatorState::DeploymentTest)) && overlay.kind is None),
{
    let deploying = state == AppState::Deployment || (state == AppState::Simulator && sim_state
        == SimulatorState::DeploymentTest);
    deploying && !overlay.is_active()
}

/// A unit can be picked when one of its kind is left and no unit is picked or being placed.
pub open spec fn unit_pickable(res: DeploymentResources, drag: DragDeployState, unit: DeployUnitType) -> bool {
    remaining_of(res, unit) > 0 && drag.unit_type is None && drag.phase == DeployPhase::Idle
}

/// Whether the panel's button for `unit` is enabled.
pub fn can_select_unit(deploy_res: &DeploymentResources, drag_state: &DragDeployState, unit: DeployUnitType) -> (r: bool)
    ensures
        r == unit_pickable(*deploy_res, *drag_state, unit),
{
    let left = match unit {
        DeployUnitType::Glider => deploy_res.remaining_gliders,
        DeployUnitType::LWSS => deploy_res.remaining_lwss,
    };
    left > 0 && drag_state.unit_type.is_none() && drag_state.phase == DeployPhase::Idle
}

/// A button of the deployment panel.
#[derive(Clone, Copy, PartialEq, Eq, Debug, Structural)]
pub enum PanelButton {
    /// Pick a unit of this kind.
    Pick(DeployUnitType),
    /// Drop the picked unit (shown while a unit is picked).
    Cancel,
    /// Leave deployment (shown while no unit is picked).
    Back,
}

/// A click on a button of the deployment panel, in a simulator trial when `in_trial`: picking an
/// enabled unit starts dragging it; "cancel", while a unit is picked, drops it; "back", while
/// none is, returns to the editor in a trial and to the level selection otherwise. A click on
/// a button that is disabled or not shown does nothing.
pub fn deployment_panel_click(
    button: PanelButton,
    in_trial: bool,
    deploy_res: &DeploymentResources,
    drag_state: &mut DragDeployState,
) -> (next: ScreenChange)
    ensures
        match button {
            PanelButton::Pick(unit) => next == ScreenChange::Stay && if unit_pickable(*deploy_res, *old(drag_state), unit) {
                &&& final(drag_state).unit_type == Some(unit)
                &&& final(drag_state).phase == DeployPhase::Idle
                &&& final(drag_state).start_pos is None
                &&& final(drag_state).current_pos is None
                &&& final(drag_state).rotation_dir == Some(crate::grid::types::Direction::Right)
                &&& final(drag_state).active == old(drag_state).active
            } else {
                *final(drag_state) == *old(drag_state)
            },
            PanelButton::Cancel => next == ScreenChange::Stay && if old(drag_state).unit_type is Some {
                &&& final(drag_state).phase == DeployPhase::Idle
                &&& final(drag_state).unit_type is None
                &&& final(drag_state).rotation_dir is None
                &&& final(drag_state).start_pos is None
                &&& final(drag_state).current_pos is None
                &&& final(drag_state).active == old(drag_state).active
            } else {
                *final(drag_state) == *old(drag_state)
            },
            PanelButton::Back => *final(drag_state) == *old(drag_state) && next == if old(drag_state).unit_type is Some {
                ScreenChange::Stay
            } else if in_trial {
                ScreenChange::Simulator(SimulatorState::Editing)
            } else {
                ScreenChange::Game(AppState::LevelSelect)
            },
        },
{
    match button {
        PanelButton::Pick(unit) => {
            if can_select_unit(deploy_res, drag_state, unit) {
                start_drag(drag_state, unit);
            }
            ScreenChange::Stay
        },
        PanelButton::Cancel => {
            if drag_state.unit_type.is_some() {
                drag_state.phase = DeployPhase::Idle;
                drag_state.unit_type = None;
                drag_state.rotation_dir = None;
                drag_state.start_pos = None;
                drag_state.current_pos = None;
            }
            ScreenChange::Stay
        },
        PanelButton::Back => {
            if drag_state.unit_type.is_some() {
                ScreenChange::Stay
            } else if in_trial {
                ScreenChange::Simulator(SimulatorState::Editing)
            } else {
                ScreenChange::Game(AppState::LevelSelect)
            }
        },
    }
}

} // verus!
