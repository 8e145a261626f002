use vstd::prelude::*;

use crate::gol::engine::{check_high_value_destruction, evolution_step};
use crate::grid::board::Grid;
use crate::grid::types::CellType;
use crate::player::deploy::{DragDeployState, drag_reset};
use crate::player::resources::DeploymentResources;
use crate::state::config::{
    AppState, DeploymentZoneData, EraserConfig, EvolutionConfig, SelectedElement, SelectedPattern,
    SimulatorDeployConfig, SimulatorSnapshot, SimulatorState, ZoneBrushConfig,
};
use crate::state::evolution::game_step;
use crate::state::simulator::enter_trial;

verus! {

/// The simulator panel shows in the simulator while editing or playing a trial's evolution,
/// unless an overlay blocks input.
pub fn simulator_panel_visible(state: AppState, sim_state: SimulatorState, overlay_blocks: bool) -> (r: bool)
    ensures
        r == (state == AppState::Simulator && !overlay_blocks && sim_state != SimulatorState::DeploymentTest),
{
    state == AppState::Simulator && !overlay_blocks && sim_state != SimulatorState::DeploymentTest
}

/// A control of the simulator panel.
pub enum SimulatorPanelButton {
    /// Editing: choose the kind of cell to paint.
    Element(CellType),
    /// Editing: choose the preset pattern to stamp, or none.
    Pattern(Option<String>),
    /// Editing: switch the eraser on or off.
    ToggleEraser,
    /// Editing: the eraser's radius.
    EraserRadius(u32),
    /// Editing: gliders for the trial, as the number field holds it.
    MaxGliders(i32),
    /// Editing: lightweight spaceships for the trial, as the number field holds it.
    MaxLwss(i32),
    /// Editing: switch the deployment zone brush on or off.
    ToggleZoneBrush,
    /// Editing: the zone brush's size.
    ZoneBrushSize(u32),
    /// Editing: clear the deployment zone.
    ClearZone,
    /// Editing: start a trial of the edited level.
    EnterTrial,
    /// Editing: clear the whole grid (after confirmation).
    ClearAll,
    /// Trial evolution: pause or resume.
    TogglePause,
    /// Trial evolution: play one step.
    SingleStep,
    /// Trial: return to the editor.
    BackToEditing,
    /// Leave the simulator for the main menu.
    BackToMainMenu,
}

/// The state changes a panel click asks for.
pub struct StateRequests {
    pub game: Option<AppState>,
    pub simulator: Option<SimulatorState>,
}

/// Whether a control of the panel is shown in this simulator state.
pub open spec fn panel_button_shown(button: SimulatorPanelButton, sim_state: SimulatorState) -> bool {
    match button {
        SimulatorPanelButton::TogglePause | SimulatorPanelButton::SingleStep => sim_state == SimulatorState::TrialPlay,
        SimulatorPanelButton::BackToEditing => sim_state != SimulatorState::Editing,
        SimulatorPanelButton::BackToMainMenu => true,
        _ => sim_state == SimulatorState::Editing,
    }
}

/// A count from a number field: negative counts as zero.
pub open spec fn field_count(v: i32) -> u32 {
    if v < 0 {
        0
    } else {
        v as u32
    }
}

/// A click on a control of the simulator panel in simulator state `sim_state`. A control that
/// is not shown in that state does nothing. Choosing an element or a pattern puts the eraser
/// away (an element also drops the pattern); switching the eraser on puts the zone brush away
/// and drops the pattern; switching the zone brush on puts the eraser away; trial counts below
/// zero count as zero; starting a trial does what `enter_trial` does; one trial step plays a
/// game step and counts it; leaving for the main menu pauses and resets the evolution, drops
/// the saved level and the deployment, puts the brushes away and resets the simulator to
/// editing.
pub fn simulator_panel_click(
    button: SimulatorPanelButton,
    sim_state: SimulatorState,
    evo_config: &mut EvolutionConfig,
    selected_element: &mut SelectedElement,
    selected_pattern: &mut SelectedPattern,
    deploy_res: &mut DeploymentResources,
    snapshot: &mut SimulatorSnapshot,
    drag_state: &mut DragDeployState,
    grid: &mut Grid,
    deploy_config: &mut SimulatorDeployConfig,
    zone_data: &mut DeploymentZoneData,
    zone_brush: &mut ZoneBrushConfig,
    eraser: &mut EraserConfig,
) -> (r: StateRequests)
    requires
        old(grid).wf(),
        button is SingleStep && sim_state == SimulatorState::TrialPlay ==> old(evo_config).current_step < u32::MAX,
    ensures
        final(grid).wf(),
        !panel_button_shown(button, sim_state) ==> {
            &&& r.game is None && r.simulator is None
            &&& *final(evo_config) == *old(evo_config)
            &&& *final(selected_element) == *old(selected_element)
            &&& *final(selected_pattern) == *old(selected_pattern)
            &&& *final(deploy_res) == *old(deploy_res)
            &&& *final(drag_state) == *old(drag_state)
            &&& *final(grid) == *old(grid)
            &&& *final(deploy_config) == *old(deploy_config)
            &&& final(zone_data).zone@ == old(zone_data).zone@
            &&& *final(zone_brush) == *old(zone_brush)
            &&& *final(eraser) == *old(eraser)
        },
        panel_button_shown(button, sim_state) ==> match button {
            SimulatorPanelButton::Element(ct) => final(selected_element).0 == ct && final(selected_pattern).0 is None
                && !final(eraser).active && final(eraser).radius == old(eraser).radius,
            SimulatorPanelButton::Pattern(p) => final(selected_pattern).0 == p && !final(eraser).active
                && final(eraser).radius == old(eraser).radius,
            SimulatorPanelButton::ToggleEraser => final(eraser).active == !old(eraser).active
                && final(eraser).radius == old(eraser).radius && if final(eraser).active {
                !final(zone_brush).active && final(selected_pattern).0 is None
            } else {
                final(zone_brush).active == old(zone_brush).active && *final(selected_pattern) == *old(selected_pattern)
            },
            SimulatorPanelButton::EraserRadius(v) => final(eraser).radius == v && final(eraser).active == old(eraser).active,
            SimulatorPanelButton::MaxGliders(v) => final(deploy_config).max_gliders == field_count(v)
                && final(deploy_config).max_lwss == old(deploy_config).max_lwss,
            SimulatorPanelButton::MaxLwss(v) => final(deploy_config).max_lwss == field_count(v)
                && final(deploy_config).max_gliders == old(deploy_config).max_gliders,
            SimulatorPanelButton::ToggleZoneBrush => final(zone_brush).active == !old(zone_brush).active
                && final(zone_brush).size == old(zone_brush).size && if final(zone_brush).active {
                !final(eraser).active
            } else {
                *final(eraser) == *old(eraser)
            },
            SimulatorPanelButton::ZoneBrushSize(v) => final(zone_brush).size == v
                && final(zone_brush).active == old(zone_brush).active,
            SimulatorPanelButton::ClearZone => final(zone_data).zone@.len() == 0,
            SimulatorPanelButton::EnterTrial => {
                &&& r.simulator == Some(SimulatorState::DeploymentTest)
                &&& final(snapshot).grid matches Some(g) && g@ == old(grid)@
                &&& final(snapshot).zone matches Some(z) && z@ == old(zone_data).zone@
                &&& !final(zone_brush).active
                &&& final(deploy_res).remaining_gliders == old(deploy_config).max_gliders
                &&& final(deploy_res).remaining_lwss == old(deploy_config).max_lwss
                &&& !final(deploy_res).deployed_this_round
                &&& final(evo_config).current_step == 0
                &&& final(evo_config).is_paused
                &&& drag_reset(*final(drag_state))
            },
            SimulatorPanelButton::ClearAll => final(grid).width == old(grid).width && final(grid).height
                == old(grid).height && forall|x: int, y: int| final(grid)@.in_bounds(x, y)
                ==> #[trigger] final(grid)@.at(x, y) == CellType::Empty,
            SimulatorPanelButton::TogglePause => final(evo_config).is_paused == !old(evo_config).is_paused
                && final(evo_config).current_step == old(evo_config).current_step,
            SimulatorPanelButton::SingleStep => final(grid)@ == game_step(old(grid)@)
                && final(evo_config).current_step == old(evo_config).current_step + 1
                && final(evo_config).is_paused == old(evo_config).is_paused,
            SimulatorPanelButton::BackToEditing => r.simulator == Some(SimulatorState::Editing) && r.game is None,
            SimulatorPanelButton::BackToMainMenu => {
                &&& r.game == Some(AppState::MainMenu)
                &&& r.simulator == Some(SimulatorState::Editing)
                &&& final(evo_config).is_paused
                &&& final(evo_config).current_step == 0
                &&& final(snapshot).grid is None && final(snapshot).zone is None
                &&& drag_reset(*final(drag_state))
                &&& !final(zone_brush).active
                &&& !final(eraser).active
            },
        },
        panel_button_shown(button, sim_state) && !(button is EnterTrial) && !(button is BackToEditing)
            && !(button is BackToMainMenu) ==> r.game is None && r.simulator is None,
        final(evo_config).steps_per_deployment == old(evo_config).steps_per_deployment,
        // What each control leaves alone.
        !(button is ClearAll) && !(button is SingleStep) ==> *final(grid) == *old(grid),
        !(button is Element) ==> *final(selected_element) == *old(selected_element),
        !(button is Element) && !(button is Pattern) && !(button is ToggleEraser) ==> *final(selected_pattern)
            == *old(selected_pattern),
        !(button is MaxGliders) && !(button is MaxLwss) ==> *final(deploy_config) == *old(deploy_config),
        !(button is ClearZone) ==> final(zone_data).zone@ == old(zone_data).zone@,
        !(button is EnterTrial) ==> *final(deploy_res) == *old(deploy_res),
        !(button is EnterTrial) && !(button is BackToMainMenu) ==> *final(snapshot) == *old(snapshot)
            && *final(drag_state) == *old(drag_state),
        !(button is EnterTrial) && !(button is TogglePause) && !(button is SingleStep) && !(button is BackToMainMenu)
            ==> *final(evo_config) == *old(evo_config),
        !(button is ToggleEraser) && !(button is ToggleZoneBrush) && !(button is EnterTrial) && !(button is ZoneBrushSize)
            && !(button is BackToMainMenu) ==> final(zone_brush).active == old(zone_brush).active,
        !(button is ZoneBrushSize) ==> final(zone_brush).size == old(zone_brush).size,
        !(button is Element) && !(button is Pattern) && !(button is ToggleEraser) && !(button is ToggleZoneBrush)
            && !(button is BackToMainMenu) ==> final(eraser).active == old(eraser).active,
        !(button is EraserRadius) ==> final(eraser).radius == old(eraser).radius,
{
    let none = StateRequests { game: None, simulator: None };
    let editing = sim_state == SimulatorState::Editing;
    let trial_play = sim_state == SimulatorState::TrialPlay;
    match button {
        SimulatorPanelButton::Element(ct) => {
            if editing {
                selected_element.0 = ct;
                selected_pattern.0 = None;
                eraser.active = false;
            }
            none
        },
        SimulatorPanelButton::Pattern(p) => {
            if editing {
                selected_pattern.0 = p;
                eraser.active = false;
            }
            none
        },
        SimulatorPanelButton::ToggleEraser => {
            if editing {
                eraser.active = !eraser.active;
                if eraser.active {
                    zone_brush.active = false;
                    selected_pattern.0 = None;
                }
            }
            none
        },
        SimulatorPanelButton::EraserRadius(v) => {
            if editing {
                eraser.radius = v;
            }
            none
        },
        SimulatorPanelButton::MaxGliders(v) => {
            if editing {
                deploy_config.max_gliders = if v < 0 { 0 } else { v as u32 };
            }
            none
        },
        SimulatorPanelButton::MaxLwss(v) => {
            if editing {
                deploy_config.max_lwss = if v < 0 { 0 } else { v as u32 };
            }
            none
        },
        SimulatorPanelButton::ToggleZoneBrush => {
            if editing {
                zone_brush.active = !zone_brush.active;
                if zone_brush.active {
                    eraser.active = false;
                }
            }
            none
        },
        SimulatorPanelButton::ZoneBrushSize(v) => {
            if editing {
                zone_brush.size = v;
            }
            none
        },
        SimulatorPanelButton::ClearZone => {
            if editing {
                zone_data.zone.clear();
            }
            none
        },
        SimulatorPanelButton::EnterTrial => {
            if editing {
                let next = enter_trial(grid, zone_data, deploy_config, snapshot, zone_brush, deploy_res, evo_config,
                    drag_state);
                StateRequests { game: None, simulator: Some(next) }
            } else {
                none
            }
        },
        SimulatorPanelButton::ClearAll => {
            if editing {
                grid.clear();
            }
            none
        },
        SimulatorPanelButton::TogglePause => {
            if trial_play {
                evo_config.is_paused = !evo_config.is_paused;
            }
            none
        },
        SimulatorPanelButton::SingleStep => {
            if trial_play {
                let _step = evolution_step(grid);
                let _destroyed = check_high_value_destruction(grid);
                evo_config.current_step = evo_config.current_step + 1;
            }
            none
        },
        SimulatorPanelButton::BackToEditing => {
            if !editing {
                StateRequests { game: None, simulator: Some(SimulatorState::Editing) }
            } else {
                none
            }
        },
        SimulatorPanelButton::BackToMainMenu => {
            evo_config.is_paused = true;
            evo_config.current_step = 0;
            *snapshot = SimulatorSnapshot::default();
            *drag_state = DragDeployState::default();
            zone_brush.active = false;
            eraser.active = false;
            StateRequests { game: Some(AppState::MainMenu), simulator: Some(SimulatorState::Editing) }
        },
    }
}

} // verus!
