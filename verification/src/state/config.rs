use vstd::prelude::*;

use crate::grid::types::{CellType, Faction, GridCoord, GridSnapshot};

verus! {

/// The game's main states.
#[derive(Clone, Copy, PartialEq, Eq, Debug, Hash, Structural)]
pub enum AppState {
    MainMenu,
    LevelSelect,
    Deployment,
    Evolution,
    Judgment,
    Simulator,
}

impl Default for AppState {
    fn default() -> (r: AppState)
        ensures
            r == AppState::MainMenu,
    {
        AppState::MainMenu
    }
}

/// The simulator's sub-states.
#[derive(Clone, Copy, PartialEq, Eq, Debug, Hash, Structural)]
pub enum SimulatorState {
    Editing,
    TrialPlay,
    DeploymentTest,
}

impl Default for SimulatorState {
    fn default() -> (r: SimulatorState)
        ensures
            r == SimulatorState::Editing,
    {
        SimulatorState::Editing
    }
}

/// The verdict after a round of evolution.
#[derive(Clone, Copy, PartialEq, Eq, Debug, Structural)]
pub enum JudgmentResult {
    Victory,
    ContinueDeploy,
    Defeat,
}

/// Step bookkeeping of the evolution phase. (The frame timing, in milliseconds, is kept by
/// the application around the library.)
pub struct EvolutionConfig {
    pub steps_per_deployment: u32,
    pub current_step: u32,
    pub is_paused: bool,
}

impl Default for EvolutionConfig {
    fn default() -> (r: EvolutionConfig)
        ensures
            r.steps_per_deployment == 200,
            r.current_step == 0,
            !r.is_paused,
    {
        EvolutionConfig { steps_per_deployment: 200, current_step: 0, is_paused: false }
    }
}

/// Id of the level being played, if any.
pub struct CurrentLevelId(pub Option<String>);

impl Default for CurrentLevelId {
    fn default() -> (r: CurrentLevelId)
        ensures
            r.0 is None,
    {
        CurrentLevelId(None)
    }
}

/// The pending verdict, if any.
pub struct CurrentJudgment(pub Option<JudgmentResult>);

impl Default for CurrentJudgment {
    fn default() -> (r: CurrentJudgment)
        ensures
            r.0 is None,
    {
        CurrentJudgment(None)
    }
}

/// A message waiting to be shown in a dialog, if any.
pub struct DialogMessage(pub Option<String>);

impl Default for DialogMessage {
    fn default() -> (r: DialogMessage)
        ensures
            r.0 is None,
    {
        DialogMessage(None)
    }
}

/// The cell kind the simulator's brush paints.
pub struct SelectedElement(pub CellType);

impl Default for SelectedElement {
    fn default() -> (r: SelectedElement)
        ensures
            r.0 == CellType::Normal(Faction::Red),
    {
        SelectedElement(CellType::Normal(Faction::Red))
    }
}

/// The preset pattern the simulator stamps, if any.
pub struct SelectedPattern(pub Option<String>);

impl Default for SelectedPattern {
    fn default() -> (r: SelectedPattern)
        ensures
            r.0 is None,
    {
        SelectedPattern(None)
    }
}

/// Units available in a simulator trial.
pub struct SimulatorDeployConfig {
    pub max_gliders: u32,
    pub max_lwss: u32,
}

impl Default for SimulatorDeployConfig {
    fn default() -> (r: SimulatorDeployConfig)
        ensures
            r.max_gliders == 3,
            r.max_lwss == 2,
    {
        SimulatorDeployConfig { max_gliders: 3, max_lwss: 2 }
    }
}

/// The edited level saved when a simulator trial starts, to come back to afterwards.
pub struct SimulatorSnapshot {
    pub grid: Option<GridSnapshot>,
    pub zone: Option<Vec<GridCoord>>,
}

impl Default for SimulatorSnapshot {
    fn default() -> (r: SimulatorSnapshot)
        ensures
            r.grid is None,
            r.zone is None,
    {
        SimulatorSnapshot { grid: None, zone: None }
    }
}

/// The cells where the player may deploy.
pub struct DeploymentZoneData {
    pub zone: Vec<GridCoord>,
}

impl Default for DeploymentZoneData {
    fn default() -> (r: DeploymentZoneData)
        ensures
            r.zone@.len() == 0,
    {
        DeploymentZoneData { zone: Vec::new() }
    }
}

/// The simulator's zone brush.
pub struct ZoneBrushConfig {
    pub active: bool,
    pub size: u32,
}

impl Default for ZoneBrushConfig {
    fn default() -> (r: ZoneBrushConfig)
        ensures
            !r.active,
            r.size == 1,
    {
        ZoneBrushConfig { active: false, size: 1 }
    }
}

/// The simulator's eraser.
pub struct EraserConfig {
    pub active: bool,
    pub radius: u32,
}

impl Default for EraserConfig {
    fn default() -> (r: EraserConfig)
        ensures
            !r.active,
            r.radius == 1,
    {
        EraserConfig { active: false, radius: 1 }
    }
}

/// A copy of a list of coordinates.
pub fn copy_coords(src: &[GridCoord]) -> (r: Vec<GridCoord>)
    ensures
        r@ == src@,
{
    let mut out: Vec<GridCoord> = Vec::with_capacity(src.len());
    let mut i: usize = 0;
    while i < src.len()
        invariant
            i <= src@.len(),
            out@ == src@.subrange(0, i as int),
        decreases src@.len() - i,
    {
        out.push(src[i]);
        i = i + 1;
        assert(out@ =~= src@.subrange(0, i as int));
    }
    assert(out@ =~= src@);
    out
}

} // verus!
