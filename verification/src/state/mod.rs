pub mod config;
pub mod deployment;
pub mod evolution;
pub mod judgment;
pub mod session;
pub mod simulator;
pub mod victory;

pub use self::config::{
    AppState, CurrentJudgment, CurrentLevelId, DeploymentZoneData, DialogMessage, EraserConfig, EvolutionConfig,
    JudgmentResult, SelectedElement, SelectedPattern, SimulatorDeployConfig, SimulatorSnapshot,
    SimulatorState, ZoneBrushConfig,
};
