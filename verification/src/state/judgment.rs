use vstd::prelude::*;

use crate::gol::engine::all_high_values_destroyed;
use crate::gol::rules::has_high_value;
use crate::grid::board::Grid;
use crate::level::data::SaveData;
use crate::level::loader::LevelRegistry;
use crate::player::resources::DeploymentResources;
use crate::state::config::{AppState, CurrentJudgment, CurrentLevelId, EvolutionConfig, JudgmentResult};
use crate::state::victory::{
    DefeatKind, GameplayDefeatOverlay, GameplayVictoryOverlay, level_victory_shown, trigger_level_defeat,
    trigger_level_victory,
};

verus! {

/// The verdict when a round ends: victory when no high-value target is left, otherwise the
/// player deploys again (whether any unit is left is judged afterwards).
pub fn enter_judgment(grid: &Grid) -> (r: JudgmentResult)
    requires
        grid.wf(),
    ensures
        r == (if !has_high_value(grid@) {
            JudgmentResult::Victory
        } else {
            JudgmentResult::ContinueDeploy
        }),
{
    if all_high_values_destroyed(grid) {
        JudgmentResult::Victory
    } else {
        JudgmentResult::ContinueDeploy
    }
}

/// Acts on the pending verdict, if any, and returns the state to move to: a victory records
/// the level's completion and shows the victory overlay; going on to deploy needs a unit left,
/// otherwise the level is lost. Both victory and defeat pause the evolution and return to the
/// evolution screen under their overlay. Without a pending verdict nothing changes.
pub fn judgment_system(
    judgment: &mut CurrentJudgment,
    deploy_res: &DeploymentResources,
    current_level_id: &CurrentLevelId,
    save_data: &mut SaveData,
    registry: &LevelRegistry,
    victory_overlay: &mut GameplayVictoryOverlay,
    defeat_overlay: &mut GameplayDefeatOverlay,
    evo_config: &mut EvolutionConfig,
) -> (next: Option<AppState>)
    ensures
        final(judgment).0 is None,
        old(judgment).0 is None ==> next is None && *final(save_data) == *old(save_data)
            && final(victory_overlay).kind == old(victory_overlay).kind
            && final(defeat_overlay).kind == old(defeat_overlay).kind && *final(evo_config) == *old(evo_config),
        old(judgment).0 == Some(JudgmentResult::Victory) ==> {
            &&& next == Some(AppState::Evolution)
            &&& final(evo_config).is_paused
            &&& final(defeat_overlay).kind == old(defeat_overlay).kind
            &&& level_victory_shown(current_level_id.0, registry.ordered_ids@, *old(save_data), *final(save_data),
                final(victory_overlay).kind)
        },
        old(judgment).0 == Some(JudgmentResult::ContinueDeploy) && (deploy_res.remaining_gliders > 0
            || deploy_res.remaining_lwss > 0) ==> next == Some(AppState::Deployment) && *final(save_data) == *old(save_data)
            && final(victory_overlay).kind == old(victory_overlay).kind
            && final(defeat_overlay).kind == old(defeat_overlay).kind && *final(evo_config) == *old(evo_config),
        (old(judgment).0 == Some(JudgmentResult::Defeat) || (old(judgment).0 == Some(JudgmentResult::ContinueDeploy)
            && deploy_res.remaining_gliders == 0 && deploy_res.remaining_lwss == 0)) ==> next == Some(AppState::Evolution)
            && final(defeat_overlay).kind == Some(DefeatKind::Level) && final(evo_config).is_paused
            && *final(save_data) == *old(save_data) && final(victory_overlay).kind == old(victory_overlay).kind,
        final(evo_config).steps_per_deployment == old(evo_config).steps_per_deployment,
        final(evo_config).current_step == old(evo_config).current_step,
{
    let result = match judgment.0.take() {
        Some(r) => r,
        None => return None,
    };
    match result {
        JudgmentResult::Victory => {
            trigger_level_victory(victory_overlay, current_level_id, save_data, registry);
            evo_config.is_paused = true;
            Some(AppState::Evolution)
        },
        JudgmentResult::ContinueDeploy => {
            let has_remaining = deploy_res.remaining_gliders > 0 || deploy_res.remaining_lwss > 0;
            if has_remaining {
                Some(AppState::Deployment)
            } else {
                trigger_level_defeat(defeat_overlay);
                evo_config.is_paused = true;
                Some(AppState::Evolution)
            }
        },
        JudgmentResult::Defeat => {
            trigger_level_defeat(defeat_overlay);
            evo_config.is_paused = true;
            Some(AppState::Evolution)
        },
    }
}

} // verus!
