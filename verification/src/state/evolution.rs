use vstd::prelude::*;

use crate::gol::engine::{
    EvolutionStepResult, all_high_values_destroyed, check_high_value_destruction, evolution_step,
};
use crate::gol::rules::{blasted, clash_at, detonates, evolved, has_high_value, hv_cleared, hv_hit, next_generation};
use crate::grid::board::{Board, Grid, distinct, sorted_col_major};
use crate::grid::types::GridCoord;
use crate::level::data::SaveData;
use crate::level::loader::LevelRegistry;
use crate::player::resources::DeploymentResources;
use crate::state::config::{AppState, CurrentLevelId, EvolutionConfig, JudgmentResult, SimulatorState};
use crate::state::judgment::enter_judgment;
use crate::state::simulator::finish_trial_round;
use crate::state::victory::{
    DefeatKind, GameplayDefeatOverlay, GameplayVictoryOverlay, PendingVictory, PendingVictoryKind, VictoryKind,
    any_gameplay_overlay_active, level_victory_shown, resolve_high_value_victory,
};

verus! {

/// Why a round of evolution ended.
pub enum RoundEvolutionResult {
    /// No high-value target is left; these were destroyed in the last step.
    Victory { destroyed_high_values: Vec<GridCoord> },
    /// The round used up its steps.
    StepLimitReached,
}

/// One full game step: an evolution step, then the removal of touched high-value targets.
pub open spec fn game_step(b: Board) -> Board {
    hv_cleared(evolved(b))
}

/// Runs the rest of a round from step `cur` of `limit`: the final board, the final step, and,
/// when the round ended because no high-value target was left, the board on which the last
/// targets were hit.
pub open spec fn fast_forward(b: Board, cur: int, limit: int) -> (Board, int, Option<Board>)
    decreases limit - cur,
{
    if cur >= limit {
        (b, cur, None)
    } else {
        let e = evolved(b);
        let n = hv_cleared(e);
        if !has_high_value(n) {
            (n, cur + 1, Some(e))
        } else {
            fast_forward(n, cur + 1, limit)
        }
    }
}

pub proof fn lemma_fast_forward_step(b: Board, cur: int, limit: int)
    ensures
        fast_forward(b, cur, limit).1 >= cur,
        cur <= limit ==> fast_forward(b, cur, limit).1 <= limit,
    decreases limit - cur,
{
    if cur < limit {
        lemma_fast_forward_step(hv_cleared(evolved(b)), cur + 1, limit);
    }
}

/// Plays the rest of the current round at once, without animation: step after step until no
/// high-value target is left or the round's steps are used up. The evolution ends paused.
pub fn fast_forward_current_round(grid: &mut Grid, evo_config: &mut EvolutionConfig) -> (r: RoundEvolutionResult)
    requires
        old(grid).wf(),
    ensures
        final(grid).wf(),
        final(evo_config).is_paused,
        final(evo_config).steps_per_deployment == old(evo_config).steps_per_deployment,
        ({
            let ff = fast_forward(old(grid)@, old(evo_config).current_step as int, old(evo_config).steps_per_deployment as int);
            &&& final(grid)@ == ff.0
            &&& final(evo_config).current_step == ff.1
            &&& match r {
                RoundEvolutionResult::Victory { destroyed_high_values } => {
                    &&& ff.2 is Some
                    &&& sorted_col_major(destroyed_high_values@)
                    &&& forall|c: GridCoord| #[trigger] destroyed_high_values@.contains(c)
                        <==> hv_hit(ff.2->0, c.x as int, c.y as int)
                },
                RoundEvolutionResult::StepLimitReached => ff.2 is None,
            }
        }),
{
    let ghost b0 = grid@;
    let ghost cur0 = evo_config.current_step as int;
    let ghost limit = evo_config.steps_per_deployment as int;
    while evo_config.current_step < evo_config.steps_per_deployment
        invariant
            grid.wf(),
            evo_config.steps_per_deployment == limit,
            limit == old(evo_config).steps_per_deployment,
            cur0 == old(evo_config).current_step,
            b0 == old(grid)@,
            fast_forward(grid@, evo_config.current_step as int, limit) == fast_forward(b0, cur0, limit),
        decreases evo_config.steps_per_deployment - evo_config.current_step,
    {
        let ghost b = grid@;
        evo_config.current_step = evo_config.current_step + 1;
        let _step_result = evolution_step(grid);
        let destroyed_high_values = check_high_value_destruction(grid);
        if all_high_values_destroyed(grid) {
            evo_config.is_paused = true;
            return RoundEvolutionResult::Victory { destroyed_high_values };
        }
    }
    evo_config.is_paused = true;
    RoundEvolutionResult::StepLimitReached
}

/// What one animated evolution step led to.
#[derive(Clone, Copy, PartialEq, Eq, Debug, Structural)]
pub enum TickOutcome {
    /// The round goes on.
    Continue,
    /// No high-value target is left.
    Victory,
    /// The round's steps are used up.
    StepLimitReached,
}

/// Report of one animated evolution step.
pub struct EvolutionTick {
    pub step: EvolutionStepResult,
    /// High-value targets destroyed in this step, column by column.
    pub destroyed_high_values: Vec<GridCoord>,
    pub outcome: TickOutcome,
}

/// What the report of one animated step from board `b` holds: the high-value targets the step
/// destroyed (column by column), the bombs that went off, the cells they blasted, and the cells
/// where the factions clashed, each without repeats.
pub open spec fn tick_report(b: Board, r: EvolutionTick) -> bool {
    &&& sorted_col_major(r.destroyed_high_values@)
    &&& forall|c: GridCoord| #[trigger] r.destroyed_high_values@.contains(c) <==> hv_hit(evolved(b), c.x as int,
        c.y as int)
    &&& distinct(r.step.bomb_result.triggered_bombs@)
    &&& forall|c: GridCoord| #[trigger] r.step.bomb_result.triggered_bombs@.contains(c) <==> detonates(
        next_generation(b), c.x as int, c.y as int)
    &&& distinct(r.step.bomb_result.affected_cells@)
    &&& forall|c: GridCoord| #[trigger] r.step.bomb_result.affected_cells@.contains(c) <==> blasted(
        next_generation(b), c.x as int, c.y as int)
    &&& distinct(r.step.clash_positions@)
    &&& forall|c: GridCoord| #[trigger] r.step.clash_positions@.contains(c) <==> clash_at(b, c.x as int, c.y as int)
}

/// Advances the evolution by one step, as each elapsed frame interval does: counts the step,
/// evolves the grid, removes touched high-value targets, and pauses when no high-value target
/// is left (victory) or the round's steps are used up.
pub fn advance_evolution(grid: &mut Grid, evo_config: &mut EvolutionConfig) -> (r: EvolutionTick)
    requires
        old(grid).wf(),
        old(evo_config).current_step < u32::MAX,
    ensures
        final(grid).wf(),
        final(grid)@ == game_step(old(grid)@),
        final(evo_config).current_step == old(evo_config).current_step + 1,
        final(evo_config).steps_per_deployment == old(evo_config).steps_per_deployment,
        tick_report(old(grid)@, r),
        r.outcome == (if !has_high_value(final(grid)@) {
            TickOutcome::Victory
        } else if final(evo_config).current_step >= final(evo_config).steps_per_deployment {
            TickOutcome::StepLimitReached
        } else {
            TickOutcome::Continue
        }),
        r.outcome == TickOutcome::Continue ==> final(evo_config).is_paused == old(evo_config).is_paused,
        r.outcome != TickOutcome::Continue ==> final(evo_config).is_paused,
{
    evo_config.current_step = evo_config.current_step + 1;
    let step = evolution_step(grid);
    let destroyed_high_values = check_high_value_destruction(grid);
    let outcome = if all_high_values_destroyed(grid) {
        evo_config.is_paused = true;
        TickOutcome::Victory
    } else if evo_config.current_step >= evo_config.steps_per_deployment {
        evo_config.is_paused = true;
        TickOutcome::StepLimitReached
    } else {
        TickOutcome::Continue
    };
    EvolutionTick { step, destroyed_high_values, outcome }
}

/// Entering the evolution phase: the round starts from step zero, running, with no pending victory.
pub fn enter_evolution(evo_config: &mut EvolutionConfig, pending_victory: &mut PendingVictory)
    ensures
        final(evo_config).current_step == 0,
        !final(evo_config).is_paused,
        final(evo_config).steps_per_deployment == old(evo_config).steps_per_deployment,
        final(pending_victory).kind is None,
        !final(pending_victory).settling,
{
    evo_config.current_step = 0;
    evo_config.is_paused = false;
    pending_victory.clear();
}

/// What settling the victory of kind `kind` did, after a step that destroyed the high-value
/// targets `destroyed`: with targets destroyed the victory waits for their effects; otherwise
/// it shows at once (a level's victory recording the level's completion).
pub open spec fn victory_resolved(
    destroyed: Seq<GridCoord>,
    kind: PendingVictoryKind,
    current: CurrentLevelId,
    registry: LevelRegistry,
    pending: (PendingVictory, PendingVictory),
    overlay: (GameplayVictoryOverlay, GameplayVictoryOverlay),
    save: (SaveData, SaveData),
) -> bool {
    if destroyed.len() > 0 {
        pending.1.kind == Some(kind) && pending.1.settling && overlay.1.kind == overlay.0.kind && save.1 == save.0
    } else {
        &&& pending.1 == pending.0
        &&& kind == PendingVictoryKind::Trial ==> overlay.1.kind == Some(VictoryKind::Trial) && save.1 == save.0
        &&& kind == PendingVictoryKind::Level ==> level_victory_shown(current.0, registry.ordered_ids@, save.0,
            save.1, overlay.1.kind)
    }
}

/// Whether a level's evolution advances this frame: in the evolution phase, with no victory
/// shown or pending, and not paused.
pub fn level_evolution_runs(
    state: AppState,
    victory_overlay: &GameplayVictoryOverlay,
    pending: &PendingVictory,
    evo_config: &EvolutionConfig,
) -> (r: bool)
    ensures
        r == (state == AppState::Evolution && victory_overlay.kind is None && pending.kind is None
            && !evo_config.is_paused),
{
    state == AppState::Evolution && !victory_overlay.is_active() && !pending.is_pending() && !evo_config.is_paused
}

/// Whether a trial's evolution advances this frame: in the simulator's trial play, with no
/// overlay shown, no victory pending, and not paused.
pub fn trial_evolution_runs(
    state: AppState,
    sim_state: SimulatorState,
    victory_overlay: &GameplayVictoryOverlay,
    defeat_overlay: &GameplayDefeatOverlay,
    pending: &PendingVictory,
    evo_config: &EvolutionConfig,
) -> (r: bool)
    ensures
        r == (state == AppState::Simulator && sim_state == SimulatorState::TrialPlay && victory_overlay.kind is None
            && defeat_overlay.kind is None && pending.kind is None && !evo_config.is_paused),
{
    state == AppState::Simulator && sim_state == SimulatorState::TrialPlay && !any_gameplay_overlay_active(
        victory_overlay,
        defeat_overlay,
    ) && !pending.is_pending() && !evo_config.is_paused
}

/// One animated step of a level's evolution (see `advance_evolution`). When no high-value
/// target is left the level's victory is settled (see `victory_resolved`); when the round's
/// steps are used up the round goes to judgment, whose verdict is returned.
pub fn level_evolution_tick(
    grid: &mut Grid,
    evo_config: &mut EvolutionConfig,
    pending: &mut PendingVictory,
    victory_overlay: &mut GameplayVictoryOverlay,
    current_level_id: &CurrentLevelId,
    save_data: &mut SaveData,
    registry: &LevelRegistry,
) -> (r: (EvolutionTick, Option<JudgmentResult>))
    requires
        old(grid).wf(),
        old(evo_config).current_step < u32::MAX,
    ensures
        final(grid).wf(),
        final(grid)@ == game_step(old(grid)@),
        final(evo_config).current_step == old(evo_config).current_step + 1,
        final(evo_config).steps_per_deployment == old(evo_config).steps_per_deployment,
        tick_report(old(grid)@, r.0),
        r.0.outcome == (if !has_high_value(final(grid)@) {
            TickOutcome::Victory
        } else if final(evo_config).current_step >= final(evo_config).steps_per_deployment {
            TickOutcome::StepLimitReached
        } else {
            TickOutcome::Continue
        }),
        r.0.outcome == TickOutcome::Continue ==> final(evo_config).is_paused == old(evo_config).is_paused,
        r.0.outcome != TickOutcome::Continue ==> final(evo_config).is_paused,
        r.0.outcome == TickOutcome::Victory ==> r.1 is None && victory_resolved(r.0.destroyed_high_values@,
            PendingVictoryKind::Level, *current_level_id, *registry, (*old(pending), *final(pending)),
            (*old(victory_overlay), *final(victory_overlay)), (*old(save_data), *final(save_data))),
        r.0.outcome == TickOutcome::StepLimitReached ==> r.1 == Some(JudgmentResult::ContinueDeploy),
        r.0.outcome != TickOutcome::Victory ==> *final(pending) == *old(pending)
            && final(victory_overlay).kind == old(victory_overlay).kind && *final(save_data) == *old(save_data),
        r.0.outcome == TickOutcome::Continue ==> r.1 is None,
{
    let tick = advance_evolution(grid, evo_config);
    match tick.outcome {
        TickOutcome::Victory => {
            resolve_high_value_victory(tick.destroyed_high_values.as_slice(), pending, victory_overlay,
                PendingVictoryKind::Level, current_level_id, save_data, registry);
            (tick, None)
        },
        TickOutcome::StepLimitReached => {
            let verdict = enter_judgment(grid);
            (tick, Some(verdict))
        },
        TickOutcome::Continue => (tick, None),
    }
}

/// One animated step of a trial's evolution (see `advance_evolution`). When no high-value
/// target is left the trial's victory is settled (see `victory_resolved`); when the round's
/// steps are used up the round ends as `finish_trial_round` says, and the simulator state to
/// move to, if any, is returned.
pub fn trial_evolution_tick(
    grid: &mut Grid,
    evo_config: &mut EvolutionConfig,
    deploy_res: &mut DeploymentResources,
    pending: &mut PendingVictory,
    victory_overlay: &mut GameplayVictoryOverlay,
    defeat_overlay: &mut GameplayDefeatOverlay,
    current_level_id: &CurrentLevelId,
    save_data: &mut SaveData,
    registry: &LevelRegistry,
) -> (r: (EvolutionTick, Option<SimulatorState>))
    requires
        old(grid).wf(),
        old(evo_config).current_step < u32::MAX,
    ensures
        final(grid).wf(),
        final(grid)@ == game_step(old(grid)@),
        final(evo_config).current_step == old(evo_config).current_step + 1,
        final(evo_config).steps_per_deployment == old(evo_config).steps_per_deployment,
        tick_report(old(grid)@, r.0),
        r.0.outcome == (if !has_high_value(final(grid)@) {
            TickOutcome::Victory
        } else if final(evo_config).current_step >= final(evo_config).steps_per_deployment {
            TickOutcome::StepLimitReached
        } else {
            TickOutcome::Continue
        }),
        r.0.outcome == TickOutcome::Continue ==> final(evo_config).is_paused == old(evo_config).is_paused,
        r.0.outcome != TickOutcome::Continue ==> final(evo_config).is_paused,
        r.0.outcome == TickOutcome::Victory ==> r.1 is None && victory_resolved(r.0.destroyed_high_values@,
            PendingVictoryKind::Trial, *current_level_id, *registry, (*old(pending), *final(pending)),
            (*old(victory_overlay), *final(victory_overlay)), (*old(save_data), *final(save_data))),
        r.0.outcome != TickOutcome::Victory ==> *final(pending) == *old(pending)
            && final(victory_overlay).kind == old(victory_overlay).kind && *final(save_data) == *old(save_data),
        r.0.outcome != TickOutcome::StepLimitReached ==> *final(deploy_res) == *old(deploy_res)
            && final(defeat_overlay).kind == old(defeat_overlay).kind,
        r.0.outcome == TickOutcome::Continue ==> r.1 is None,
        r.0.outcome == TickOutcome::StepLimitReached ==> if old(deploy_res).remaining_gliders == 0
            && old(deploy_res).remaining_lwss == 0 {
            r.1 is None && final(defeat_overlay).kind == Some(DefeatKind::Trial) && *final(deploy_res) == *old(deploy_res)
        } else {
            &&& r.1 == Some(SimulatorState::DeploymentTest)
            &&& !final(deploy_res).deployed_this_round
            &&& final(deploy_res).remaining_gliders == old(deploy_res).remaining_gliders
            &&& final(deploy_res).remaining_lwss == old(deploy_res).remaining_lwss
            &&& final(defeat_overlay).kind == old(defeat_overlay).kind
        },
{
    let tick = advance_evolution(grid, evo_config);
    match tick.outcome {
        TickOutcome::Victory => {
            resolve_high_value_victory(tick.destroyed_high_values.as_slice(), pending, victory_overlay,
                PendingVictoryKind::Trial, current_level_id, save_data, registry);
            (tick, None)
        },
        TickOutcome::StepLimitReached => {
            let next = finish_trial_round(deploy_res, defeat_overlay);
            (tick, next)
        },
        TickOutcome::Continue => (tick, None),
    }
}

/// Whether a click may skip the rest of the round: while a level's or a trial's evolution runs,
/// with no victory shown or pending.
pub fn skip_allowed(
    state: AppState,
    sim_state: SimulatorState,
    victory_overlay: &GameplayVictoryOverlay,
    pending: &PendingVictory,
    evo_config: &EvolutionConfig,
) -> (r: bool)
    ensures
        r == (victory_overlay.kind is None && pending.kind is None && !evo_config.is_paused && (state
            == AppState::Evolution || (state == AppState::Simulator && sim_state == SimulatorState::TrialPlay))),
{
    if victory_overlay.is_active() || pending.is_pending() || evo_config.is_paused {
        return false;
    }
    state == AppState::Evolution || (state == AppState::Simulator && sim_state == SimulatorState::TrialPlay)
}

/// What skipping the rest of a round led to.
pub struct SkipReport {
    /// On a won round, the high-value targets its last step destroyed; empty otherwise.
    pub destroyed_high_values: Vec<GridCoord>,
    /// The verdict, when a level's round ran out of steps.
    pub judgment: Option<JudgmentResult>,
    /// The simulator state to move to, when a trial's round ran out of steps.
    pub simulator: Option<SimulatorState>,
}

/// Skips the rest of the round of a level (`in_level`) or of a trial: plays it out at once (see
/// `fast_forward_current_round`). A won round settles the victory (see `victory_resolved`); a
/// level's round that ran out of steps goes to judgment; a trial's returns to deployment.
pub fn skip_evolution(
    in_level: bool,
    grid: &mut Grid,
    evo_config: &mut EvolutionConfig,
    pending: &mut PendingVictory,
    victory_overlay: &mut GameplayVictoryOverlay,
    current_level_id: &CurrentLevelId,
    save_data: &mut SaveData,
    registry: &LevelRegistry,
    deploy_res: &mut DeploymentResources,
) -> (r: SkipReport)
    requires
        old(grid).wf(),
    ensures
        final(grid).wf(),
        final(evo_config).is_paused,
        final(evo_config).steps_per_deployment == old(evo_config).steps_per_deployment,
        ({
            let ff = fast_forward(old(grid)@, old(evo_config).current_step as int,
                old(evo_config).steps_per_deployment as int);
            &&& final(grid)@ == ff.0
            &&& final(evo_config).current_step == ff.1
            &&& ff.2 is Some ==> {
                &&& sorted_col_major(r.destroyed_high_values@)
                &&& forall|c: GridCoord| #[trigger] r.destroyed_high_values@.contains(c) <==> hv_hit(ff.2->0,
                    c.x as int, c.y as int)
                &&& r.judgment is None && r.simulator is None
                &&& *final(deploy_res) == *old(deploy_res)
                &&& victory_resolved(r.destroyed_high_values@, if in_level {
                    PendingVictoryKind::Level
                } else {
                    PendingVictoryKind::Trial
                }, *current_level_id, *registry, (*old(pending), *final(pending)),
                    (*old(victory_overlay), *final(victory_overlay)), (*old(save_data), *final(save_data)))
            }
            &&& ff.2 is None ==> {
                &&& r.destroyed_high_values@.len() == 0
                &&& *final(pending) == *old(pending)
                &&& final(victory_overlay).kind == old(victory_overlay).kind
                &&& *final(save_data) == *old(save_data)
                &&& in_level ==> r.simulator is None && *final(deploy_res) == *old(deploy_res) && r.judgment == Some(
                    if !has_high_value(ff.0) {
                        JudgmentResult::Victory
                    } else {
                        JudgmentResult::ContinueDeploy
                    })
                &&& !in_level ==> r.judgment is None && r.simulator == Some(SimulatorState::DeploymentTest)
                    && !final(deploy_res).deployed_this_round
                    && final(deploy_res).remaining_gliders == old(deploy_res).remaining_gliders
                    && final(deploy_res).remaining_lwss == old(deploy_res).remaining_lwss
            }
        }),
{
    match fast_forward_current_round(grid, evo_config) {
        RoundEvolutionResult::Victory { destroyed_high_values } => {
            let kind = if in_level {
                PendingVictoryKind::Level
            } else {
                PendingVictoryKind::Trial
            };
            resolve_high_value_victory(destroyed_high_values.as_slice(), pending, victory_overlay, kind,
                current_level_id, save_data, registry);
            SkipReport { destroyed_high_values, judgment: None, simulator: None }
        },
        RoundEvolutionResult::StepLimitReached => {
            if in_level {
                let verdict = enter_judgment(grid);
                SkipReport { destroyed_high_values: Vec::new(), judgment: Some(verdict), simulator: None }
            } else {
                deploy_res.deployed_this_round = false;
                SkipReport {
                    destroyed_high_values: Vec::new(),
                    judgment: None,
                    simulator: Some(SimulatorState::DeploymentTest),
                }
            }
        },
    }
}

} // verus!
