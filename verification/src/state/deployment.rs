use vstd::prelude::*;

use crate::grid::board::{Board, Grid};
use crate::grid::types::CellType;
use crate::level::data::LevelData;
use crate::level::loader::{LevelRegistry, last_with_id};
use crate::player::deploy::{DeployPhase, DragDeployState};
use crate::state::config::{AppState, CurrentLevelId, DeploymentZoneData, EvolutionConfig, SimulatorState, copy_coords};
use crate::state::session::ScreenChange;

verus! {

/// The level's cell at column `x`, row `y`: taken from its rows where they reach, empty elsewhere.
pub open spec fn level_cell(rows: Seq<Vec<CellType>>, x: int, y: int) -> CellType {
    if 0 <= y < rows.len() && 0 <= x < rows[y]@.len() {
        rows[y]@[x]
    } else {
        CellType::Empty
    }
}

/// The grid a level starts from.
pub open spec fn level_board(data: LevelData) -> Board {
    Board::from_fn(data.width as int, data.height as int, |x: int, y: int| level_cell(data.initial_cells@, x, y))
}

/// Resizes the grid to the level and fills it from the level's rows (`initial_cells[y][x]`);
/// cells the rows do not reach are empty, and row content beyond the level's size is ignored.
pub fn load_level_to_grid(grid: &mut Grid, data: &LevelData)
    ensures
        final(grid).wf(),
        final(grid)@ == level_board(*data),
{
    let w = data.width;
    let h = data.height;
    let ghost target = level_board(*data);
    let mut cells: Vec<Vec<CellType>> = Vec::with_capacity(w);
    let mut x: usize = 0;
    while x < w
        invariant
            w == data.width,
            h == data.height,
            x <= w,
            cells@.len() == x,
            forall|i: int| 0 <= i < x ==> (#[trigger] cells@[i])@.len() == h,
            forall|i: int, j: int| 0 <= i < x && 0 <= j < h ==> #[trigger] cells@[i]@[j] == level_cell(data.initial_cells@, i, j),
        decreases w - x,
    {
        let mut col: Vec<CellType> = Vec::with_capacity(h);
        let mut y: usize = 0;
        while y < h
            invariant
                w == data.width,
                h == data.height,
                x < w,
                y <= h,
                col@.len() == y,
                forall|j: int| 0 <= j < y ==> #[trigger] col@[j] == level_cell(data.initial_cells@, x as int, j),
            decreases h - y,
        {
            let c = if y < data.initial_cells.len() && x < data.initial_cells[y].len() {
                data.initial_cells[y][x]
            } else {
                CellType::Empty
            };
            col.push(c);
            y = y + 1;
        }
        cells.push(col);
        x = x + 1;
    }
    grid.width = w;
    grid.height = h;
    grid.cells = cells;
    proof {
        let mv = grid.cells@.map_values(|col: Vec<CellType>| col@);
        assert(mv =~= target.cells) by {
            assert forall|i: int| 0 <= i < w implies #[trigger] mv[i] =~= target.cells[i] by {
                assert forall|j: int| 0 <= j < h implies mv[i][j] == target.cells[i][j] by {
                    assert(grid.cells@[i]@[j] == level_cell(data.initial_cells@, i, j));
                }
            }
        }
    }
}

/// Entering the deployment phase: the unit being deployed is dropped, and the deployment zone
/// becomes the current level's (empty when there is no current level or it is unknown).
pub fn enter_deployment(
    drag_state: &mut DragDeployState,
    zone_data: &mut DeploymentZoneData,
    level_id: &CurrentLevelId,
    registry: &LevelRegistry,
)
    ensures
        final(drag_state).phase == DeployPhase::Idle,
        final(drag_state).unit_type is None,
        final(drag_state).rotation_dir is None,
        final(drag_state).start_pos is None,
        final(drag_state).current_pos is None,
        final(drag_state).active == old(drag_state).active,
        match level_id.0 {
            Some(id) => match last_with_id(registry.levels@, id@) {
                Some(i) => final(zone_data).zone@ == registry.levels@[i].deployment_zone@,
                None => final(zone_data).zone@.len() == 0,
            },
            None => final(zone_data).zone@.len() == 0,
        },
{
    drag_state.phase = DeployPhase::Idle;
    drag_state.unit_type = None;
    drag_state.rotation_dir = None;
    drag_state.start_pos = None;
    drag_state.current_pos = None;
    match &level_id.0 {
        Some(id) => match registry.get(id.as_str()) {
            Some(data) => {
                zone_data.zone = copy_coords(data.deployment_zone.as_slice());
            },
            None => {
                zone_data.zone = Vec::new();
            },
        },
        None => {
            zone_data.zone = Vec::new();
        },
    }
}

/// After a unit was placed, its evolution starts: a level moves to the evolution phase (which
/// starts the round when entered); a simulator trial moves to trial play with the round
/// started at once, at step zero and running.
pub fn begin_evolution_after_deploy(in_level: bool, evo_config: &mut EvolutionConfig) -> (next: ScreenChange)
    ensures
        in_level ==> next == ScreenChange::Game(AppState::Evolution) && *final(evo_config) == *old(evo_config),
        !in_level ==> next == ScreenChange::Simulator(SimulatorState::TrialPlay) && final(evo_config).current_step == 0
            && !final(evo_config).is_paused && final(evo_config).steps_per_deployment
            == old(evo_config).steps_per_deployment,
{
    if in_level {
        ScreenChange::Game(AppState::Evolution)
    } else {
        evo_config.current_step = 0;
        evo_config.is_paused = false;
        ScreenChange::Simulator(SimulatorState::TrialPlay)
    }
}

} // verus!
