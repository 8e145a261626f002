use vstd::prelude::*;

use crate::grid::board::{Board, Grid};
use crate::grid::types::{CellType, Direction, GridCoord};
use crate::input::drag_drop::{cells_fit, get_pattern_cells, placement_fits};
use crate::player::deploy::{DeployPhase, DragDeployState, unit_cells};
use crate::state::config::{AppState, DeploymentZoneData, SimulatorState};

verus! {

/// The coordinates of the cells that lie on the board, in order.
pub open spec fn on_board(b: Board, cells: Seq<(GridCoord, CellType)>) -> Seq<GridCoord>
    decreases cells.len(),
{
    if cells.len() == 0 {
        Seq::empty()
    } else {
        let rest = on_board(b, cells.drop_last());
        let c = cells.last().0;
        if b.in_bounds(c.x as int, c.y as int) {
            rest.push(c)
        } else {
            rest
        }
    }
}

/// The coordinates among `coords` that lie on the board, in order.
pub open spec fn coords_on_board(b: Board, coords: Seq<GridCoord>) -> Seq<GridCoord>
    decreases coords.len(),
{
    if coords.len() == 0 {
        Seq::empty()
    } else {
        let rest = coords_on_board(b, coords.drop_last());
        let c = coords.last();
        if b.in_bounds(c.x as int, c.y as int) {
            rest.push(c)
        } else {
            rest
        }
    }
}

/// Where the unit being deployed is previewed: at its anchor while it is turned, otherwise
/// under the pointer.
pub open spec fn preview_anchor(d: DragDeployState) -> Option<GridCoord> {
    if d.phase == DeployPhase::Rotating {
        d.start_pos
    } else {
        d.current_pos
    }
}

/// The preview of the unit being deployed.
pub struct GhostPreview {
    /// The unit's cells that lie on the grid, in the pattern's order.
    pub cells: Vec<GridCoord>,
    /// Whether the whole unit fits where it is (see `cells_fit`).
    pub valid: bool,
    /// Whether the unit is being turned.
    pub rotating: bool,
}

/// The preview of the unit being deployed, while deploying in a level or a simulator trial with
/// a unit picked and a place to show it (see `preview_anchor`): the unit facing its direction
/// (right when none is chosen yet), its cells on the grid, and whether it fits there.
pub fn ghost_preview(
    state: AppState,
    sim_state: SimulatorState,
    drag_state: &DragDeployState,
    grid: &Grid,
    zone_data: &DeploymentZoneData,
) -> (r: Option<GhostPreview>)
    requires
        grid.wf(),
    ensures
        r is Some == ((state == AppState::Deployment || (state == AppState::Simulator && sim_state
            == SimulatorState::DeploymentTest)) && drag_state.unit_type is Some && preview_anchor(*drag_state) is Some),
        r matches Some(p) ==> {
            let dir = match drag_state.rotation_dir {
                Some(d) => d,
                None => Direction::Right,
            };
            let cells = unit_cells(drag_state.unit_type->0, preview_anchor(*drag_state)->0, dir);
            &&& p.cells@ == on_board(grid@, cells)
            &&& p.valid == cells_fit(grid@, cells, zone_data.zone@)
            &&& p.rotating == (drag_state.phase == DeployPhase::Rotating)
        },
{
    let deploying = state == AppState::Deployment || (state == AppState::Simulator && sim_state
        == SimulatorState::DeploymentTest);
    if !deploying {
        return None;
    }
    let unit = match drag_state.unit_type {
        Some(u) => u,
        None => return None,
    };
    let dir = match drag_state.rotation_dir {
        Some(d) => d,
        None => Direction::Right,
    };
    let rotating = drag_state.phase == DeployPhase::Rotating;
    let anchor = if rotating {
        drag_state.start_pos
    } else {
        drag_state.current_pos
    };
    let pos = match anchor {
        Some(p) => p,
        None => return None,
    };
    let cells = get_pattern_cells(unit, pos, dir);
    let valid = placement_fits(grid, cells.as_slice(), zone_data.zone.as_slice());
    let mut shown: Vec<GridCoord> = Vec::new();
    let mut i: usize = 0;
    while i < cells.len()
        invariant
            i <= cells@.len(),
            shown@ == on_board(grid@, cells@.take(i as int)),
        decreases cells@.len() - i,
    {
        let (c, _) = cells[i];
        proof {
            assert(cells@.take(i + 1).drop_last() =~= cells@.take(i as int));
        }
        if grid.in_bounds(c) {
            shown.push(c);
        }
        i = i + 1;
    }
    proof {
        assert(cells@.take(cells@.len() as int) =~= cells@);
    }
    Some(GhostPreview { cells: shown, valid, rotating })
}

/// The deployment zone's cells to show: in the simulator or while deploying, the zone's cells
/// that lie on the grid, in the zone's order; none otherwise.
pub fn visible_zone_cells(state: AppState, zone_data: &DeploymentZoneData, grid: &Grid) -> (r: Vec<GridCoord>)
    ensures
        r@ == if state == AppState::Simulator || state == AppState::Deployment {
            coords_on_board(grid@, zone_data.zone@)
        } else {
            Seq::empty()
        },
{
    let mut shown: Vec<GridCoord> = Vec::new();
    if state != AppState::Simulator && state != AppState::Deployment {
        return shown;
    }
    let zone = &zone_data.zone;
    let mut i: usize = 0;
    while i < zone.len()
        invariant
            i <= zone@.len(),
            shown@ == coords_on_board(grid@, zone@.take(i as int)),
        decreases zone@.len() - i,
    {
        let c = zone[i];
        proof {
            assert(zone@.take(i + 1).drop_last() =~= zone@.take(i as int));
        }
        if grid.in_bounds(c) {
            shown.push(c);
        }
        i = i + 1;
    }
    proof {
        assert(zone@.take(zone@.len() as int) =~= zone@);
    }
    shown
}

} // verus!
