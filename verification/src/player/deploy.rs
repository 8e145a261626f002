use vstd::prelude::*;

use crate::grid::board::{Board, Grid, coord_in, painted};
use crate::grid::types::{CellType, Direction, Faction, GridCoord};
use crate::level::data::LevelData;
use crate::patterns::{glider_cells, glider_red, lwss_cells, lwss_red};
use crate::player::resources::DeploymentResources;

verus! {

/// The progress of deploying one unit: pick a unit, fix its position, turn it, confirm.
pub struct DragDeployState {
    pub active: bool,
    pub unit_type: Option<DeployUnitType>,
    pub start_pos: Option<GridCoord>,
    pub current_pos: Option<GridCoord>,
    pub rotation_dir: Option<Direction>,
    pub phase: DeployPhase,
}

#[derive(Clone, Copy, PartialEq, Eq, Debug, Structural)]
pub enum DeployUnitType {
    Glider,
    LWSS,
}

#[derive(Clone, Copy, PartialEq, Eq, Debug, Structural)]
pub enum DeployPhase {
    Idle,
    Dragging,
    Rotating,
}

/// A deployment state with nothing picked, placed or turning: the state a session starts from.
pub open spec fn drag_reset(d: DragDeployState) -> bool {
    &&& !d.active
    &&& d.unit_type is None
    &&& d.start_pos is None
    &&& d.current_pos is None
    &&& d.rotation_dir is None
    &&& d.phase == DeployPhase::Idle
}

impl Default for DragDeployState {
    fn default() -> (r: DragDeployState)
        ensures
            drag_reset(r),
    {
        DragDeployState {
            active: false,
            unit_type: None,
            start_pos: None,
            current_pos: None,
            rotation_dir: None,
            phase: DeployPhase::Idle,
        }
    }
}

impl Clone for DragDeployState {
    fn clone(&self) -> (r: DragDeployState)
        ensures
            r == *self,
    {
        DragDeployState {
            active: self.active,
            unit_type: self.unit_type,
            start_pos: self.start_pos,
            current_pos: self.current_pos,
            rotation_dir: self.rotation_dir,
            phase: self.phase,
        }
    }
}

/// The red cells of a unit deployed at `pos` facing `dir`.
pub open spec fn unit_cells(unit: DeployUnitType, pos: GridCoord, dir: Direction) -> Seq<(GridCoord, CellType)> {
    match unit {
        DeployUnitType::Glider => glider_cells(pos, dir, Faction::Red),
        DeployUnitType::LWSS => lwss_cells(pos, dir, Faction::Red),
    }
}

/// The red cells a unit would occupy at `pos` facing `dir`.
pub fn unit_pattern(unit: DeployUnitType, pos: GridCoord, dir: Direction) -> (r: Vec<(GridCoord, CellType)>)
    ensures
        r@ == unit_cells(unit, pos, dir),
{
    match unit {
        DeployUnitType::Glider => glider_red(pos, dir),
        DeployUnitType::LWSS => lwss_red(pos, dir),
    }
}

/// Every cell of the unit lies in the zone and on an empty grid cell.
pub open spec fn deploy_position_ok(b: Board, cells: Seq<(GridCoord, CellType)>, zone: Seq<GridCoord>) -> bool {
    forall|i: int| 0 <= i < cells.len() ==> zone.contains((#[trigger] cells[i]).0) && b.in_bounds(cells[i].0.x as int, cells[i].0.y as int)
        && b.at(cells[i].0.x as int, cells[i].0.y as int) is Empty
}

/// Whether the unit can be deployed at `pos` facing `dir`: each of its cells must lie in the
/// level's deployment zone and on an empty grid cell.
pub fn validate_deploy_position(
    grid: &Grid,
    unit: DeployUnitType,
    pos: GridCoord,
    dir: Direction,
    level_data: &LevelData,
) -> (r: bool)
    requires
        grid.wf(),
    ensures
        r == deploy_position_ok(grid@, unit_cells(unit, pos, dir), level_data.deployment_zone@),
{
    let cells = unit_pattern(unit, pos, dir);
    let mut i: usize = 0;
    while i < cells.len()
        invariant
            grid.wf(),
            cells@ == unit_cells(unit, pos, dir),
            i <= cells@.len(),
            forall|j: int| 0 <= j < i ==> level_data.deployment_zone@.contains((#[trigger] cells@[j]).0)
                && grid@.in_bounds(cells@[j].0.x as int, cells@[j].0.y as int)
                && grid@.at(cells@[j].0.x as int, cells@[j].0.y as int) is Empty,
        decreases cells@.len() - i,
    {
        let (coord, _) = cells[i];
        if !coord_in(coord, level_data.deployment_zone.as_slice()) {
            return false;
        }
        if !grid.is_empty(coord) {
            return false;
        }
        i = i + 1;
    }
    true
}

/// How many units of this kind are left.
pub open spec fn remaining_of(res: DeploymentResources, unit: DeployUnitType) -> u32 {
    match unit {
        DeployUnitType::Glider => res.remaining_gliders,
        DeployUnitType::LWSS => res.remaining_lwss,
    }
}

/// Deploys a red unit at `pos` facing `dir` when one of its kind is left: writes its cells
/// (off-grid cells are dropped), takes one unit of that kind and marks the round as deployed.
/// With none left nothing changes and the result is `false`.
pub fn place_unit(
    grid: &mut Grid,
    unit: DeployUnitType,
    pos: GridCoord,
    dir: Direction,
    deploy_res: &mut DeploymentResources,
) -> (r: bool)
    requires
        old(grid).wf(),
    ensures
        final(grid).wf(),
        r == (remaining_of(*old(deploy_res), unit) > 0),
        !r ==> *final(grid) == *old(grid) && *final(deploy_res) == *old(deploy_res),
        r ==> final(grid)@ == painted(old(grid)@, unit_cells(unit, pos, dir)),
        r ==> remaining_of(*final(deploy_res), unit) + 1 == remaining_of(*old(deploy_res), unit),
        r ==> final(deploy_res).deployed_this_round,
        r && unit == DeployUnitType::Glider ==> final(deploy_res).remaining_lwss == old(deploy_res).remaining_lwss,
        r && unit == DeployUnitType::LWSS ==> final(deploy_res).remaining_gliders == old(deploy_res).remaining_gliders,
{
    match unit {
        DeployUnitType::Glider => {
            if deploy_res.remaining_gliders == 0 {
                return false;
            }
        },
        DeployUnitType::LWSS => {
            if deploy_res.remaining_lwss == 0 {
                return false;
            }
        },
    }
    let cells = unit_pattern(unit, pos, dir);
    grid.paint(cells.as_slice());
    match unit {
        DeployUnitType::Glider => deploy_res.remaining_gliders = deploy_res.remaining_gliders - 1,
        DeployUnitType::LWSS => deploy_res.remaining_lwss = deploy_res.remaining_lwss - 1,
    }
    deploy_res.deployed_this_round = true;
    true
}

} // verus!
