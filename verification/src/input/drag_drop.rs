use vstd::prelude::*;

use crate::grid::board::{Board, Grid, coord_in, painted};
use crate::grid::types::{CellType, Direction, GridCoord};
use crate::player::deploy::{
    DeployPhase, DeployUnitType, DragDeployState, place_unit, remaining_of, unit_cells, unit_pattern,
};
use crate::player::resources::DeploymentResources;

verus! {

/// The unit's cells at `pos` facing `dir`.
pub fn get_pattern_cells(unit: DeployUnitType, pos: GridCoord, dir: Direction) -> (r: Vec<(GridCoord, CellType)>)
    ensures
        r@ == unit_cells(unit, pos, dir),
{
    unit_pattern(unit, pos, dir)
}

/// Picking a unit from the deployment panel: it follows the pointer, facing right.
pub fn start_drag(drag_state: &mut DragDeployState, unit: DeployUnitType)
    ensures
        final(drag_state).unit_type == Some(unit),
        final(drag_state).phase == DeployPhase::Idle,
        final(drag_state).start_pos is None,
        final(drag_state).current_pos is None,
        final(drag_state).rotation_dir == Some(Direction::Right),
        final(drag_state).active == old(drag_state).active,
{
    drag_state.unit_type = Some(unit);
    drag_state.phase = DeployPhase::Idle;
    drag_state.start_pos = None;
    drag_state.current_pos = None;
    drag_state.rotation_dir = Some(Direction::Right);
}

/// Every cell lies on an empty grid cell and, when there is a zone, in the zone.
pub open spec fn cells_fit(b: Board, cells: Seq<(GridCoord, CellType)>, zone: Seq<GridCoord>) -> bool {
    forall|i: int| 0 <= i < cells.len() ==> b.in_bounds((#[trigger] cells[i]).0.x as int, cells[i].0.y as int)
        && b.at(cells[i].0.x as int, cells[i].0.y as int) is Empty && (zone.len() == 0 || zone.contains(cells[i].0))
}

/// Whether a unit can be anchored at `pos`: with no zone always; with a zone, when it fits at
/// `pos` facing some direction.
pub open spec fn can_anchor(b: Board, unit: DeployUnitType, pos: GridCoord, zone: Seq<GridCoord>) -> bool {
    zone.len() == 0 || cells_fit(b, unit_cells(unit, pos, Direction::Up), zone)
        || cells_fit(b, unit_cells(unit, pos, Direction::Down), zone)
        || cells_fit(b, unit_cells(unit, pos, Direction::Left), zone)
        || cells_fit(b, unit_cells(unit, pos, Direction::Right), zone)
}

/// Anchoring is refused only when no facing fits: with a zone, a unit can be anchored at `pos`
/// exactly when, for at least one of the four facings, every one of its cells is on the grid,
/// empty and in the zone (any single facing is enough); with no zone it can always be anchored.
#[verifier::spinoff_prover]
pub proof fn law_anchor_some_facing(b: Board, unit: DeployUnitType, pos: GridCoord, zone: Seq<GridCoord>)
    ensures
        zone.len() == 0 ==> can_anchor(b, unit, pos, zone),
        zone.len() > 0 ==> (can_anchor(b, unit, pos, zone) <==> exists|d: Direction| #![trigger unit_cells(unit, pos, d)]
            forall|i: int| 0 <= i < unit_cells(unit, pos, d).len() ==> {
                let c = (#[trigger] unit_cells(unit, pos, d)[i]).0;
                &&& b.in_bounds(c.x as int, c.y as int)
                &&& b.at(c.x as int, c.y as int) is Empty
                &&& zone.contains(c)
            }),
{
    if zone.len() > 0 {
        assert forall|d: Direction| #![trigger unit_cells(unit, pos, d)]
            facing_free(b, unit, pos, d, zone) <==> cells_fit(b, unit_cells(unit, pos, d), zone) by {
            let cells = unit_cells(unit, pos, d);
            if facing_free(b, unit, pos, d, zone) {
                assert forall|i: int| 0 <= i < cells.len() implies b.in_bounds((#[trigger] cells[i]).0.x as int, cells[i].0.y as int)
                    && b.at(cells[i].0.x as int, cells[i].0.y as int) is Empty && (zone.len() == 0 || zone.contains(cells[i].0)) by {
                    assert(unit_cells(unit, pos, d)[i] == cells[i]);
                }
            }
            if cells_fit(b, cells, zone) {
                assert forall|i: int| 0 <= i < unit_cells(unit, pos, d).len() implies {
                    let c = (#[trigger] unit_cells(unit, pos, d)[i]).0;
                    &&& b.in_bounds(c.x as int, c.y as int)
                    &&& b.at(c.x as int, c.y as int) is Empty
                    &&& zone.contains(c)
                } by {
                    assert(cells[i] == unit_cells(unit, pos, d)[i]);
                }
            }
        }
        assert forall|d: Direction| #![trigger unit_cells(unit, pos, d)]
            facing_free(b, unit, pos, d, zone) implies can_anchor(b, unit, pos, zone) by {
            match d {
                Direction::Up => {},
                Direction::Down => {},
                Direction::Left => {},
                Direction::Right => {},
            }
        }
        if can_anchor(b, unit, pos, zone) {
            if cells_fit(b, unit_cells(unit, pos, Direction::Up), zone) {
                assert(facing_free(b, unit, pos, Direction::Up, zone));
            } else if cells_fit(b, unit_cells(unit, pos, Direction::Down), zone) {
                assert(facing_free(b, unit, pos, Direction::Down, zone));
            } else if cells_fit(b, unit_cells(unit, pos, Direction::Left), zone) {
                assert(facing_free(b, unit, pos, Direction::Left, zone));
            } else {
                assert(facing_free(b, unit, pos, Direction::Right, zone));
            }
        }
    }
}

/// Every cell of the unit facing `d` is on the grid, empty and in the zone.
spec fn facing_free(b: Board, unit: DeployUnitType, pos: GridCoord, d: Direction, zone: Seq<GridCoord>) -> bool {
    forall|i: int| 0 <= i < unit_cells(unit, pos, d).len() ==> {
        let c = (#[trigger] unit_cells(unit, pos, d)[i]).0;
        &&& b.in_bounds(c.x as int, c.y as int)
        &&& b.at(c.x as int, c.y as int) is Empty
        &&& zone.contains(c)
    }
}

/// The direction a knob turned from `anchor` towards `cur` points to: along the axis of the
/// larger move (columns on a tie); none when the pointer is on the anchor.
pub open spec fn knob_direction(anchor: GridCoord, cur: GridCoord) -> Option<Direction> {
    let dx = cur.x - anchor.x;
    let dy = cur.y - anchor.y;
    let adx = if dx >= 0 { dx } else { -dx };
    let ady = if dy >= 0 { dy } else { -dy };
    if dx == 0 && dy == 0 {
        None
    } else if adx >= ady {
        if dx > 0 { Some(Direction::Right) } else { Some(Direction::Left) }
    } else {
        if dy > 0 { Some(Direction::Down) } else { Some(Direction::Up) }
    }
}

/// Whether the cells all fit (see `cells_fit`).
pub fn placement_fits(grid: &Grid, cells: &[(GridCoord, CellType)], zone: &[GridCoord]) -> (r: bool)
    requires
        grid.wf(),
    ensures
        r == cells_fit(grid@, cells@, zone@),
{
    let mut i: usize = 0;
    while i < cells.len()
        invariant
            grid.wf(),
            i <= cells@.len(),
            forall|j: int| 0 <= j < i ==> grid@.in_bounds((#[trigger] cells@[j]).0.x as int, cells@[j].0.y as int)
                && grid@.at(cells@[j].0.x as int, cells@[j].0.y as int) is Empty
                && (zone@.len() == 0 || zone@.contains(cells@[j].0)),
        decreases cells@.len() - i,
    {
        let (c, _) = cells[i];
        if !grid.in_bounds(c) || !grid.is_empty(c) {
            return false;
        }
        if zone.len() != 0 && !coord_in(c, zone) {
            return false;
        }
        i = i + 1;
    }
    true
}

fn fits_facing(grid: &Grid, unit: DeployUnitType, pos: GridCoord, dir: Direction, zone: &[GridCoord]) -> (r: bool)
    requires
        grid.wf(),
    ensures
        r == cells_fit(grid@, unit_cells(unit, pos, dir), zone@),
{
    let cells = get_pattern_cells(unit, pos, dir);
    placement_fits(grid, cells.as_slice(), zone)
}

/// Whether the unit can be anchored at `pos` (see `can_anchor`).
pub fn anchor_allowed(grid: &Grid, unit: DeployUnitType, pos: GridCoord, zone: &[GridCoord]) -> (r: bool)
    requires
        grid.wf(),
    ensures
        r == can_anchor(grid@, unit, pos, zone@),
{
    zone.len() == 0 || fits_facing(grid, unit, pos, Direction::Up, zone) || fits_facing(grid, unit, pos, Direction::Down, zone)
        || fits_facing(grid, unit, pos, Direction::Left, zone) || fits_facing(grid, unit, pos, Direction::Right, zone)
}

/// The knob direction from `anchor` towards `cur` (see `knob_direction`).
pub fn knob_turn(anchor: GridCoord, cur: GridCoord) -> (r: Option<Direction>)
    ensures
        r == knob_direction(anchor, cur),
{
    let right = cur.x > anchor.x;
    let down = cur.y > anchor.y;
    let adx = if right { cur.x - anchor.x } else { anchor.x - cur.x };
    let ady = if down { cur.y - anchor.y } else { anchor.y - cur.y };
    if adx == 0 && ady == 0 {
        None
    } else if adx >= ady {
        if right { Some(Direction::Right) } else { Some(Direction::Left) }
    } else {
        if down { Some(Direction::Down) } else { Some(Direction::Up) }
    }
}

/// The pointer events of one frame during deployment.
pub struct DeployInput {
    /// The grid cell under the pointer, if any.
    pub cursor: Option<GridCoord>,
    pub escape_pressed: bool,
    pub left_clicked: bool,
}

/// What the deployment interaction asks of the game.
#[derive(Clone, Copy, PartialEq, Eq, Debug, Structural)]
pub enum DeployAction {
    Nothing,
    /// Leave a level's deployment for the level selection.
    BackToLevelSelect,
    /// Leave a simulator trial's deployment for editing.
    BackToEditing,
    /// A unit was placed: the evolution starts.
    BeginEvolution,
}

/// No unit is being deployed.
pub open spec fn drag_cleared(d: DragDeployState, old_d: DragDeployState) -> bool {
    &&& d.phase == DeployPhase::Idle
    &&& d.unit_type is None
    &&& d.start_pos is None
    &&& d.current_pos is None
    &&& d.rotation_dir is None
    &&& d.active == old_d.active
}

/// While rotating, a unit, an anchor and a facing are all set.
pub open spec fn rotation_ready(d: DragDeployState) -> bool {
    d.phase == DeployPhase::Rotating ==> d.unit_type is Some && d.start_pos is Some && d.rotation_dir is Some
}

/// One frame of the deployment interaction. A picked unit follows the pointer; a click fixes
/// its anchor (when it can be anchored there) and starts turning; while turning, the unit faces
/// the way the pointer moved from the anchor; a second click places it when it fits and a unit
/// of its kind is left, which starts the evolution, and otherwise drops it. Escape drops the
/// unit being deployed, or leaves deployment when none is.
pub fn drag_drop_step(
    drag_state: &mut DragDeployState,
    grid: &mut Grid,
    deploy_res: &mut DeploymentResources,
    zone: &[GridCoord],
    deploying: bool,
    in_level: bool,
    input: &DeployInput,
) -> (action: DeployAction)
    requires
        old(grid).wf(),
    ensures
        final(grid).wf(),
        rotation_ready(*old(drag_state)) ==> rotation_ready(*final(drag_state)),
        action != DeployAction::BeginEvolution ==> *final(grid) == *old(grid) && *final(deploy_res) == *old(deploy_res),
        // Not deploying: a picked unit is dropped.
        !deploying ==> action == DeployAction::Nothing && (if old(drag_state).unit_type is Some {
            final(drag_state).phase == DeployPhase::Idle && final(drag_state).unit_type is None
                && final(drag_state).start_pos == old(drag_state).start_pos
                && final(drag_state).current_pos == old(drag_state).current_pos
                && final(drag_state).rotation_dir == old(drag_state).rotation_dir
                && final(drag_state).active == old(drag_state).active
        } else {
            *final(drag_state) == *old(drag_state)
        }),
        // Escape.
        deploying && input.escape_pressed ==> if old(drag_state).unit_type is Some || old(drag_state).phase != DeployPhase::Idle {
            action == DeployAction::Nothing && drag_cleared(*final(drag_state), *old(drag_state))
        } else {
            *final(drag_state) == *old(drag_state) && action == (if in_level {
                DeployAction::BackToLevelSelect
            } else {
                DeployAction::BackToEditing
            })
        },
        // Following the pointer, anchoring on a click.
        deploying && !input.escape_pressed && old(drag_state).phase == DeployPhase::Idle ==> action == DeployAction::Nothing
            && if old(drag_state).unit_type is None {
            *final(drag_state) == *old(drag_state)
        } else {
            let anchored = input.left_clicked && input.cursor is Some && can_anchor(
                old(grid)@,
                old(drag_state).unit_type->0,
                input.cursor->0,
                zone@,
            );
            &&& final(drag_state).current_pos == input.cursor
            &&& final(drag_state).unit_type == old(drag_state).unit_type
            &&& final(drag_state).active == old(drag_state).active
            &&& anchored ==> final(drag_state).start_pos == input.cursor && final(drag_state).rotation_dir == Some(Direction::Right)
                && final(drag_state).phase == DeployPhase::Rotating
            &&& !anchored ==> final(drag_state).start_pos == old(drag_state).start_pos
                && final(drag_state).rotation_dir == old(drag_state).rotation_dir && final(drag_state).phase == DeployPhase::Idle
        },
        deploying && !input.escape_pressed && old(drag_state).phase == DeployPhase::Dragging ==> action == DeployAction::Nothing
            && final(drag_state).phase == DeployPhase::Idle && final(drag_state).unit_type == old(drag_state).unit_type
            && final(drag_state).start_pos == old(drag_state).start_pos
            && final(drag_state).current_pos == old(drag_state).current_pos
            && final(drag_state).rotation_dir == old(drag_state).rotation_dir
            && final(drag_state).active == old(drag_state).active,
        // Turning, placing on a click.
        deploying && !input.escape_pressed && old(drag_state).phase == DeployPhase::Rotating ==> {
            let turned = match (old(drag_state).start_pos, input.cursor) {
                (Some(a), Some(c)) => match knob_direction(a, c) {
                    Some(d) => Some(d),
                    None => old(drag_state).rotation_dir,
                },
                _ => old(drag_state).rotation_dir,
            };
            let moved = match (old(drag_state).start_pos, input.cursor) {
                (Some(a), Some(c)) => Some(c),
                _ => old(drag_state).current_pos,
            };
            let placed = input.left_clicked && old(drag_state).unit_type is Some && old(drag_state).start_pos is Some
                && turned is Some && cells_fit(
                old(grid)@,
                unit_cells(old(drag_state).unit_type->0, old(drag_state).start_pos->0, turned->0),
                zone@,
            ) && remaining_of(*old(deploy_res), old(drag_state).unit_type->0) > 0;
            &&& !input.left_clicked ==> action == DeployAction::Nothing && final(drag_state).rotation_dir == turned
                && final(drag_state).current_pos == moved && final(drag_state).phase == DeployPhase::Rotating
                && final(drag_state).unit_type == old(drag_state).unit_type
                && final(drag_state).start_pos == old(drag_state).start_pos
                && final(drag_state).active == old(drag_state).active
            &&& input.left_clicked ==> drag_cleared(*final(drag_state), *old(drag_state))
            &&& placed ==> action == DeployAction::BeginEvolution && final(grid)@ == painted(
                old(grid)@,
                unit_cells(old(drag_state).unit_type->0, old(drag_state).start_pos->0, turned->0),
            ) && remaining_of(*final(deploy_res), old(drag_state).unit_type->0) + 1 == remaining_of(
                *old(deploy_res),
                old(drag_state).unit_type->0,
            ) && final(deploy_res).deployed_this_round
            &&& input.left_clicked && !placed ==> action == DeployAction::Nothing
        },
{
    if !deploying {
        if drag_state.unit_type.is_some() {
            drag_state.phase = DeployPhase::Idle;
            drag_state.unit_type = None;
        }
        return DeployAction::Nothing;
    }
    if input.escape_pressed {
        if drag_state.unit_type.is_some() || drag_state.phase != DeployPhase::Idle {
            drag_state.phase = DeployPhase::Idle;
            drag_state.unit_type = None;
            drag_state.start_pos = None;
            drag_state.current_pos = None;
            drag_state.rotation_dir = None;
            return DeployAction::Nothing;
        } else if in_level {
            return DeployAction::BackToLevelSelect;
        } else {
            return DeployAction::BackToEditing;
        }
    }
    match drag_state.phase {
        DeployPhase::Idle => {
            if let Some(unit) = drag_state.unit_type {
                drag_state.current_pos = input.cursor;
                if input.left_clicked {
                    if let Some(pos) = input.cursor {
                        if anchor_allowed(grid, unit, pos, zone) {
                            drag_state.start_pos = Some(pos);
                            drag_state.rotation_dir = Some(Direction::Right);
                            drag_state.phase = DeployPhase::Rotating;
                        }
                    }
                }
            }
            DeployAction::Nothing
        },
        DeployPhase::Dragging => {
            drag_state.phase = DeployPhase::Idle;
            DeployAction::Nothing
        },
        DeployPhase::Rotating => {
            if let Some(anchor) = drag_state.start_pos {
                if let Some(current) = input.cursor {
                    if let Some(dir) = knob_turn(anchor, current) {
                        drag_state.rotation_dir = Some(dir);
                    }
                    drag_state.current_pos = Some(current);
                }
            }
            if input.left_clicked {
                let mut placed = false;
                if let (Some(unit), Some(pos), Some(dir)) = (drag_state.unit_type, drag_state.start_pos, drag_state.rotation_dir) {
                    let cells = get_pattern_cells(unit, pos, dir);
                    if placement_fits(grid, cells.as_slice(), zone) {
                        placed = place_unit(grid, unit, pos, dir, deploy_res);
                    }
                }
                drag_state.phase = DeployPhase::Idle;
                drag_state.unit_type = None;
                drag_state.start_pos = None;
                drag_state.current_pos = None;
                drag_state.rotation_dir = None;
                if placed {
                    return DeployAction::BeginEvolution;
                }
            }
            DeployAction::Nothing
        },
    }
}

} // verus!
