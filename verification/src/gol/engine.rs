use vstd::prelude::*;

use crate::gol::bomb::{BombExplosionResult, process_bombs};
use crate::gol::mask::Mask;
use crate::gol::revival::determine_revival_faction;
use crate::gol::rules::{
    blasted, clash_at, detonates, evolved, has_high_value, hv_cleared, hv_hit,
    next_cell, next_generation,
};
use crate::grid::board::{
    Grid, coord_of, col_major_lt, distinct, lemma_board_ext, lemma_col_major_distinct,
    lemma_push_contains, sorted_col_major,
};
use crate::grid::types::{CellType, GridCoord};

verus! {

/// What one evolution step did.
pub struct EvolutionStepResult {
    /// Cells whose content the generation changed (before the bombs), column by column.
    pub changed: Vec<GridCoord>,
    /// What the bombs did after the generation.
    pub bomb_result: BombExplosionResult,
    /// Living cells that died, or were blasted, while touching both factions.
    pub clash_positions: Vec<GridCoord>,
}

/// The next content of one cell.
fn next_cell_at(grid: &Grid, x: usize, y: usize) -> (r: (CellType, bool))
    requires
        grid.wf(),
        x < grid.width,
        y < grid.height,
    ensures
        r.0 == next_cell(grid@, x as int, y as int),
        r.1 == (grid@.at(x as int, y as int) is Normal && !(grid@.living(x as int, y as int) == 2
            || grid@.living(x as int, y as int) == 3) && grid@.red_neighbors(x as int, y as int) > 0
            && grid@.blue_neighbors(x as int, y as int) > 0),
{
    let coord = GridCoord::new(x, y);
    assert(grid.cells@[x as int]@ == grid@.cells[x as int]);
    let cell = grid.cells[x][y];
    let living = grid.count_living_neighbors(coord);
    match cell {
        CellType::Normal(_) => {
            if living == 2 || living == 3 {
                (cell, false)
            } else {
                let (red, blue) = grid.count_faction_neighbors(coord);
                (CellType::Empty, red > 0 && blue > 0)
            }
        },
        CellType::Empty => {
            if living == 3 {
                let (red, blue) = grid.count_faction_neighbors(coord);
                (CellType::Normal(determine_revival_faction(red, blue)), false)
            } else {
                (CellType::Empty, false)
            }
        },
        other => (other, false),
    }
}

/// Computes the next generation's cells, the cells it changes (column by column) and the
/// living cells that die while touching both factions.
fn next_cells(grid: &Grid) -> (r: (Vec<Vec<CellType>>, Vec<GridCoord>, Mask))
    requires
        grid.wf(),
    ensures
        r.0@.map_values(|col: Vec<CellType>| col@) == next_generation(grid@).cells,
        sorted_col_major(r.1@),
        forall|c: GridCoord| #[trigger] r.1@.contains(c) <==> (grid@.in_bounds(c.x as int, c.y as int)
            && next_cell(grid@, c.x as int, c.y as int) != grid@.at(c.x as int, c.y as int)),
        r.2.wf(),
        r.2.width == grid.width,
        r.2.height == grid.height,
        forall|x: int, y: int| #[trigger] r.2.has(x, y) <==> (grid@.in_bounds(x, y) && grid@.at(x, y) is Normal
            && !(grid@.living(x, y) == 2 || grid@.living(x, y) == 3) && grid@.red_neighbors(x, y) > 0
            && grid@.blue_neighbors(x, y) > 0),
{
    let ghost b = grid@;
    let w = grid.width;
    let h = grid.height;
    let mut cells: Vec<Vec<CellType>> = Vec::with_capacity(w);
    let mut changed: Vec<GridCoord> = Vec::new();
    let mut clash = Mask::new(w, h);
    let mut x: usize = 0;
    while x < w
        invariant
            grid.wf(),
            grid@ == b,
            w == grid.width,
            h == grid.height,
            x <= w,
            cells@.len() == x,
            forall|i: int| 0 <= i < x ==> (#[trigger] cells@[i])@.len() == h,
            forall|i: int, j: int| 0 <= i < x && 0 <= j < h ==> #[trigger] cells@[i]@[j] == next_cell(b, i, j),
            sorted_col_major(changed@),
            forall|k: int| 0 <= k < changed@.len() ==> (#[trigger] changed@[k]).x < x,
            forall|c: GridCoord| #[trigger] changed@.contains(c) <==> (b.in_bounds(c.x as int, c.y as int)
                && next_cell(b, c.x as int, c.y as int) != b.at(c.x as int, c.y as int) && c.x < x),
            clash.wf(),
            clash.width == w,
            clash.height == h,
            forall|i: int, j: int| #[trigger] clash.has(i, j) <==> (b.in_bounds(i, j) && i < x && b.at(i, j) is Normal
                && !(b.living(i, j) == 2 || b.living(i, j) == 3) && b.red_neighbors(i, j) > 0 && b.blue_neighbors(i, j) > 0),
        decreases w - x,
    {
        let mut col: Vec<CellType> = Vec::with_capacity(h);
        let mut y: usize = 0;
        while y < h
            invariant
                grid.wf(),
                grid@ == b,
                w == grid.width,
                h == grid.height,
                x < w,
                y <= h,
                col@.len() == y,
                forall|j: int| 0 <= j < y ==> #[trigger] col@[j] == next_cell(b, x as int, j),
                sorted_col_major(changed@),
                forall|k: int| 0 <= k < changed@.len() ==> col_major_lt(#[trigger] changed@[k], GridCoord { x, y }),
                forall|c: GridCoord| #[trigger] changed@.contains(c) <==> (b.in_bounds(c.x as int, c.y as int)
                    && next_cell(b, c.x as int, c.y as int) != b.at(c.x as int, c.y as int) && (c.x < x || (c.x == x && c.y < y))),
                clash.wf(),
                clash.width == w,
                clash.height == h,
                forall|i: int, j: int| #[trigger] clash.has(i, j) <==> (b.in_bounds(i, j) && (i < x || (i == x && j < y))
                    && b.at(i, j) is Normal && !(b.living(i, j) == 2 || b.living(i, j) == 3) && b.red_neighbors(i, j) > 0
                    && b.blue_neighbors(i, j) > 0),
            decreases h - y,
        {
            let (new_cell, clashes) = next_cell_at(grid, x, y);
            assert(grid.cells@[x as int]@ == b.cells[x as int]);
            let old_cell = grid.cells[x][y];
            let c = GridCoord::new(x, y);
            let ghost before = changed@;
            proof {
                lemma_push_contains(changed@, c);
            }
            if old_cell != new_cell {
                changed.push(c);
            }
            proof {
                assert forall|d: GridCoord| #[trigger] changed@.contains(d) <==> (b.in_bounds(d.x as int, d.y as int)
                    && next_cell(b, d.x as int, d.y as int) != b.at(d.x as int, d.y as int) && (d.x < x || (d.x == x && d.y < y + 1))) by {
                    assert(before.push(c).contains(d) <==> (before.contains(d) || d == c));
                    if d.y == y && d.x == x {
                        assert(d == c);
                    }
                }
            }
            if clashes {
                clash.mark(x, y);
            }
            col.push(new_cell);
            y = y + 1;
        }
        cells.push(col);
        x = x + 1;
    }
    proof {
        let target = next_generation(b);
        let mv = cells@.map_values(|col: Vec<CellType>| col@);
        assert(mv =~= target.cells) by {
            assert forall|i: int| 0 <= i < w implies #[trigger] mv[i] =~= target.cells[i] by {
                assert forall|j: int| 0 <= j < h implies cells@[i]@[j] == target.cells[i][j] by {
                    assert(cells@[i]@[j] == next_cell(b, i, j));
                }
            }
        }
    }
    (cells, changed, clash)
}

/// One B3/S23 evolution step with factions, on a double buffer: every cell's next content is
/// computed from the current grid; then the bombs go off on the new grid. Also reports which
/// cells the generation changed and where the two factions clashed.
pub fn evolution_step(grid: &mut Grid) -> (r: EvolutionStepResult)
    requires
        old(grid).wf(),
    ensures
        final(grid).wf(),
        final(grid)@ == evolved(old(grid)@),
        sorted_col_major(r.changed@),
        forall|c: GridCoord| #[trigger] r.changed@.contains(c) <==> (old(grid)@.in_bounds(c.x as int, c.y as int)
            && next_cell(old(grid)@, c.x as int, c.y as int) != old(grid)@.at(c.x as int, c.y as int)),
        distinct(r.bomb_result.affected_cells@),
        forall|c: GridCoord| #[trigger] r.bomb_result.affected_cells@.contains(c)
            <==> blasted(next_generation(old(grid)@), c.x as int, c.y as int),
        distinct(r.bomb_result.triggered_bombs@),
        forall|c: GridCoord| #[trigger] r.bomb_result.triggered_bombs@.contains(c)
            <==> detonates(next_generation(old(grid)@), c.x as int, c.y as int),
        distinct(r.clash_positions@),
        forall|c: GridCoord| #[trigger] r.clash_positions@.contains(c)
            <==> clash_at(old(grid)@, c.x as int, c.y as int),
{
    let ghost b = grid@;
    let before = grid.clone();
    let (cells, changed, mut clash) = next_cells(grid);
    grid.cells = cells;
    proof {
        assert(grid@ == next_generation(b));
    }
    let bomb_result = process_bombs(grid);
    let ghost nb = next_generation(b);
    let mut i: usize = 0;
    while i < bomb_result.affected_cells.len()
        invariant
            before.wf(),
            before@ == b,
            nb == next_generation(b),
            clash.wf(),
            clash.width == b.width,
            clash.height == b.height,
            i <= bomb_result.affected_cells@.len(),
            forall|c: GridCoord| #[trigger] bomb_result.affected_cells@.contains(c)
                <==> blasted(nb, c.x as int, c.y as int),
            forall|x: int, y: int| #[trigger] clash.has(x, y) <==> ((b.in_bounds(x, y) && b.at(x, y) is Normal
                && !(b.living(x, y) == 2 || b.living(x, y) == 3) && b.red_neighbors(x, y) > 0
                && b.blue_neighbors(x, y) > 0) || (exists|k: int| 0 <= k < i
                    && #[trigger] bomb_result.affected_cells@[k] == coord_of(x, y) && b.in_bounds(x, y) && b.at(x, y) is Normal
                    && b.red_neighbors(x, y) > 0 && b.blue_neighbors(x, y) > 0)),
        decreases bomb_result.affected_cells@.len() - i,
    {
        let c = bomb_result.affected_cells[i];
        assert(bomb_result.affected_cells@.contains(c));
        assert(nb.in_bounds(c.x as int, c.y as int));
        assert(before.cells@[c.x as int]@ == b.cells[c.x as int]);
        if before.cells[c.x][c.y].is_normal() {
            let (red, blue) = before.count_faction_neighbors(c);
            if red > 0 && blue > 0 {
                clash.mark(c.x, c.y);
            }
        }
        proof {
            assert forall|x: int, y: int| #[trigger] clash.has(x, y) <==> ((b.in_bounds(x, y) && b.at(x, y) is Normal
                && !(b.living(x, y) == 2 || b.living(x, y) == 3) && b.red_neighbors(x, y) > 0
                && b.blue_neighbors(x, y) > 0) || (exists|k: int| 0 <= k < i + 1
                    && #[trigger] bomb_result.affected_cells@[k] == coord_of(x, y) && b.in_bounds(x, y) && b.at(x, y) is Normal
                    && b.red_neighbors(x, y) > 0 && b.blue_neighbors(x, y) > 0)) by {
                if x == c.x && y == c.y {
                    assert(coord_of(x, y) == c);
                    assert(bomb_result.affected_cells@[i as int] == coord_of(x, y));
                }
                if exists|k: int| 0 <= k < i + 1 && #[trigger] bomb_result.affected_cells@[k] == coord_of(x, y)
                    && b.in_bounds(x, y) && b.at(x, y) is Normal && b.red_neighbors(x, y) > 0 && b.blue_neighbors(x, y) > 0 {
                    let k = choose|k: int| 0 <= k < i + 1 && #[trigger] bomb_result.affected_cells@[k] == coord_of(x, y)
                        && b.in_bounds(x, y) && b.at(x, y) is Normal && b.red_neighbors(x, y) > 0 && b.blue_neighbors(x, y) > 0;
                    if k == i {
                        assert(x == c.x && y == c.y);
                    }
                }
            }
        }
        i = i + 1;
    }
    let clash_positions = clash.positions();
    proof {
        lemma_col_major_distinct(clash_positions@);
        assert forall|c: GridCoord| #[trigger] clash_positions@.contains(c) <==> clash_at(b, c.x as int, c.y as int) by {
            let x = c.x as int;
            let y = c.y as int;
            assert(coord_of(x, y) == c);
            if blasted(nb, x, y) && b.in_bounds(x, y) && b.at(x, y) is Normal && b.red_neighbors(x, y) > 0 && b.blue_neighbors(x, y) > 0 {
                assert(bomb_result.affected_cells@.contains(c));
                let k = choose|k: int| 0 <= k < bomb_result.affected_cells@.len() && bomb_result.affected_cells@[k] == c;
                assert(bomb_result.affected_cells@[k] == coord_of(x, y));
                assert(clash.has(x, y));
            }
            if clash.has(x, y) && !(b.in_bounds(x, y) && b.at(x, y) is Normal
                && !(b.living(x, y) == 2 || b.living(x, y) == 3) && b.red_neighbors(x, y) > 0
                && b.blue_neighbors(x, y) > 0) {
                let k = choose|k: int| 0 <= k < i && #[trigger] bomb_result.affected_cells@[k] == coord_of(x, y)
                    && b.in_bounds(x, y) && b.at(x, y) is Normal && b.red_neighbors(x, y) > 0 && b.blue_neighbors(x, y) > 0;
                assert(bomb_result.affected_cells@.contains(c));
            }
        }
    }
    EvolutionStepResult { changed, bomb_result, clash_positions }
}

/// Removes every high-value target touched by a red living cell; returns their positions,
/// column by column.
pub fn check_high_value_destruction(grid: &mut Grid) -> (destroyed: Vec<GridCoord>)
    requires
        old(grid).wf(),
    ensures
        final(grid).wf(),
        final(grid)@ == hv_cleared(old(grid)@),
        sorted_col_major(destroyed@),
        forall|c: GridCoord| #[trigger] destroyed@.contains(c) <==> hv_hit(old(grid)@, c.x as int, c.y as int),
{
    let ghost b = grid@;
    let before = grid.clone();
    let w = grid.width;
    let h = grid.height;
    let mut destroyed: Vec<GridCoord> = Vec::new();
    let mut x: usize = 0;
    while x < w
        invariant
            before.wf(),
            before@ == b,
            grid.wf(),
            grid.width == w,
            grid.height == h,
            b.width == w,
            b.height == h,
            x <= w,
            forall|i: int, j: int| 0 <= i < w && 0 <= j < h ==> #[trigger] grid@.at(i, j) == (if i < x && hv_hit(b, i, j) {
                CellType::Empty
            } else {
                b.at(i, j)
            }),
            sorted_col_major(destroyed@),
            forall|k: int| 0 <= k < destroyed@.len() ==> (#[trigger] destroyed@[k]).x < x,
            forall|c: GridCoord| #[trigger] destroyed@.contains(c) <==> (hv_hit(b, c.x as int, c.y as int) && c.x < x),
        decreases w - x,
    {
        let mut y: usize = 0;
        while y < h
            invariant
                before.wf(),
                before@ == b,
                grid.wf(),
                grid.width == w,
                grid.height == h,
                b.width == w,
                b.height == h,
                x < w,
                y <= h,
                forall|i: int, j: int| 0 <= i < w && 0 <= j < h ==> #[trigger] grid@.at(i, j) == (if (i < x || (i == x
                    && j < y)) && hv_hit(b, i, j) {
                    CellType::Empty
                } else {
                    b.at(i, j)
                }),
                sorted_col_major(destroyed@),
                forall|k: int| 0 <= k < destroyed@.len() ==> col_major_lt(#[trigger] destroyed@[k], GridCoord { x, y }),
                forall|c: GridCoord| #[trigger] destroyed@.contains(c) <==> (hv_hit(b, c.x as int, c.y as int) && (c.x < x
                    || (c.x == x && c.y < y))),
            decreases h - y,
        {
            let c = GridCoord::new(x, y);
            assert(before.cells@[x as int]@ == b.cells[x as int]);
            let hit = if before.cells[x][y].is_high_value() {
                let (red, _blue) = before.count_faction_neighbors(c);
                red > 0
            } else {
                false
            };
            let ghost d0 = destroyed@;
            let ghost g0 = grid@;
            if hit {
                destroyed.push(c);
                grid.set(c, CellType::Empty);
            }
            proof {
                lemma_push_contains(d0, c);
                assert forall|d: GridCoord| #[trigger] destroyed@.contains(d) <==> (hv_hit(b, d.x as int, d.y as int) && (d.x < x
                    || (d.x == x && d.y < y + 1))) by {
                    if d.x == x && d.y == y {
                        assert(d == c);
                    }
                }
                assert forall|i: int, j: int| 0 <= i < w && 0 <= j < h implies #[trigger] grid@.at(i, j) == (if (i < x || (i == x
                    && j < y + 1)) && hv_hit(b, i, j) {
                    CellType::Empty
                } else {
                    b.at(i, j)
                }) by {
                    assert(g0.at(i, j) == (if (i < x || (i == x && j < y)) && hv_hit(b, i, j) {
                        CellType::Empty
                    } else {
                        b.at(i, j)
                    }));
                    if hit {
                        assert(grid@ == g0.with_cell(x as int, y as int, CellType::Empty));
                        if i != x {
                            assert(grid@.cells[i] == g0.cells[i]);
                        }
                    }
                }
            }
            y = y + 1;
        }
        x = x + 1;
    }
    proof {
        let target = hv_cleared(b);
        assert(grid@.same_cells(target));
        lemma_board_ext(grid@, target);
    }
    destroyed
}

/// Whether no high-value target is left on the grid.
pub fn all_high_values_destroyed(grid: &Grid) -> (r: bool)
    requires
        grid.wf(),
    ensures
        r == !has_high_value(grid@),
{
    let hvs = grid.find_high_values();
    if hvs.len() == 0 {
        proof {
            assert forall|x: int, y: int| grid@.in_bounds(x, y) implies !(#[trigger] grid@.at(x, y) is HighValue) by {
                if grid@.at(x, y) is HighValue {
                    assert(hvs@.contains(coord_of(x, y)));
                }
            }
        }
        true
    } else {
        assert(hvs@.contains(hvs@[0]));
        assert(grid@.at(hvs@[0].x as int, hvs@[0].y as int) is HighValue);
        false
    }
}

} // verus!
