use vstd::prelude::*;

use crate::gol::rules::{
    after_bombs, blasted, detonates, evolved, has_high_value, hv_cleared, hv_hit, is_chain, next_cell, next_generation,
    triggered,
};
use crate::grid::board::{Board, is_blue, is_red, lemma_board_ext, lemma_from_fn};
use crate::grid::types::{CellType, Faction};

verus! {

proof fn lemma_counts_partition(b: Board, x: int, y: int, k: int)
    ensures
        b.red_count(x, y, k) + b.blue_count(x, y, k) == b.living_count(x, y, k),
    decreases k,
{
    if k > 0 {
        lemma_counts_partition(b, x, y, k - 1);
        let c = b.nb_cell(x, y, k - 1);
        if c is Normal {
            assert(is_red(c) || is_blue(c));
        }
    }
}

/// Every living neighbour belongs to one of the two factions: the red and the blue neighbours
/// of a cell add up to its living neighbours.
pub proof fn law_faction_partition(b: Board, x: int, y: int)
    ensures
        b.red_neighbors(x, y) + b.blue_neighbors(x, y) == b.living(x, y),
{
    lemma_counts_partition(b, x, y, 8);
}

/// Whether no cell of the board is alive.
pub open spec fn lifeless(b: Board) -> bool {
    forall|x: int, y: int| b.in_bounds(x, y) ==> !(#[trigger] b.at(x, y) is Normal)
}

proof fn lemma_lifeless_count(b: Board, x: int, y: int, k: int)
    requires
        lifeless(b),
    ensures
        b.living_count(x, y, k) == 0,
    decreases k,
{
    if k > 0 {
        lemma_lifeless_count(b, x, y, k - 1);
    }
}

/// A board without living cells does not change: nothing is born, and no bomb is touched.
pub proof fn law_lifeless_board_is_still(b: Board)
    requires
        b.wf(),
        lifeless(b),
    ensures
        next_generation(b) == b,
        evolved(b) == b,
{
    assert forall|x: int, y: int| #![trigger b.living(x, y)] b.living(x, y) == 0 by {
        lemma_lifeless_count(b, x, y, 8);
    }
    let g = next_generation(b);
    lemma_from_fn(b.width, b.height, |x: int, y: int| next_cell(b, x, y));
    assert forall|x: int, y: int| g.in_bounds(x, y) implies #[trigger] g.at(x, y) == b.at(x, y) by {
        assert(b.living(x, y) == 0);
        assert(next_cell(b, x, y) == b.at(x, y));
    }
    lemma_board_ext(g, b);
    assert forall|x: int, y: int| !#[trigger] blasted(b, x, y) by {
        if blasted(b, x, y) {
            let (bx, by) = choose|bx: int, by: int| #[trigger] detonates(b, bx, by) && crate::gol::rules::near((bx, by), (x, y));
            let s = choose|s: Seq<(int, int)>| #[trigger] is_chain(b, s) && s.last() == (bx, by);
            assert(triggered(b, s[0].0, s[0].1));
            assert(b.living(s[0].0, s[0].1) == 0);
        }
    }
    let a = after_bombs(b);
    lemma_from_fn(b.width, b.height, |x: int, y: int| if blasted(b, x, y) {
        CellType::Empty
    } else {
        b.at(x, y)
    });
    assert forall|x: int, y: int| a.in_bounds(x, y) implies #[trigger] a.at(x, y) == b.at(x, y) by {
        assert(!blasted(b, x, y));
    }
    lemma_board_ext(a, b);
}

/// Evolution never creates a high-value target: when a step (a generation, the bombs, then the
/// removal of touched targets) leaves one, the board had it before. So once every target is
/// gone, none comes back.
pub proof fn law_no_new_high_value(b: Board)
    requires
        b.wf(),
    ensures
        has_high_value(hv_cleared(evolved(b))) ==> has_high_value(b),
{
    let g = next_generation(b);
    let e = evolved(b);
    let f = hv_cleared(e);
    if has_high_value(f) {
        let (x, y) = choose|x: int, y: int| f.in_bounds(x, y) && #[trigger] f.at(x, y) is HighValue;
        lemma_from_fn(b.width, b.height, |x: int, y: int| next_cell(b, x, y));
        lemma_from_fn(g.width, g.height, |x: int, y: int| if blasted(g, x, y) {
            CellType::Empty
        } else {
            g.at(x, y)
        });
        lemma_from_fn(e.width, e.height, |x: int, y: int| if crate::gol::rules::hv_hit(e, x, y) {
            CellType::Empty
        } else {
            e.at(x, y)
        });
        assert(e.at(x, y) is HighValue);
        assert(g.at(x, y) is HighValue);
        assert(next_cell(b, x, y) is HighValue);
        assert(b.at(x, y) is HighValue);
    }
}

/// A bomb that goes off lies in its own blast: after the bombs, it is gone.
pub proof fn law_detonated_bombs_are_gone(b: Board, x: int, y: int)
    requires
        b.wf(),
        detonates(b, x, y),
    ensures
        blasted(b, x, y),
        after_bombs(b).at(x, y) == CellType::Empty,
{
    let s = choose|s: Seq<(int, int)>| #[trigger] is_chain(b, s) && s.last() == (x, y);
    assert(crate::gol::rules::is_bomb_at(b, s[s.len() - 1].0, s[s.len() - 1].1));
    assert(crate::gol::rules::near((x, y), (x, y)));
    assert(blasted(b, x, y));
    lemma_from_fn(b.width, b.height, |i: int, j: int| if blasted(b, i, j) {
        CellType::Empty
    } else {
        b.at(i, j)
    });
}

/// A positive living count among the first `k` neighbour positions has a living neighbour
/// behind it.
proof fn lemma_living_witness(b: Board, x: int, y: int, k: int)
    requires
        b.living_count(x, y, k) > 0,
    ensures
        exists|j: int| 0 <= j < k && b.nb_in(x, y, j) && #[trigger] b.nb_cell(x, y, j) is Normal,
    decreases k,
{
    if k > 0 && !(b.nb_in(x, y, k - 1) && b.nb_cell(x, y, k - 1) is Normal) {
        lemma_living_witness(b, x, y, k - 1);
    }
}

/// A living neighbour among the first `k` positions makes the living count positive.
proof fn lemma_living_positive(b: Board, x: int, y: int, k: int, j: int)
    requires
        0 <= j < k,
        b.nb_in(x, y, j),
        b.nb_cell(x, y, j) is Normal,
    ensures
        b.living_count(x, y, k) > 0,
    decreases k,
{
    if j < k - 1 {
        lemma_living_positive(b, x, y, k - 1, j);
    }
}

/// Setting off the bombs a second time changes nothing: every bomb left over touches no living
/// cell, so none goes off.
pub proof fn law_bombs_settle(b: Board)
    requires
        b.wf(),
    ensures
        after_bombs(after_bombs(b)) == after_bombs(b),
        forall|x: int, y: int| !#[trigger] triggered(after_bombs(b), x, y),
        forall|x: int, y: int| !#[trigger] detonates(after_bombs(b), x, y),
        forall|x: int, y: int| !#[trigger] blasted(after_bombs(b), x, y),
{
    let a = after_bombs(b);
    lemma_from_fn(b.width, b.height, |x: int, y: int| if blasted(b, x, y) {
        CellType::Empty
    } else {
        b.at(x, y)
    });
    assert forall|x: int, y: int| !#[trigger] triggered(a, x, y) by {
        if triggered(a, x, y) {
            assert(a.at(x, y) is Bomb);
            assert(!blasted(b, x, y));
            assert(b.at(x, y) is Bomb);
            lemma_living_witness(a, x, y, 8);
            let j = choose|j: int| 0 <= j < 8 && a.nb_in(x, y, j) && #[trigger] a.nb_cell(x, y, j) is Normal;
            let px = x + crate::grid::board::nb_dx(j);
            let py = y + crate::grid::board::nb_dy(j);
            assert(a.at(px, py) is Normal);
            assert(!blasted(b, px, py));
            assert(b.nb_cell(x, y, j) is Normal);
            lemma_living_positive(b, x, y, 8, j);
            let s = seq![(x, y)];
            assert(is_chain(b, s));
            assert(detonates(b, x, y));
            assert(crate::gol::rules::near((x, y), (x, y)));
            assert(blasted(b, x, y));
        }
    }
    assert forall|x: int, y: int| !#[trigger] detonates(a, x, y) by {
        if detonates(a, x, y) {
            let s = choose|s: Seq<(int, int)>| #[trigger] is_chain(a, s) && s.last() == (x, y);
            assert(triggered(a, s[0].0, s[0].1));
        }
    }
    assert forall|x: int, y: int| !#[trigger] blasted(a, x, y) by {
        if blasted(a, x, y) {
            let (bx, by) = choose|bx: int, by: int| #[trigger] detonates(a, bx, by) && crate::gol::rules::near((bx, by), (x, y));
            assert(!detonates(a, bx, by));
        }
    }
    let a2 = after_bombs(a);
    lemma_from_fn(a.width, a.height, |x: int, y: int| if blasted(a, x, y) {
        CellType::Empty
    } else {
        a.at(x, y)
    });
    assert forall|x: int, y: int| a2.in_bounds(x, y) implies #[trigger] a2.at(x, y) == a.at(x, y) by {
        assert(!blasted(a, x, y));
    }
    lemma_board_ext(a2, a);
}

/// Whether `(u, v)` is one of the eight cells around `(x, y)`.
pub open spec fn adjacent(x: int, y: int, u: int, v: int) -> bool {
    &&& x - 1 <= u <= x + 1
    &&& y - 1 <= v <= y + 1
    &&& !(u == x && v == y)
}

/// Whether a red living cell stands on the grid next to `(x, y)`.
pub open spec fn touched_by_red(b: Board, x: int, y: int) -> bool {
    exists|u: int, v: int| adjacent(x, y, u, v) && b.in_bounds(u, v) && #[trigger] b.at(u, v) == CellType::Normal(Faction::Red)
}

/// The neighbour position with column offset `dx` and row offset `dy`.
spec fn nb_index(dx: int, dy: int) -> int {
    if dy == -1 {
        dx + 1
    } else if dy == 0 {
        if dx == -1 {
            3
        } else {
            4
        }
    } else {
        dx + 6
    }
}

proof fn lemma_red_witness(b: Board, x: int, y: int, k: int)
    requires
        b.red_count(x, y, k) > 0,
    ensures
        exists|j: int| 0 <= j < k && b.nb_in(x, y, j) && is_red(#[trigger] b.nb_cell(x, y, j)),
    decreases k,
{
    if k > 0 && !(b.nb_in(x, y, k - 1) && is_red(b.nb_cell(x, y, k - 1))) {
        lemma_red_witness(b, x, y, k - 1);
    }
}

proof fn lemma_red_positive(b: Board, x: int, y: int, k: int, j: int)
    requires
        0 <= j < k,
        b.nb_in(x, y, j),
        is_red(b.nb_cell(x, y, j)),
    ensures
        b.red_count(x, y, k) > 0,
    decreases k,
{
    if j < k - 1 {
        lemma_red_positive(b, x, y, k - 1, j);
    }
}

/// A cell has a red neighbour by count exactly when a red living cell stands next to it.
proof fn lemma_red_neighbour(b: Board, x: int, y: int)
    ensures
        b.red_neighbors(x, y) > 0 <==> touched_by_red(b, x, y),
{
    if b.red_neighbors(x, y) > 0 {
        lemma_red_witness(b, x, y, 8);
        let j = choose|j: int| 0 <= j < 8 && b.nb_in(x, y, j) && is_red(#[trigger] b.nb_cell(x, y, j));
        let u = x + crate::grid::board::nb_dx(j);
        let v = y + crate::grid::board::nb_dy(j);
        assert(adjacent(x, y, u, v));
        assert(b.at(u, v) == CellType::Normal(Faction::Red));
    }
    if touched_by_red(b, x, y) {
        let (u, v) = choose|u: int, v: int| adjacent(x, y, u, v) && b.in_bounds(u, v) && #[trigger] b.at(u, v) == CellType::Normal(Faction::Red);
        let j = nb_index(u - x, v - y);
        assert(0 <= j < 8);
        assert(crate::grid::board::nb_dx(j) == u - x && crate::grid::board::nb_dy(j) == v - y);
        assert(b.nb_cell(x, y, j) == b.at(u, v));
        lemma_red_positive(b, x, y, 8, j);
    }
}

/// A high-value target is destroyed exactly when some red living cell stands next to it, however
/// many blue cells surround it: it is then emptied, and every other cell is left alone.
#[verifier::spinoff_prover]
pub proof fn law_red_touch_destroys(b: Board, x: int, y: int)
    requires
        b.wf(),
    ensures
        hv_hit(b, x, y) <==> (b.in_bounds(x, y) && b.at(x, y) is HighValue && touched_by_red(b, x, y)),
        b.in_bounds(x, y) ==> hv_cleared(b).at(x, y) == (if b.at(x, y) is HighValue && touched_by_red(b, x, y) {
            CellType::Empty
        } else {
            b.at(x, y)
        }),
        hv_cleared(b).width == b.width && hv_cleared(b).height == b.height,
{
    lemma_red_neighbour(b, x, y);
    lemma_from_fn(b.width, b.height, |i: int, j: int| if hv_hit(b, i, j) {
        CellType::Empty
    } else {
        b.at(i, j)
    });
}

/// The rules of one generation, cell by cell: a living cell with two or three living neighbours
/// stays exactly as it was, faction included; with any other number it dies. An empty cell with
/// exactly three living neighbours is born red when at least two of them are red and blue
/// otherwise; with any other number it stays empty. Walls, bombs and targets never change.
#[verifier::spinoff_prover]
pub proof fn law_generation_rules(b: Board, x: int, y: int)
    requires
        b.wf(),
        b.in_bounds(x, y),
    ensures
        b.at(x, y) is Normal && (b.living(x, y) == 2 || b.living(x, y) == 3) ==> next_generation(b).at(x, y) == b.at(x, y),
        b.at(x, y) is Normal && !(b.living(x, y) == 2 || b.living(x, y) == 3) ==> next_generation(b).at(x, y) == CellType::Empty,
        b.at(x, y) is Empty && b.living(x, y) == 3 && b.red_neighbors(x, y) >= 2 ==> next_generation(b).at(x, y) == CellType::Normal(Faction::Red),
        b.at(x, y) is Empty && b.living(x, y) == 3 && b.red_neighbors(x, y) < 2 ==> next_generation(b).at(x, y) == CellType::Normal(Faction::Blue),
        b.at(x, y) is Empty && b.living(x, y) != 3 ==> next_generation(b).at(x, y) == CellType::Empty,
        !(b.at(x, y) is Normal) && !(b.at(x, y) is Empty) ==> next_generation(b).at(x, y) == b.at(x, y),
{
    lemma_from_fn(b.width, b.height, |i: int, j: int| next_cell(b, i, j));
    law_faction_partition(b, x, y);
}

/// 1 when `(u, v)` is on the grid and alive, else 0.
pub open spec fn alive_at(b: Board, u: int, v: int) -> int {
    if b.in_bounds(u, v) && b.at(u, v) is Normal {
        1
    } else {
        0
    }
}

/// 1 when `(u, v)` is on the grid and holds a red living cell, else 0.
pub open spec fn red_at(b: Board, u: int, v: int) -> int {
    if b.in_bounds(u, v) && b.at(u, v) == CellType::Normal(Faction::Red) {
        1
    } else {
        0
    }
}

/// 1 when `(u, v)` is on the grid and holds a blue living cell, else 0.
pub open spec fn blue_at(b: Board, u: int, v: int) -> int {
    if b.in_bounds(u, v) && b.at(u, v) == CellType::Normal(Faction::Blue) {
        1
    } else {
        0
    }
}

#[verifier::spinoff_prover]
proof fn lemma_living_expanded(b: Board, x: int, y: int)
    ensures
        b.living(x, y) == alive_at(b, x - 1, y - 1) + alive_at(b, x, y - 1) + alive_at(b, x + 1, y - 1)
            + alive_at(b, x - 1, y) + alive_at(b, x + 1, y)
            + alive_at(b, x - 1, y + 1) + alive_at(b, x, y + 1) + alive_at(b, x + 1, y + 1),
{
    reveal_with_fuel(Board::living_count, 9);
}

#[verifier::spinoff_prover]
proof fn lemma_red_expanded(b: Board, x: int, y: int)
    ensures
        b.red_neighbors(x, y) == red_at(b, x - 1, y - 1) + red_at(b, x, y - 1) + red_at(b, x + 1, y - 1)
            + red_at(b, x - 1, y) + red_at(b, x + 1, y)
            + red_at(b, x - 1, y + 1) + red_at(b, x, y + 1) + red_at(b, x + 1, y + 1),
{
    reveal_with_fuel(Board::red_count, 9);
}

#[verifier::spinoff_prover]
proof fn lemma_blue_expanded(b: Board, x: int, y: int)
    ensures
        b.blue_neighbors(x, y) == blue_at(b, x - 1, y - 1) + blue_at(b, x, y - 1) + blue_at(b, x + 1, y - 1)
            + blue_at(b, x - 1, y) + blue_at(b, x + 1, y)
            + blue_at(b, x - 1, y + 1) + blue_at(b, x, y + 1) + blue_at(b, x + 1, y + 1),
{
    reveal_with_fuel(Board::blue_count, 9);
}

/// The neighbour counts are taken over the eight cells around a cell, the cell itself left out,
/// and only over cells on the grid: living, red and blue cells each counted once.
pub proof fn law_neighbour_counts(b: Board, x: int, y: int)
    ensures
        b.living(x, y) == alive_at(b, x - 1, y - 1) + alive_at(b, x, y - 1) + alive_at(b, x + 1, y - 1)
            + alive_at(b, x - 1, y) + alive_at(b, x + 1, y)
            + alive_at(b, x - 1, y + 1) + alive_at(b, x, y + 1) + alive_at(b, x + 1, y + 1),
        b.red_neighbors(x, y) == red_at(b, x - 1, y - 1) + red_at(b, x, y - 1) + red_at(b, x + 1, y - 1)
            + red_at(b, x - 1, y) + red_at(b, x + 1, y)
            + red_at(b, x - 1, y + 1) + red_at(b, x, y + 1) + red_at(b, x + 1, y + 1),
        b.blue_neighbors(x, y) == blue_at(b, x - 1, y - 1) + blue_at(b, x, y - 1) + blue_at(b, x + 1, y - 1)
            + blue_at(b, x - 1, y) + blue_at(b, x + 1, y)
            + blue_at(b, x - 1, y + 1) + blue_at(b, x, y + 1) + blue_at(b, x + 1, y + 1),
{
    lemma_living_expanded(b, x, y);
    lemma_red_expanded(b, x, y);
    lemma_blue_expanded(b, x, y);
}

/// The level is won exactly when the targets are all gone: after the touched targets are
/// removed, none is left precisely when every target on the board had a red living cell next to
/// it; a target that no red cell touches survives and keeps the level going.
#[verifier::spinoff_prover]
pub proof fn law_cleared_targets_win(b: Board)
    requires
        b.wf(),
    ensures
        !has_high_value(hv_cleared(b)) <==> (forall|x: int, y: int| b.in_bounds(x, y) && #[trigger] b.at(x, y) is HighValue
            ==> touched_by_red(b, x, y)),
        !has_high_value(b) ==> !has_high_value(hv_cleared(b)),
{
    let f = hv_cleared(b);
    if has_high_value(f) {
        let (x, y) = choose|x: int, y: int| f.in_bounds(x, y) && #[trigger] f.at(x, y) is HighValue;
        law_red_touch_destroys(b, x, y);
        assert(b.at(x, y) is HighValue && !touched_by_red(b, x, y));
    }
    assert forall|x: int, y: int| b.in_bounds(x, y) && #[trigger] b.at(x, y) is HighValue && !touched_by_red(b, x, y)
        implies has_high_value(f) by {
        law_red_touch_destroys(b, x, y);
        assert(f.at(x, y) is HighValue);
    }
}

} // verus!
