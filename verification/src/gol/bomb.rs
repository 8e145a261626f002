use vstd::prelude::*;

use crate::gol::mask::Mask;
use crate::gol::rules::{
    BLAST_RADIUS, after_bombs, blasted, detonates, is_bomb_at, is_chain, near, triggered,
};
use crate::grid::board::{
    Board, Grid, coord_of, distinct, lemma_board_ext, lemma_col_major_distinct, lemma_push_contains,
    sorted_col_major, col_major_lt, span_hi, span_lo,
};
use crate::grid::types::{CellType, GridCoord};

verus! {

/// What the bombs did in one step.
pub struct BombExplosionResult {
    /// Every cell that a blast emptied.
    pub affected_cells: Vec<GridCoord>,
    /// Every bomb that went off.
    pub triggered_bombs: Vec<GridCoord>,
}

/// A set of positions that holds every triggered bomb and every bomb in the blast of one of its
/// bombs holds the end of every chain reaction.
pub proof fn lemma_closed_holds_chain(b: Board, set: spec_fn(int, int) -> bool, s: Seq<(int, int)>)
    requires
        forall|x: int, y: int| #[trigger] triggered(b, x, y) ==> set(x, y),
        forall|x: int, y: int, bx: int, by: int|
            #![trigger set(x, y), is_bomb_at(b, bx, by)]
            set(x, y) && is_bomb_at(b, bx, by) && near((x, y), (bx, by)) ==> set(bx, by),
        is_chain(b, s),
    ensures
        set(s.last().0, s.last().1),
    decreases s.len(),
{
    if s.len() == 1 {
        assert(triggered(b, s[0].0, s[0].1));
    } else {
        let t = s.drop_last();
        assert(is_chain(b, t)) by {
            assert forall|i: int| 0 <= i < t.len() implies is_bomb_at(b, (#[trigger] t[i]).0, t[i].1) by {
                assert(t[i] == s[i]);
            }
            assert forall|i: int| 0 <= i < t.len() - 1 implies near(#[trigger] t[i], t[i + 1]) by {
                assert(t[i] == s[i]);
                assert(t[i + 1] == s[i + 1]);
            }
        }
        lemma_closed_holds_chain(b, set, t);
        let i = s.len() - 2;
        assert(near(s[i], s[i + 1]));
        assert(is_bomb_at(b, s[i + 1].0, s[i + 1].1));
        assert(t.last() == s[i]);
    }
}

/// Extending a chain reaction by a bomb in the blast of its last bomb.
proof fn lemma_chain_extend(b: Board, s: Seq<(int, int)>, x: int, y: int)
    requires
        is_chain(b, s),
        is_bomb_at(b, x, y),
        near(s.last(), (x, y)),
    ensures
        is_chain(b, s.push((x, y))),
        detonates(b, x, y),
{
    let t = s.push((x, y));
    assert forall|i: int| 0 <= i < t.len() implies is_bomb_at(b, (#[trigger] t[i]).0, t[i].1) by {
        if i < s.len() {
            assert(t[i] == s[i]);
        }
    }
    assert forall|i: int| 0 <= i < t.len() - 1 implies near(#[trigger] t[i], t[i + 1]) by {
        if i < s.len() - 1 {
            assert(t[i] == s[i]);
            assert(t[i + 1] == s[i + 1]);
        } else {
            assert(t[i] == s.last());
        }
    }
    assert(t.last() == (x, y));
    assert(is_chain(b, t));
}

/// A bomb that goes off lies on the grid.
proof fn lemma_detonates_bomb(b: Board, x: int, y: int)
    requires
        detonates(b, x, y),
    ensures
        is_bomb_at(b, x, y),
{
    let s = choose|s: Seq<(int, int)>| #[trigger] is_chain(b, s) && s.last() == (x, y);
    assert(s[s.len() - 1] == s.last());
    assert(is_bomb_at(b, (s[s.len() - 1]).0, s[s.len() - 1].1));
}

/// The bookkeeping of the chain-reaction search: the marked table, the list of marked
/// positions in marking order, and the work list of marked positions still to expand.
pub open spec fn search_ok(b: Board, seen: Mask, order: Seq<GridCoord>, queue: Seq<GridCoord>) -> bool {
    &&& seen.wf()
    &&& seen.width == b.width
    &&& seen.height == b.height
    &&& distinct(order)
    &&& distinct(queue)
    &&& forall|x: int, y: int| #[trigger] seen.has(x, y) <==> order.contains(coord_of(x, y)) && b.in_bounds(x, y)
    &&& forall|j: int| 0 <= j < order.len() ==> b.in_bounds((#[trigger] order[j]).x as int, order[j].y as int)
    &&& forall|j: int| 0 <= j < queue.len() ==> seen.has((#[trigger] queue[j]).x as int, queue[j].y as int)
    &&& forall|x: int, y: int| #[trigger] seen.has(x, y) ==> detonates(b, x, y)
}

/// Every bomb within the blast of a marked position that is no longer on the work list is marked.
pub open spec fn expanded_except(b: Board, seen: Mask, queue: Seq<GridCoord>, px: int, py: int) -> bool {
    forall|x: int, y: int, bx: int, by: int|
        #![trigger seen.has(x, y), is_bomb_at(b, bx, by)]
        seen.has(x, y) && !queue.contains(coord_of(x, y)) && (x != px || y != py) && is_bomb_at(b, bx, by)
            && near((x, y), (bx, by)) ==> seen.has(bx, by)
}

/// Marks a bomb that goes off and puts it on the work list.
fn enqueue(
    seen: &mut Mask,
    queue: &mut Vec<GridCoord>,
    order: &mut Vec<GridCoord>,
    c: GridCoord,
    Ghost(b): Ghost<Board>,
)
    requires
        search_ok(b, *old(seen), old(order)@, old(queue)@),
        b.in_bounds(c.x as int, c.y as int),
        !old(seen).has(c.x as int, c.y as int),
        detonates(b, c.x as int, c.y as int),
    ensures
        search_ok(b, *final(seen), final(order)@, final(queue)@),
        final(queue)@ == old(queue)@.push(c),
        final(order)@ == old(order)@.push(c),
        forall|x: int, y: int| #[trigger] final(seen).has(x, y) == (old(seen).has(x, y) || (x == c.x && y == c.y)),
        final(seen).unmarked() + 1 == old(seen).unmarked(),
{
    let ghost oq = queue@;
    let ghost oo = order@;
    let ghost os = *seen;
    proof {
        lemma_push_contains(order@, c);
        lemma_push_contains(queue@, c);
        assert(coord_of(c.x as int, c.y as int) == c);
        assert(!order@.contains(c));
        assert(!queue@.contains(c)) by {
            if queue@.contains(c) {
                let j = choose|j: int| 0 <= j < oq.len() && oq[j] == c;
                assert(os.has(oq[j].x as int, oq[j].y as int));
            }
        }
    }
    seen.mark(c.x, c.y);
    queue.push(c);
    order.push(c);
    proof {
        assert forall|xx: int, yy: int| #[trigger] seen.has(xx, yy) <==> order@.contains(coord_of(xx, yy)) && b.in_bounds(xx, yy) by {
            if xx == c.x && yy == c.y {
                assert(coord_of(xx, yy) == c);
            }
            if order@.contains(coord_of(xx, yy)) && coord_of(xx, yy) == c && b.in_bounds(xx, yy) {
                assert(xx == c.x && yy == c.y);
            }
        }
        assert forall|j: int, k: int| 0 <= j < k < order@.len() implies #[trigger] order@[j] != #[trigger] order@[k] by {
            if k == oo.len() {
                assert(order@[j] == oo[j]);
                assert(oo.contains(oo[j]));
            }
        }
        assert forall|j: int, k: int| 0 <= j < k < queue@.len() implies #[trigger] queue@[j] != #[trigger] queue@[k] by {
            if k == oq.len() {
                assert(queue@[j] == oq[j]);
                assert(oq.contains(oq[j]));
            }
        }
        assert forall|j: int| 0 <= j < queue@.len() implies seen.has((#[trigger] queue@[j]).x as int, queue@[j].y as int) by {
            if j < oq.len() {
                assert(queue@[j] == oq[j]);
            }
        }
        assert forall|j: int| 0 <= j < order@.len() implies b.in_bounds((#[trigger] order@[j]).x as int, order@[j].y as int) by {
            if j < oo.len() {
                assert(order@[j] == oo[j]);
            }
        }
    }
}

/// Expands one marked bomb: marks and enqueues every unmarked bomb within its blast.
fn expand(
    grid: &Grid,
    seen: &mut Mask,
    queue: &mut Vec<GridCoord>,
    order: &mut Vec<GridCoord>,
    p: GridCoord,
)
    requires
        grid.wf(),
        search_ok(grid@, *old(seen), old(order)@, old(queue)@),
        old(seen).has(p.x as int, p.y as int),
        !old(queue)@.contains(p),
        expanded_except(grid@, *old(seen), old(queue)@, p.x as int, p.y as int),
    ensures
        search_ok(grid@, *final(seen), final(order)@, final(queue)@),
        expanded_except(grid@, *final(seen), final(queue)@, -1, -1),
        forall|x: int, y: int| #[trigger] old(seen).has(x, y) ==> final(seen).has(x, y),
        final(seen).unmarked() + final(queue)@.len() <= old(seen).unmarked() + old(queue)@.len(),
{
    let ghost b = grid@;
    let ghost px = p.x as int;
    let ghost py = p.y as int;
    let ghost m0 = seen.unmarked();
    let ghost qlen0 = queue@.len();
    let ghost pchain = choose|s: Seq<(int, int)>| #[trigger] is_chain(b, s) && s.last() == (px, py);
    let w = grid.width;
    let h = grid.height;
    let xlo = if p.x >= BLAST_RADIUS { p.x - BLAST_RADIUS } else { 0 };
    let ylo = if p.y >= BLAST_RADIUS { p.y - BLAST_RADIUS } else { 0 };
    let xhi = if p.x < w && BLAST_RADIUS < w - p.x { p.x + BLAST_RADIUS + 1 } else { w };
    let yhi = if p.y < h && BLAST_RADIUS < h - p.y { p.y + BLAST_RADIUS + 1 } else { h };
    assert(coord_of(px, py) == p);
    let mut x: usize = xlo;
    while x < xhi
        invariant
            grid.wf(),
            grid@ == b,
            w == b.width,
            h == b.height,
            xlo == span_lo(px, BLAST_RADIUS as int),
            xhi == span_hi(px, BLAST_RADIUS as int, w as int),
            ylo == span_lo(py, BLAST_RADIUS as int),
            yhi == span_hi(py, BLAST_RADIUS as int, h as int),
            xlo <= x,
            coord_of(px, py) == p,
            is_chain(b, pchain),
            pchain.last() == (px, py),
            seen.has(px, py),
            !queue@.contains(p),
            seen.unmarked() + queue@.len() <= m0 + qlen0,
            search_ok(b, *seen, order@, queue@),
            expanded_except(b, *seen, queue@, px, py),
            forall|xx: int, yy: int| #[trigger] old(seen).has(xx, yy) ==> seen.has(xx, yy),
            forall|bx: int, by: int| #[trigger] is_bomb_at(b, bx, by) && near((px, py), (bx, by)) && bx < x
                ==> seen.has(bx, by),
        decreases xhi - x,
    {
        let mut y: usize = ylo;
        while y < yhi
            invariant
                grid.wf(),
                grid@ == b,
                w == b.width,
                h == b.height,
                xlo == span_lo(px, BLAST_RADIUS as int),
                xhi == span_hi(px, BLAST_RADIUS as int, w as int),
                ylo == span_lo(py, BLAST_RADIUS as int),
                yhi == span_hi(py, BLAST_RADIUS as int, h as int),
                xlo <= x < xhi,
                ylo <= y,
                coord_of(px, py) == p,
                is_chain(b, pchain),
                pchain.last() == (px, py),
                seen.has(px, py),
                !queue@.contains(p),
                seen.unmarked() + queue@.len() <= m0 + qlen0,
                search_ok(b, *seen, order@, queue@),
                expanded_except(b, *seen, queue@, px, py),
                forall|xx: int, yy: int| #[trigger] old(seen).has(xx, yy) ==> seen.has(xx, yy),
                forall|bx: int, by: int| #[trigger] is_bomb_at(b, bx, by) && near((px, py), (bx, by))
                    && (bx < x || (bx == x && by < y)) ==> seen.has(bx, by),
            decreases yhi - y,
        {
            assert(grid.cells@[x as int]@ == b.cells[x as int]);
            if grid.cells[x][y] == CellType::Bomb && !seen.get(x, y) {
                let c = GridCoord::new(x, y);
                let ghost oq = queue@;
                let ghost os = *seen;
                proof {
                    lemma_chain_extend(b, pchain, x as int, y as int);
                }
                enqueue(seen, queue, order, c, Ghost(b));
                proof {
                    lemma_push_contains(oq, c);
                    assert(!queue@.contains(p)) by {
                        assert(c != p);
                    }
                    assert forall|xx: int, yy: int, bx: int, by: int|
                        #![trigger seen.has(xx, yy), is_bomb_at(b, bx, by)]
                        seen.has(xx, yy) && !queue@.contains(coord_of(xx, yy)) && (xx != px || yy != py)
                            && is_bomb_at(b, bx, by) && near((xx, yy), (bx, by)) implies seen.has(bx, by) by {
                        if !(xx == x && yy == y) {
                            assert(os.has(xx, yy));
                            assert(!oq.contains(coord_of(xx, yy)));
                            assert(os.has(bx, by));
                        } else {
                            assert(coord_of(xx, yy) == c);
                        }
                    }
                }
            }
            y = y + 1;
        }
        x = x + 1;
    }
    proof {
        assert forall|bx: int, by: int| #[trigger] is_bomb_at(b, bx, by) && near((px, py), (bx, by))
            implies seen.has(bx, by) by {
            assert(bx < xhi);
        }
        assert forall|xx: int, yy: int, bx: int, by: int|
            #![trigger seen.has(xx, yy), is_bomb_at(b, bx, by)]
            seen.has(xx, yy) && !queue@.contains(coord_of(xx, yy)) && (xx != -1 || yy != -1)
                && is_bomb_at(b, bx, by) && near((xx, yy), (bx, by)) implies seen.has(bx, by) by {
            if xx == px && yy == py {
            }
        }
    }
}

/// Finds every bomb that goes off: the triggered ones and, by chain reaction, every bomb in the
/// blast of one that goes off. Marks them in the returned table and lists each once.
fn bomb_closure(grid: &Grid) -> (r: (Mask, Vec<GridCoord>))
    requires
        grid.wf(),
    ensures
        r.0.wf(),
        r.0.width == grid.width,
        r.0.height == grid.height,
        forall|x: int, y: int| #[trigger] r.0.has(x, y) <==> detonates(grid@, x, y),
        distinct(r.1@),
        forall|c: GridCoord| #[trigger] r.1@.contains(c) <==> detonates(grid@, c.x as int, c.y as int),
{
    let ghost b = grid@;
    let bombs = grid.find_bombs();
    let mut seen = Mask::new(grid.width, grid.height);
    let mut queue: Vec<GridCoord> = Vec::new();
    let mut order: Vec<GridCoord> = Vec::new();
    let mut i: usize = 0;
    while i < bombs.len()
        invariant
            grid.wf(),
            grid@ == b,
            i <= bombs@.len(),
            forall|c: GridCoord|
                #[trigger] bombs@.contains(c) <==> (b.in_bounds(c.x as int, c.y as int) && b.at(c.x as int, c.y as int) is Bomb),
            queue@ == order@,
            search_ok(b, seen, order@, queue@),
            forall|j: int| 0 <= j < i ==> triggered(b, (#[trigger] bombs@[j]).x as int, bombs@[j].y as int)
                ==> seen.has(bombs@[j].x as int, bombs@[j].y as int),
        decreases bombs@.len() - i,
    {
        let c = bombs[i];
        assert(bombs@.contains(c));
        if grid.has_normal_neighbor(c) && !seen.get(c.x, c.y) {
            proof {
                let s = seq![(c.x as int, c.y as int)];
                assert(is_chain(b, s));
                assert(s.last() == (c.x as int, c.y as int));
            }
            enqueue(&mut seen, &mut queue, &mut order, c, Ghost(b));
        }
        i = i + 1;
    }
    proof {
        assert forall|x: int, y: int| #[trigger] triggered(b, x, y) implies seen.has(x, y) by {
            let c = coord_of(x, y);
            assert(bombs@.contains(c));
            let j = choose|j: int| 0 <= j < bombs@.len() && bombs@[j] == c;
            assert(triggered(b, bombs@[j].x as int, bombs@[j].y as int));
        }
        assert(expanded_except(b, seen, queue@, -1, -1)) by {
            assert forall|xx: int, yy: int, bx: int, by: int|
                #![trigger seen.has(xx, yy), is_bomb_at(b, bx, by)]
                seen.has(xx, yy) && !queue@.contains(coord_of(xx, yy)) && (xx != -1 || yy != -1)
                    && is_bomb_at(b, bx, by) && near((xx, yy), (bx, by)) implies seen.has(bx, by) by {
                assert(order@.contains(coord_of(xx, yy)));
            }
        }
    }
    while queue.len() > 0
        invariant
            grid.wf(),
            grid@ == b,
            search_ok(b, seen, order@, queue@),
            forall|x: int, y: int| #[trigger] triggered(b, x, y) ==> seen.has(x, y),
            expanded_except(b, seen, queue@, -1, -1),
        decreases seen.unmarked() + queue@.len(),
    {
        let ghost q0 = queue@;
        let p = queue.pop().unwrap();
        proof {
            assert(q0 =~= queue@.push(p));
            lemma_push_contains(queue@, p);
            assert(q0[q0.len() - 1] == p);
            assert(seen.has(p.x as int, p.y as int));
            assert(!queue@.contains(p)) by {
                if queue@.contains(p) {
                    let j = choose|j: int| 0 <= j < queue@.len() && queue@[j] == p;
                    assert(q0[j] == q0[q0.len() - 1]);
                }
            }
            assert(distinct(queue@)) by {
                assert forall|j: int, k: int| 0 <= j < k < queue@.len() implies #[trigger] queue@[j] != #[trigger] queue@[k] by {
                    assert(queue@[j] == q0[j] && queue@[k] == q0[k]);
                }
            }
            assert forall|j: int| 0 <= j < queue@.len() implies seen.has((#[trigger] queue@[j]).x as int, queue@[j].y as int) by {
                assert(queue@[j] == q0[j]);
            }
            assert(expanded_except(b, seen, queue@, p.x as int, p.y as int)) by {
                assert forall|xx: int, yy: int, bx: int, by: int|
                    #![trigger seen.has(xx, yy), is_bomb_at(b, bx, by)]
                    seen.has(xx, yy) && !queue@.contains(coord_of(xx, yy)) && (xx != p.x || yy != p.y)
                        && is_bomb_at(b, bx, by) && near((xx, yy), (bx, by)) implies seen.has(bx, by) by {
                    assert(b.in_bounds(xx, yy));
                    assert(coord_of(xx, yy) != p);
                    assert(!q0.contains(coord_of(xx, yy)));
                }
            }
        }
        expand(grid, &mut seen, &mut queue, &mut order, p);
    }
    proof {
        let set = |x: int, y: int| seen.has(x, y);
        assert forall|x: int, y: int, bx: int, by: int|
            #![trigger set(x, y), is_bomb_at(b, bx, by)]
            set(x, y) && is_bomb_at(b, bx, by) && near((x, y), (bx, by)) implies set(bx, by) by {
            assert(!queue@.contains(coord_of(x, y)));
        }
        assert forall|x: int, y: int| #[trigger] seen.has(x, y) <==> detonates(b, x, y) by {
            if detonates(b, x, y) {
                let s = choose|s: Seq<(int, int)>| #[trigger] is_chain(b, s) && s.last() == (x, y);
                lemma_closed_holds_chain(b, set, s);
            }
        }
        assert forall|c: GridCoord| #[trigger] order@.contains(c) <==> detonates(b, c.x as int, c.y as int) by {
            assert(coord_of(c.x as int, c.y as int) == c);
            if order@.contains(c) {
                let j = choose|j: int| 0 <= j < order@.len() && order@[j] == c;
                assert(b.in_bounds(order@[j].x as int, order@[j].y as int));
                assert(seen.has(c.x as int, c.y as int));
            }
            if detonates(b, c.x as int, c.y as int) {
                lemma_detonates_bomb(b, c.x as int, c.y as int);
                assert(seen.has(c.x as int, c.y as int));
            }
        }
    }
    (seen, order)
}

/// Whether some marked position lies within the blast radius of `(x, y)`.
fn any_marked_near(seen: &Mask, x: usize, y: usize) -> (r: bool)
    requires
        seen.wf(),
    ensures
        r == exists|vx: int, vy: int| #[trigger] seen.has(vx, vy) && near((vx, vy), (x as int, y as int)),
{
    let w = seen.width;
    let h = seen.height;
    let xlo = if x >= BLAST_RADIUS { x - BLAST_RADIUS } else { 0 };
    let ylo = if y >= BLAST_RADIUS { y - BLAST_RADIUS } else { 0 };
    let xhi = if x < w && BLAST_RADIUS < w - x { x + BLAST_RADIUS + 1 } else { w };
    let yhi = if y < h && BLAST_RADIUS < h - y { y + BLAST_RADIUS + 1 } else { h };
    let mut i: usize = xlo;
    while i < xhi
        invariant
            seen.wf(),
            w == seen.width,
            h == seen.height,
            xlo == span_lo(x as int, BLAST_RADIUS as int),
            xhi == span_hi(x as int, BLAST_RADIUS as int, w as int),
            ylo == span_lo(y as int, BLAST_RADIUS as int),
            yhi == span_hi(y as int, BLAST_RADIUS as int, h as int),
            xlo <= i,
            forall|vx: int, vy: int| #[trigger] seen.has(vx, vy) && near((vx, vy), (x as int, y as int)) ==> vx >= i,
        decreases xhi - i,
    {
        let mut j: usize = ylo;
        while j < yhi
            invariant
                seen.wf(),
                w == seen.width,
                h == seen.height,
                xlo == span_lo(x as int, BLAST_RADIUS as int),
                xhi == span_hi(x as int, BLAST_RADIUS as int, w as int),
                ylo == span_lo(y as int, BLAST_RADIUS as int),
                yhi == span_hi(y as int, BLAST_RADIUS as int, h as int),
                xlo <= i < xhi,
                ylo <= j,
                forall|vx: int, vy: int| #[trigger] seen.has(vx, vy) && near((vx, vy), (x as int, y as int))
                    ==> vx > i || (vx == i && vy >= j),
            decreases yhi - j,
        {
            if seen.get(i, j) {
                assert(seen.has(i as int, j as int) && near((i as int, j as int), (x as int, y as int)));
                return true;
            }
            j = j + 1;
        }
        i = i + 1;
    }
    false
}

/// Sets off the bombs: every bomb touched by a living cell goes off, and every bomb within the
/// blast radius of a bomb that goes off goes off too. Every cell within the blast radius of a
/// bomb that goes off, bombs included, is emptied.
pub fn process_bombs(grid: &mut Grid) -> (r: BombExplosionResult)
    requires
        old(grid).wf(),
    ensures
        final(grid).wf(),
        final(grid)@ == after_bombs(old(grid)@),
        distinct(r.affected_cells@),
        forall|c: GridCoord|
            #[trigger] r.affected_cells@.contains(c) <==> blasted(old(grid)@, c.x as int, c.y as int),
        distinct(r.triggered_bombs@),
        forall|c: GridCoord|
            #[trigger] r.triggered_bombs@.contains(c) <==> detonates(old(grid)@, c.x as int, c.y as int),
{
    let ghost b = grid@;
    let (seen, order) = bomb_closure(grid);
    let w = grid.width;
    let h = grid.height;
    let mut affected: Vec<GridCoord> = Vec::new();
    let mut x: usize = 0;
    while x < w
        invariant
            grid.wf(),
            grid.width == w,
            grid.height == h,
            b.width == w,
            b.height == h,
            b.wf(),
            seen.wf(),
            seen.width == w,
            seen.height == h,
            forall|i: int, j: int| #[trigger] seen.has(i, j) <==> detonates(b, i, j),
            x <= w,
            forall|i: int, j: int| 0 <= i < w && 0 <= j < h ==> #[trigger] grid@.at(i, j) == (if i < x && blasted(b, i, j) {
                CellType::Empty
            } else {
                b.at(i, j)
            }),
            sorted_col_major(affected@),
            forall|k: int| 0 <= k < affected@.len() ==> (#[trigger] affected@[k]).x < x,
            forall|c: GridCoord| #[trigger] affected@.contains(c) <==> (blasted(b, c.x as int, c.y as int) && c.x < x),
        decreases w - x,
    {
        let mut y: usize = 0;
        while y < h
            invariant
                grid.wf(),
                grid.width == w,
                grid.height == h,
                b.width == w,
                b.height == h,
                b.wf(),
                seen.wf(),
                seen.width == w,
                seen.height == h,
                forall|i: int, j: int| #[trigger] seen.has(i, j) <==> detonates(b, i, j),
                x < w,
                y <= h,
                forall|i: int, j: int| 0 <= i < w && 0 <= j < h ==> #[trigger] grid@.at(i, j) == (if (i < x || (i == x
                    && j < y)) && blasted(b, i, j) {
                    CellType::Empty
                } else {
                    b.at(i, j)
                }),
                sorted_col_major(affected@),
                forall|k: int| 0 <= k < affected@.len() ==> col_major_lt(#[trigger] affected@[k], GridCoord { x, y }),
                forall|c: GridCoord| #[trigger] affected@.contains(c) <==> (blasted(b, c.x as int, c.y as int) && (c.x < x || (c.x == x && c.y < y))),
            decreases h - y,
        {
            let hit = any_marked_near(&seen, x, y);
            let c = GridCoord::new(x, y);
            proof {
                if hit {
                    let (vx, vy) = choose|vx: int, vy: int| #[trigger] seen.has(vx, vy) && near((vx, vy), (x as int, y as int));
                    assert(detonates(b, vx, vy));
                    assert(blasted(b, x as int, y as int));
                } else {
                    if blasted(b, x as int, y as int) {
                        let (bx, by) = choose|bx: int, by: int| #[trigger] detonates(b, bx, by) && near((bx, by), (x as int, y as int));
                        assert(seen.has(bx, by));
                    }
                }
            }
            let ghost before = affected@;
            let ghost g0 = grid@;
            if hit {
                affected.push(c);
                grid.set(c, CellType::Empty);
            }
            proof {
                lemma_push_contains(before, c);
                assert forall|d: GridCoord| #[trigger] affected@.contains(d) <==> (blasted(b, d.x as int, d.y as int) && (d.x < x || (d.x == x && d.y < y + 1))) by {
                    if d.x == x && d.y == y {
                        assert(d == c);
                    }
                }
                assert forall|i: int, j: int| 0 <= i < w && 0 <= j < h implies #[trigger] grid@.at(i, j) == (if (i < x || (i == x
                    && j < y + 1)) && blasted(b, i, j) {
                    CellType::Empty
                } else {
                    b.at(i, j)
                }) by {
                    assert(g0.at(i, j) == (if (i < x || (i == x && j < y)) && blasted(b, i, j) {
                        CellType::Empty
                    } else {
                        b.at(i, j)
                    }));
                    if hit {
                        assert(grid@ == g0.with_cell(x as int, y as int, CellType::Empty));
                        if i != x {
                            assert(grid@.cells[i] == g0.cells[i]);
                        }
                    }
                }
            }
            y = y + 1;
        }
        x = x + 1;
    }
    proof {
        lemma_col_major_distinct(affected@);
        let target = after_bombs(b);
        assert(target.wf());
        assert(grid@.same_cells(target));
        lemma_board_ext(grid@, target);
    }
    BombExplosionResult { affected_cells: affected, triggered_bombs: order }
}

} // verus!
