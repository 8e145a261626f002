use vstd::prelude::*;

use crate::gol::revival::revival_faction;
use crate::grid::board::Board;
use crate::grid::types::CellType;

verus! {

/// Chebyshev radius of a bomb's blast.
pub const BLAST_RADIUS: usize = 5;

/// A living cell survives with two or three living neighbours; an empty cell with exactly
/// three comes alive in the majority faction; walls, bombs and high-value targets stay.
pub open spec fn next_cell(b: Board, x: int, y: int) -> CellType {
    let c = b.at(x, y);
    let n = b.living(x, y);
    match c {
        CellType::Normal(_) => if n == 2 || n == 3 {
            c
        } else {
            CellType::Empty
        },
        CellType::Empty => if n == 3 {
            CellType::Normal(revival_faction(b.red_neighbors(x, y) as int, b.blue_neighbors(x, y) as int))
        } else {
            CellType::Empty
        },
        _ => c,
    }
}

/// The board after one B3/S23 generation, before bombs go off.
pub open spec fn next_generation(b: Board) -> Board {
    Board::from_fn(b.width, b.height, |x: int, y: int| next_cell(b, x, y))
}

pub open spec fn is_bomb_at(b: Board, x: int, y: int) -> bool {
    b.in_bounds(x, y) && b.at(x, y) is Bomb
}

/// A bomb goes off when a living cell touches it.
pub open spec fn triggered(b: Board, x: int, y: int) -> bool {
    is_bomb_at(b, x, y) && b.has_normal_neighbor(x, y)
}

/// Whether two positions are within the blast radius of each other.
pub open spec fn near(a: (int, int), c: (int, int)) -> bool {
    a.0 - BLAST_RADIUS <= c.0 <= a.0 + BLAST_RADIUS && a.1 - BLAST_RADIUS <= c.1 <= a.1 + BLAST_RADIUS
}

/// A chain reaction: it starts at a triggered bomb, and each bomb lies in the blast of the one before.
pub open spec fn is_chain(b: Board, s: Seq<(int, int)>) -> bool {
    &&& s.len() > 0
    &&& triggered(b, s[0].0, s[0].1)
    &&& forall|i: int| 0 <= i < s.len() ==> is_bomb_at(b, (#[trigger] s[i]).0, s[i].1)
    &&& forall|i: int| 0 <= i < s.len() - 1 ==> near(#[trigger] s[i], s[i + 1])
}

/// The bomb at `(x, y)` goes off, directly or in a chain reaction.
pub open spec fn detonates(b: Board, x: int, y: int) -> bool {
    exists|s: Seq<(int, int)>| #[trigger] is_chain(b, s) && s.last() == (x, y)
}

/// The on-grid cell `(x, y)` lies in the blast of some bomb that goes off.
pub open spec fn blasted(b: Board, x: int, y: int) -> bool {
    b.in_bounds(x, y) && exists|bx: int, by: int| #[trigger] detonates(b, bx, by) && near((bx, by), (x, y))
}

/// The board after every blasted cell has been emptied.
pub open spec fn after_bombs(b: Board) -> Board {
    Board::from_fn(b.width, b.height, |x: int, y: int| if blasted(b, x, y) {
        CellType::Empty
    } else {
        b.at(x, y)
    })
}

/// The board after one full evolution step: a generation, then the bombs.
pub open spec fn evolved(b: Board) -> Board {
    after_bombs(next_generation(b))
}

/// A high-value target is destroyed when a red living cell touches it.
pub open spec fn hv_hit(b: Board, x: int, y: int) -> bool {
    b.in_bounds(x, y) && b.at(x, y) is HighValue && b.red_neighbors(x, y) > 0
}

/// The board after every touched high-value target has been removed.
pub open spec fn hv_cleared(b: Board) -> Board {
    Board::from_fn(b.width, b.height, |x: int, y: int| if hv_hit(b, x, y) {
        CellType::Empty
    } else {
        b.at(x, y)
    })
}

/// Whether the board still holds a high-value target.
pub open spec fn has_high_value(b: Board) -> bool {
    exists|x: int, y: int| b.in_bounds(x, y) && #[trigger] b.at(x, y) is HighValue
}

/// A cell that dies while touching both factions is a clash.
pub open spec fn clash_at(b: Board, x: int, y: int) -> bool {
    &&& b.in_bounds(x, y)
    &&& b.at(x, y) is Normal
    &&& b.red_neighbors(x, y) > 0
    &&& b.blue_neighbors(x, y) > 0
    &&& (!(b.living(x, y) == 2 || b.living(x, y) == 3) || blasted(next_generation(b), x, y))
}

} // verus!
