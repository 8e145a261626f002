use vstd::prelude::*;

use crate::grid::board::coord_of;
use crate::grid::types::{CellType, Direction, Faction, GridCoord};
use crate::text::same_text;

verus! {

/// A preset pattern: named cells at positions.
pub struct Pattern {
    pub name: &'static str,
    pub cells: Vec<(GridCoord, CellType)>,
}

// ---- Pattern definitions (facing right) ----

pub open spec fn glider_right() -> Seq<(isize, isize)> {
    seq![(0, 1), (1, 2), (2, 0), (2, 1), (2, 2)]
}

pub open spec fn lwss_right() -> Seq<(isize, isize)> {
    seq![(0, 1), (0, 2), (0, 3), (0, 4), (1, 0), (1, 4), (2, 4), (3, 0), (3, 3)]
}

pub open spec fn block() -> Seq<(isize, isize)> {
    seq![(0, 0), (0, 1), (1, 0), (1, 1)]
}

pub open spec fn tub() -> Seq<(isize, isize)> {
    seq![(0, 1), (1, 0), (1, 2), (2, 1)]
}

pub open spec fn boat() -> Seq<(isize, isize)> {
    seq![(0, 0), (0, 1), (1, 0), (1, 2), (2, 1)]
}

pub open spec fn loaf() -> Seq<(isize, isize)> {
    seq![(0, 1), (0, 2), (1, 0), (1, 3), (2, 1), (2, 3), (3, 2)]
}

pub open spec fn beehive() -> Seq<(isize, isize)> {
    seq![(0, 1), (0, 2), (1, 0), (1, 3), (2, 1), (2, 2)]
}

pub open spec fn blinker() -> Seq<(isize, isize)> {
    seq![(0, 1), (1, 1), (2, 1)]
}

pub open spec fn toad() -> Seq<(isize, isize)> {
    seq![(0, 1), (0, 2), (0, 3), (1, 0), (1, 1), (1, 2)]
}

pub open spec fn beacon() -> Seq<(isize, isize)> {
    seq![(0, 0), (0, 1), (1, 0), (2, 3), (3, 2), (3, 3)]
}

pub open spec fn pulsar() -> Seq<(isize, isize)> {
    seq![
        (1, 3), (1, 4), (1, 5), (3, 1), (4, 1), (5, 1), (3, 6), (4, 6), (5, 6), (6, 3), (6, 4), (6, 5),
        (8, 3), (8, 4), (8, 5), (3, 8), (4, 8), (5, 8), (3, 9), (4, 9), (5, 9), (11, 3), (11, 4), (11, 5),
        (11, 8), (11, 9), (11, 10), (10, 3), (10, 5), (9, 1), (10, 1), (11, 1), (9, 6), (10, 6), (11, 6),
        (10, 8), (10, 10), (3, 11), (4, 11), (5, 11), (8, 11), (9, 11), (10, 11), (1, 3), (1, 4), (1, 5),
        (6, 1), (6, 3), (6, 4), (6, 5), (8, 1), (8, 6), (13, 1), (13, 3), (13, 4), (13, 5), (9, 9), (10, 9),
        (11, 9),
    ]
}

fn glider_right_offsets() -> (r: Vec<(isize, isize)>)
    ensures
        r@ == glider_right(),
{
    vec![(0, 1), (1, 2), (2, 0), (2, 1), (2, 2)]
}

fn lwss_right_offsets() -> (r: Vec<(isize, isize)>)
    ensures
        r@ == lwss_right(),
{
    vec![(0, 1), (0, 2), (0, 3), (0, 4), (1, 0), (1, 4), (2, 4), (3, 0), (3, 3)]
}

fn block_offsets() -> (r: Vec<(isize, isize)>)
    ensures
        r@ == block(),
{
    vec![(0, 0), (0, 1), (1, 0), (1, 1)]
}

fn tub_offsets() -> (r: Vec<(isize, isize)>)
    ensures
        r@ == tub(),
{
    vec![(0, 1), (1, 0), (1, 2), (2, 1)]
}

fn boat_offsets() -> (r: Vec<(isize, isize)>)
    ensures
        r@ == boat(),
{
    vec![(0, 0), (0, 1), (1, 0), (1, 2), (2, 1)]
}

fn loaf_offsets() -> (r: Vec<(isize, isize)>)
    ensures
        r@ == loaf(),
{
    vec![(0, 1), (0, 2), (1, 0), (1, 3), (2, 1), (2, 3), (3, 2)]
}

fn beehive_offsets() -> (r: Vec<(isize, isize)>)
    ensures
        r@ == beehive(),
{
    vec![(0, 1), (0, 2), (1, 0), (1, 3), (2, 1), (2, 2)]
}

fn blinker_offsets() -> (r: Vec<(isize, isize)>)
    ensures
        r@ == blinker(),
{
    vec![(0, 1), (1, 1), (2, 1)]
}

fn toad_offsets() -> (r: Vec<(isize, isize)>)
    ensures
        r@ == toad(),
{
    vec![(0, 1), (0, 2), (0, 3), (1, 0), (1, 1), (1, 2)]
}

fn beacon_offsets() -> (r: Vec<(isize, isize)>)
    ensures
        r@ == beacon(),
{
    vec![(0, 0), (0, 1), (1, 0), (2, 3), (3, 2), (3, 3)]
}

fn pulsar_offsets() -> (r: Vec<(isize, isize)>)
    ensures
        r@ == pulsar(),
{
    vec![
        (1, 3), (1, 4), (1, 5), (3, 1), (4, 1), (5, 1), (3, 6), (4, 6), (5, 6), (6, 3), (6, 4), (6, 5),
        (8, 3), (8, 4), (8, 5), (3, 8), (4, 8), (5, 8), (3, 9), (4, 9), (5, 9), (11, 3), (11, 4), (11, 5),
        (11, 8), (11, 9), (11, 10), (10, 3), (10, 5), (9, 1), (10, 1), (11, 1), (9, 6), (10, 6), (11, 6),
        (10, 8), (10, 10), (3, 11), (4, 11), (5, 11), (8, 11), (9, 11), (10, 11), (1, 3), (1, 4), (1, 5),
        (6, 1), (6, 3), (6, 4), (6, 5), (8, 1), (8, 6), (13, 1), (13, 3), (13, 4), (13, 5), (9, 9), (10, 9),
        (11, 9),
    ]
}

// ---- Placement ----

pub open spec fn fits_isize(v: int) -> bool {
    isize::MIN <= v <= isize::MAX
}

/// A position clamped to the coordinates a `usize` can hold: below zero gives zero, beyond the
/// largest gives the largest.
pub open spec fn clamp_coord(v: int) -> int {
    if v < 0 {
        0
    } else if v > usize::MAX {
        usize::MAX as int
    } else {
        v
    }
}

/// The grid position at signed offset `(dx, dy)` from `origin`, clamped at the top and left edges
/// (and at the largest coordinate).
pub open spec fn placed(origin: GridCoord, dx: int, dy: int) -> GridCoord {
    coord_of(clamp_coord(origin.x + dx), clamp_coord(origin.y + dy))
}

/// `o` moved by the signed offset `d`, clamped to the `usize` range.
fn shift(o: usize, d: isize) -> (r: usize)
    ensures
        r == clamp_coord(o + d),
{
    if d >= 0 {
        let a = d as usize;
        if o <= usize::MAX - a {
            o + a
        } else {
            usize::MAX
        }
    } else {
        let m = ((-(d + 1)) as usize) + 1;
        if o >= m {
            o - m
        } else {
            0
        }
    }
}

/// The cells of a pattern laid out at `origin` without rotation.
pub open spec fn applied(offsets: Seq<(isize, isize)>, origin: GridCoord, cell: CellType) -> Seq<(GridCoord, CellType)> {
    Seq::new(offsets.len(), |i: int| (placed(origin, offsets[i].0 as int, offsets[i].1 as int), cell))
}

/// Lays a pattern out at `origin`, every cell holding `cell`.
pub fn apply_pattern(offsets: &[(isize, isize)], origin: GridCoord, cell: CellType) -> (r: Vec<(GridCoord, CellType)>)
    ensures
        r@ == applied(offsets@, origin, cell),
{
    let mut result: Vec<(GridCoord, CellType)> = Vec::with_capacity(offsets.len());
    let mut i: usize = 0;
    while i < offsets.len()
        invariant
            i <= offsets@.len(),
            result@ =~= applied(offsets@, origin, cell).subrange(0, i as int),
        decreases offsets@.len() - i,
    {
        let (dx, dy) = offsets[i];
        let x = shift(origin.x, dx);
        let y = shift(origin.y, dy);
        result.push((GridCoord::new(x, y), cell));
        i = i + 1;
    }
    result
}

// ---- Rotation ----

/// A vector turned clockwise (y grows downwards) to face `dir`, starting from facing right.
pub open spec fn rotated(vx: int, vy: int, dir: Direction) -> (int, int) {
    match dir {
        Direction::Right => (vx, vy),
        Direction::Down => (-vy, vx),
        Direction::Left => (-vx, -vy),
        Direction::Up => (vy, -vx),
    }
}

/// The four directions are the quarter turns clockwise: facing right leaves an offset alone,
/// down is one quarter turn, left two and up three, and four quarter turns come back to the
/// start. Every turn keeps the offset's length.
pub proof fn law_quarter_turns(vx: int, vy: int)
    ensures
        rotated(vx, vy, Direction::Right) == (vx, vy),
        ({
            let q1 = rotated(vx, vy, Direction::Down);
            let q2 = rotated(q1.0, q1.1, Direction::Down);
            let q3 = rotated(q2.0, q2.1, Direction::Down);
            let q4 = rotated(q3.0, q3.1, Direction::Down);
            &&& q2 == rotated(vx, vy, Direction::Left)
            &&& q3 == rotated(vx, vy, Direction::Up)
            &&& q4 == (vx, vy)
        }),
        forall|d: Direction| #![trigger rotated(vx, vy, d)] {
            let r = rotated(vx, vy, d);
            r.0 * r.0 + r.1 * r.1 == vx * vx + vy * vy
        },
{
    assert forall|d: Direction| #![trigger rotated(vx, vy, d)] {
        let r = rotated(vx, vy, d);
        r.0 * r.0 + r.1 * r.1 == vx * vx + vy * vy
    } by {
        assert((-vx) * (-vx) == vx * vx) by (nonlinear_arith);
        assert((-vy) * (-vy) == vy * vy) by (nonlinear_arith);
    }
}

/// Turns a signed offset clockwise, in a grid where x grows rightwards and y downwards.
pub fn rotate_offset(vx: isize, vy: isize, dir: Direction) -> (r: (isize, isize))
    requires
        fits_isize(rotated(vx as int, vy as int, dir).0),
        fits_isize(rotated(vx as int, vy as int, dir).1),
    ensures
        r.0 == rotated(vx as int, vy as int, dir).0,
        r.1 == rotated(vx as int, vy as int, dir).1,
{
    match dir {
        Direction::Right => (vx, vy),
        Direction::Down => (-vy, vx),
        Direction::Left => (-vx, -vy),
        Direction::Up => (vy, -vx),
    }
}

pub open spec fn min_int(a: int, b: int) -> int {
    if a <= b {
        a
    } else {
        b
    }
}

pub open spec fn max_int(a: int, b: int) -> int {
    if a >= b {
        a
    } else {
        b
    }
}

/// Smallest and largest column and row offsets among the first `n >= 1` offsets.
pub open spec fn bounds_upto(s: Seq<(isize, isize)>, n: int) -> (int, int, int, int)
    decreases n,
{
    if n <= 1 {
        (s[0].0 as int, s[0].0 as int, s[0].1 as int, s[0].1 as int)
    } else {
        let (a, b, c, d) = bounds_upto(s, n - 1);
        let o = s[n - 1];
        (min_int(a, o.0 as int), max_int(b, o.0 as int), min_int(c, o.1 as int), max_int(d, o.1 as int))
    }
}

/// Bounding box of a pattern as (min x, max x, min y, max y); all zero when empty.
pub open spec fn bounding_box(s: Seq<(isize, isize)>) -> (int, int, int, int) {
    if s.len() == 0 {
        (0, 0, 0, 0)
    } else {
        bounds_upto(s, s.len() as int)
    }
}

/// Halves toward zero, as integer division of a signed value does.
pub open spec fn half_toward_zero(v: int) -> int {
    if v >= 0 {
        v / 2
    } else {
        -((-v) / 2)
    }
}

/// Centre of a pattern's bounding box, the anchor it turns around.
pub open spec fn pivot(s: Seq<(isize, isize)>) -> (int, int) {
    let (a, b, c, d) = bounding_box(s);
    (half_toward_zero(a + b), half_toward_zero(c + d))
}

pub open spec fn pivot_fits(s: Seq<(isize, isize)>) -> bool {
    let (a, b, c, d) = bounding_box(s);
    fits_isize(a + b) && fits_isize(c + d)
}

/// Centre of the bounding box of `offsets`, rounded toward zero; `(0, 0)` when empty.
pub fn pattern_pivot(offsets: &[(isize, isize)]) -> (r: (isize, isize))
    requires
        pivot_fits(offsets@),
    ensures
        r.0 == pivot(offsets@).0,
        r.1 == pivot(offsets@).1,
{
    if offsets.len() == 0 {
        return (0, 0);
    }
    let mut min_x = offsets[0].0;
    let mut max_x = offsets[0].0;
    let mut min_y = offsets[0].1;
    let mut max_y = offsets[0].1;
    let mut i: usize = 1;
    while i < offsets.len()
        invariant
            1 <= i <= offsets@.len(),
            (min_x as int, max_x as int, min_y as int, max_y as int) == bounds_upto(offsets@, i as int),
        decreases offsets@.len() - i,
    {
        let (x, y) = offsets[i];
        if x < min_x {
            min_x = x;
        }
        if x > max_x {
            max_x = x;
        }
        if y < min_y {
            min_y = y;
        }
        if y > max_y {
            max_y = y;
        }
        i = i + 1;
    }
    ((min_x + max_x) / 2, (min_y + max_y) / 2)
}

/// The cells of a pattern turned to face `dir` around its pivot and laid out at `origin`.
pub open spec fn rotated_cells(offsets: Seq<(isize, isize)>, origin: GridCoord, dir: Direction, cell: CellType) -> Seq<(GridCoord, CellType)> {
    let p = pivot(offsets);
    Seq::new(offsets.len(), |i: int| {
        let r = rotated(offsets[i].0 - p.0, offsets[i].1 - p.1, dir);
        (placed(origin, r.0, r.1), cell)
    })
}

/// Every intermediate value of turning the pattern fits a signed machine integer.
pub open spec fn rotation_fits(offsets: Seq<(isize, isize)>, dir: Direction) -> bool {
    let p = pivot(offsets);
    &&& pivot_fits(offsets)
    &&& forall|i: int| 0 <= i < offsets.len() ==> {
        let r = rotated((#[trigger] offsets[i]).0 - p.0, offsets[i].1 - p.1, dir);
        &&& fits_isize(offsets[i].0 - p.0)
        &&& fits_isize(offsets[i].1 - p.1)
        &&& fits_isize(r.0)
        &&& fits_isize(r.1)
    }
}

/// Lays a pattern out at `origin`, turned to face `dir` around the centre of its bounding box.
pub fn rotate_pattern(offsets: &[(isize, isize)], origin: GridCoord, dir: Direction, cell: CellType) -> (r: Vec<(GridCoord, CellType)>)
    requires
        rotation_fits(offsets@, dir),
    ensures
        r@ == rotated_cells(offsets@, origin, dir, cell),
{
    let (px, py) = pattern_pivot(offsets);
    let mut result: Vec<(GridCoord, CellType)> = Vec::with_capacity(offsets.len());
    let mut i: usize = 0;
    while i < offsets.len()
        invariant
            rotation_fits(offsets@, dir),
            px == pivot(offsets@).0,
            py == pivot(offsets@).1,
            i <= offsets@.len(),
            result@ =~= rotated_cells(offsets@, origin, dir, cell).subrange(0, i as int),
        decreases offsets@.len() - i,
    {
        let (dx, dy) = offsets[i];
        assert(fits_isize(offsets@[i as int].0 - px));
        let (rx, ry) = rotate_offset(dx - px, dy - py, dir);
        let x = shift(origin.x, rx);
        let y = shift(origin.y, ry);
        result.push((GridCoord::new(x, y), cell));
        i = i + 1;
    }
    result
}


// ---- Preset patterns ----

/// Every offset of the pattern lies in `0..=13` on both axes.
pub open spec fn small_offsets(s: Seq<(isize, isize)>) -> bool {
    forall|i: int| 0 <= i < s.len() ==> 0 <= (#[trigger] s[i]).0 <= 13 && 0 <= s[i].1 <= 13
}

proof fn lemma_bounds_small(s: Seq<(isize, isize)>, n: int)
    requires
        small_offsets(s),
        1 <= n <= s.len(),
    ensures
        0 <= bounds_upto(s, n).0 <= 13,
        0 <= bounds_upto(s, n).1 <= 13,
        0 <= bounds_upto(s, n).2 <= 13,
        0 <= bounds_upto(s, n).3 <= 13,
    decreases n,
{
    assert(0 <= s[n - 1].0 <= 13 && 0 <= s[n - 1].1 <= 13);
    if n > 1 {
        lemma_bounds_small(s, n - 1);
    } else {
        assert(0 <= s[0].0 <= 13);
    }
}

/// A pattern with small offsets can be turned to face any direction.
proof fn lemma_small_fits(s: Seq<(isize, isize)>, dir: Direction)
    requires
        small_offsets(s),
    ensures
        rotation_fits(s, dir),
        0 <= pivot(s).0 <= 13,
        0 <= pivot(s).1 <= 13,
{
    if s.len() > 0 {
        lemma_bounds_small(s, s.len() as int);
    }
    let p = pivot(s);
    assert forall|i: int| 0 <= i < s.len() implies {
        let r = rotated((#[trigger] s[i]).0 - p.0, s[i].1 - p.1, dir);
        &&& fits_isize(s[i].0 - p.0)
        &&& fits_isize(s[i].1 - p.1)
        &&& fits_isize(r.0)
        &&& fits_isize(r.1)
    } by {
        assert(0 <= s[i].0 <= 13 && 0 <= s[i].1 <= 13);
    }
}

proof fn lemma_presets_small()
    ensures
        small_offsets(glider_right()),
        small_offsets(lwss_right()),
        small_offsets(block()),
        small_offsets(tub()),
        small_offsets(boat()),
        small_offsets(loaf()),
        small_offsets(beehive()),
        small_offsets(blinker()),
        small_offsets(toad()),
        small_offsets(beacon()),
        small_offsets(pulsar()),
{
}

/// The cells of a glider of `faction` facing `dir`, laid out at `origin`.
pub open spec fn glider_cells(origin: GridCoord, dir: Direction, faction: Faction) -> Seq<(GridCoord, CellType)> {
    rotated_cells(glider_right(), origin, dir, CellType::Normal(faction))
}

/// The cells of a lightweight spaceship of `faction` facing `dir`, laid out at `origin`.
pub open spec fn lwss_cells(origin: GridCoord, dir: Direction, faction: Faction) -> Seq<(GridCoord, CellType)> {
    rotated_cells(lwss_right(), origin, dir, CellType::Normal(faction))
}

/// A glider (Glider) of `faction` facing `dir`.
pub fn glider(origin: GridCoord, dir: Direction, faction: Faction) -> (r: Vec<(GridCoord, CellType)>)
    ensures
        r@ == glider_cells(origin, dir, faction),
{
    let offsets = glider_right_offsets();
    proof {
        lemma_presets_small();
        lemma_small_fits(glider_right(), dir);
    }
    rotate_pattern(offsets.as_slice(), origin, dir, CellType::Normal(faction))
}

/// A lightweight spaceship (LWSS) of `faction` facing `dir`.
pub fn lwss(origin: GridCoord, dir: Direction, faction: Faction) -> (r: Vec<(GridCoord, CellType)>)
    ensures
        r@ == lwss_cells(origin, dir, faction),
{
    let offsets = lwss_right_offsets();
    proof {
        lemma_presets_small();
        lemma_small_fits(lwss_right(), dir);
    }
    rotate_pattern(offsets.as_slice(), origin, dir, CellType::Normal(faction))
}

/// A red glider facing `dir`.
pub fn glider_red(origin: GridCoord, dir: Direction) -> (r: Vec<(GridCoord, CellType)>)
    ensures
        r@ == glider_cells(origin, dir, Faction::Red),
{
    glider(origin, dir, Faction::Red)
}

/// A blue glider facing `dir`.
pub fn glider_blue(origin: GridCoord, dir: Direction) -> (r: Vec<(GridCoord, CellType)>)
    ensures
        r@ == glider_cells(origin, dir, Faction::Blue),
{
    glider(origin, dir, Faction::Blue)
}

/// A red lightweight spaceship facing `dir`.
pub fn lwss_red(origin: GridCoord, dir: Direction) -> (r: Vec<(GridCoord, CellType)>)
    ensures
        r@ == lwss_cells(origin, dir, Faction::Red),
{
    lwss(origin, dir, Faction::Red)
}

/// A blue lightweight spaceship facing `dir`.
pub fn lwss_blue(origin: GridCoord, dir: Direction) -> (r: Vec<(GridCoord, CellType)>)
    ensures
        r@ == lwss_cells(origin, dir, Faction::Blue),
{
    lwss(origin, dir, Faction::Blue)
}

/// Names of the preset still lifes.
pub fn still_life_names() -> (r: Vec<&'static str>)
    ensures
        r@.len() == 5,
        r@[0]@ == "Block"@,
        r@[1]@ == "Tub"@,
        r@[2]@ == "Boat"@,
        r@[3]@ == "Loaf"@,
        r@[4]@ == "Beehive"@,
{
    vec!["Block", "Tub", "Boat", "Loaf", "Beehive"]
}

/// Names of the preset oscillators.
pub fn oscillator_names() -> (r: Vec<&'static str>)
    ensures
        r@.len() == 4,
        r@[0]@ == "Blinker"@,
        r@[1]@ == "Toad"@,
        r@[2]@ == "Beacon"@,
        r@[3]@ == "Pulsar"@,
{
    vec!["Blinker", "Toad", "Beacon", "Pulsar"]
}

/// Names of the units a player can deploy.
pub fn deployable_names() -> (r: Vec<&'static str>)
    ensures
        r@.len() == 2,
        r@[0]@ == "Glider"@,
        r@[1]@ == "LWSS"@,
{
    vec!["Glider", "LWSS"]
}

/// The cells of the preset pattern called `name`, facing right, in `faction`'s colour.
pub open spec fn named_pattern(name: Seq<char>, origin: GridCoord, faction: Faction) -> Option<Seq<(GridCoord, CellType)>> {
    let cell = CellType::Normal(faction);
    if name == "Glider"@ {
        Some(glider_cells(origin, Direction::Right, faction))
    } else if name == "LWSS"@ {
        Some(lwss_cells(origin, Direction::Right, faction))
    } else if name == "Block"@ {
        Some(applied(block(), origin, cell))
    } else if name == "Tub"@ {
        Some(applied(tub(), origin, cell))
    } else if name == "Boat"@ {
        Some(applied(boat(), origin, cell))
    } else if name == "Loaf"@ {
        Some(applied(loaf(), origin, cell))
    } else if name == "Beehive"@ {
        Some(applied(beehive(), origin, cell))
    } else if name == "Blinker"@ {
        Some(applied(blinker(), origin, cell))
    } else if name == "Toad"@ {
        Some(applied(toad(), origin, cell))
    } else if name == "Beacon"@ {
        Some(applied(beacon(), origin, cell))
    } else if name == "Pulsar"@ {
        Some(applied(pulsar(), origin, cell))
    } else {
        None
    }
}

/// The preset pattern called `name` at `origin`, facing right, in `faction`'s colour;
/// `None` for an unknown name.
pub fn get_pattern_by_name(name: &str, origin: GridCoord, faction: Faction) -> (r: Option<Vec<(GridCoord, CellType)>>)
    ensures
        match r {
            Some(v) => named_pattern(name@, origin, faction) == Some(v@),
            None => named_pattern(name@, origin, faction) is None,
        },
{
    let cell = CellType::Normal(faction);
    if same_text(name, "Glider") {
        Some(glider(origin, Direction::Right, faction))
    } else if same_text(name, "LWSS") {
        Some(lwss(origin, Direction::Right, faction))
    } else if same_text(name, "Block") {
        Some(apply_pattern(block_offsets().as_slice(), origin, cell))
    } else if same_text(name, "Tub") {
        Some(apply_pattern(tub_offsets().as_slice(), origin, cell))
    } else if same_text(name, "Boat") {
        Some(apply_pattern(boat_offsets().as_slice(), origin, cell))
    } else if same_text(name, "Loaf") {
        Some(apply_pattern(loaf_offsets().as_slice(), origin, cell))
    } else if same_text(name, "Beehive") {
        Some(apply_pattern(beehive_offsets().as_slice(), origin, cell))
    } else if same_text(name, "Blinker") {
        Some(apply_pattern(blinker_offsets().as_slice(), origin, cell))
    } else if same_text(name, "Toad") {
        Some(apply_pattern(toad_offsets().as_slice(), origin, cell))
    } else if same_text(name, "Beacon") {
        Some(apply_pattern(beacon_offsets().as_slice(), origin, cell))
    } else if same_text(name, "Pulsar") {
        Some(apply_pattern(pulsar_offsets().as_slice(), origin, cell))
    } else {
        None
    }
}

/// A glider or spaceship of either faction has the same cells at the same places; only the
/// colour differs. A glider has five cells, a lightweight spaceship nine.
pub proof fn law_factions_share_shapes(origin: GridCoord, dir: Direction)
    ensures
        glider_cells(origin, dir, Faction::Red).len() == 5,
        glider_cells(origin, dir, Faction::Blue).len() == 5,
        lwss_cells(origin, dir, Faction::Red).len() == 9,
        lwss_cells(origin, dir, Faction::Blue).len() == 9,
        forall|i: int| 0 <= i < 5 ==> (#[trigger] glider_cells(origin, dir, Faction::Blue)[i]).0
            == glider_cells(origin, dir, Faction::Red)[i].0
            && glider_cells(origin, dir, Faction::Blue)[i].1 == CellType::Normal(Faction::Blue)
            && glider_cells(origin, dir, Faction::Red)[i].1 == CellType::Normal(Faction::Red),
        forall|i: int| 0 <= i < 9 ==> (#[trigger] lwss_cells(origin, dir, Faction::Blue)[i]).0
            == lwss_cells(origin, dir, Faction::Red)[i].0
            && lwss_cells(origin, dir, Faction::Blue)[i].1 == CellType::Normal(Faction::Blue)
            && lwss_cells(origin, dir, Faction::Red)[i].1 == CellType::Normal(Faction::Red),
{
}

/// The preset names: exactly the eleven names listed by `still_life_names`, `oscillator_names`
/// and `deployable_names` give a pattern (case matters); every pattern has cells, all living
/// in the asked faction; and "Glider" and "LWSS" face right.
pub proof fn law_named_patterns(name: Seq<char>, origin: GridCoord, faction: Faction)
    ensures
        named_pattern(name, origin, faction) is Some <==> (name == "Block"@ || name == "Tub"@ || name == "Boat"@
            || name == "Loaf"@ || name == "Beehive"@ || name == "Blinker"@ || name == "Toad"@ || name == "Beacon"@
            || name == "Pulsar"@ || name == "Glider"@ || name == "LWSS"@),
        named_pattern(name, origin, faction) matches Some(v) ==> v.len() > 0
            && forall|i: int| 0 <= i < v.len() ==> (#[trigger] v[i]).1 == CellType::Normal(faction),
        named_pattern("Glider"@, origin, faction) == Some(glider_cells(origin, Direction::Right, faction)),
        named_pattern("LWSS"@, origin, faction) == Some(lwss_cells(origin, Direction::Right, faction)),
{
    reveal_strlit("Glider");
    reveal_strlit("LWSS");
    assert("LWSS"@.len() != "Glider"@.len());
}

/// A cell of a pattern lies at its origin moved by the cell's offset; a position that would
/// fall off the top or left edge is held at zero, and one beyond the largest coordinate at the
/// largest.
pub proof fn law_placed(origin: GridCoord, dx: int, dy: int)
    ensures
        0 <= origin.x + dx <= usize::MAX ==> placed(origin, dx, dy).x == origin.x + dx,
        0 <= origin.y + dy <= usize::MAX ==> placed(origin, dx, dy).y == origin.y + dy,
        origin.x + dx < 0 ==> placed(origin, dx, dy).x == 0,
        origin.y + dy < 0 ==> placed(origin, dx, dy).y == 0,
        origin.x + dx > usize::MAX ==> placed(origin, dx, dy).x == usize::MAX,
        origin.y + dy > usize::MAX ==> placed(origin, dx, dy).y == usize::MAX,
{
}

proof fn lemma_preset_names()
    ensures
        "Glider"@ == seq!['G', 'l', 'i', 'd', 'e', 'r'],
        "LWSS"@ == seq!['L', 'W', 'S', 'S'],
        "Block"@ == seq!['B', 'l', 'o', 'c', 'k'],
        "Tub"@ == seq!['T', 'u', 'b'],
        "Boat"@ == seq!['B', 'o', 'a', 't'],
        "Loaf"@ == seq!['L', 'o', 'a', 'f'],
        "Beehive"@ == seq!['B', 'e', 'e', 'h', 'i', 'v', 'e'],
        "Blinker"@ == seq!['B', 'l', 'i', 'n', 'k', 'e', 'r'],
        "Toad"@ == seq!['T', 'o', 'a', 'd'],
        "Beacon"@ == seq!['B', 'e', 'a', 'c', 'o', 'n'],
        "Pulsar"@ == seq!['P', 'u', 'l', 's', 'a', 'r'],
{
    reveal_strlit("Glider");
    reveal_strlit("LWSS");
    reveal_strlit("Block");
    reveal_strlit("Tub");
    reveal_strlit("Boat");
    reveal_strlit("Loaf");
    reveal_strlit("Beehive");
    reveal_strlit("Blinker");
    reveal_strlit("Toad");
    reveal_strlit("Beacon");
    reveal_strlit("Pulsar");
    assert("Glider"@ =~= seq!['G', 'l', 'i', 'd', 'e', 'r']);
    assert("LWSS"@ =~= seq!['L', 'W', 'S', 'S']);
    assert("Block"@ =~= seq!['B', 'l', 'o', 'c', 'k']);
    assert("Tub"@ =~= seq!['T', 'u', 'b']);
    assert("Boat"@ =~= seq!['B', 'o', 'a', 't']);
    assert("Loaf"@ =~= seq!['L', 'o', 'a', 'f']);
    assert("Beehive"@ =~= seq!['B', 'e', 'e', 'h', 'i', 'v', 'e']);
    assert("Blinker"@ =~= seq!['B', 'l', 'i', 'n', 'k', 'e', 'r']);
    assert("Toad"@ =~= seq!['T', 'o', 'a', 'd']);
    assert("Beacon"@ =~= seq!['B', 'e', 'a', 'c', 'o', 'n']);
    assert("Pulsar"@ =~= seq!['P', 'u', 'l', 's', 'a', 'r']);
}

/// The shape behind each preset name, cell by cell and in order, with every cell living in the
/// asked faction: "Glider" and "LWSS" face right and are centred on their bounding box (a glider
/// has five cells, a lightweight spaceship nine); the still lifes and oscillators are laid out
/// from the origin (a block and a tub have four cells, a boat five, a loaf seven, a beehive, a
/// toad and a beacon six, a blinker three, a pulsar fifty-nine).
#[verifier::rlimit(50)]
#[verifier::spinoff_prover]
pub proof fn law_preset_shapes(o: GridCoord, f: Faction)
    ensures
        named_pattern("Glider"@, o, f) == Some(seq![
            (placed(o, -1, 0), CellType::Normal(f)), (placed(o, 0, 1), CellType::Normal(f)), (placed(o, 1, -1), CellType::Normal(f)), (placed(o, 1, 0), CellType::Normal(f)),
            (placed(o, 1, 1), CellType::Normal(f)),
        ]),
        named_pattern("LWSS"@, o, f) == Some(seq![
            (placed(o, -1, -1), CellType::Normal(f)), (placed(o, -1, 0), CellType::Normal(f)), (placed(o, -1, 1), CellType::Normal(f)), (placed(o, -1, 2), CellType::Normal(f)),
            (placed(o, 0, -2), CellType::Normal(f)), (placed(o, 0, 2), CellType::Normal(f)), (placed(o, 1, 2), CellType::Normal(f)), (placed(o, 2, -2), CellType::Normal(f)),
            (placed(o, 2, 1), CellType::Normal(f)),
        ]),
        named_pattern("Block"@, o, f) == Some(seq![
            (placed(o, 0, 0), CellType::Normal(f)), (placed(o, 0, 1), CellType::Normal(f)), (placed(o, 1, 0), CellType::Normal(f)), (placed(o, 1, 1), CellType::Normal(f)),
        ]),
        named_pattern("Tub"@, o, f) == Some(seq![
            (placed(o, 0, 1), CellType::Normal(f)), (placed(o, 1, 0), CellType::Normal(f)), (placed(o, 1, 2), CellType::Normal(f)), (placed(o, 2, 1), CellType::Normal(f)),
        ]),
        named_pattern("Boat"@, o, f) == Some(seq![
            (placed(o, 0, 0), CellType::Normal(f)), (placed(o, 0, 1), CellType::Normal(f)), (placed(o, 1, 0), CellType::Normal(f)), (placed(o, 1, 2), CellType::Normal(f)),
            (placed(o, 2, 1), CellType::Normal(f)),
        ]),
        named_pattern("Loaf"@, o, f) == Some(seq![
            (placed(o, 0, 1), CellType::Normal(f)), (placed(o, 0, 2), CellType::Normal(f)), (placed(o, 1, 0), CellType::Normal(f)), (placed(o, 1, 3), CellType::Normal(f)),
            (placed(o, 2, 1), CellType::Normal(f)), (placed(o, 2, 3), CellType::Normal(f)), (placed(o, 3, 2), CellType::Normal(f)),
        ]),
        named_pattern("Beehive"@, o, f) == Some(seq![
            (placed(o, 0, 1), CellType::Normal(f)), (placed(o, 0, 2), CellType::Normal(f)), (placed(o, 1, 0), CellType::Normal(f)), (placed(o, 1, 3), CellType::Normal(f)),
            (placed(o, 2, 1), CellType::Normal(f)), (placed(o, 2, 2), CellType::Normal(f)),
        ]),
        named_pattern("Blinker"@, o, f) == Some(seq![
            (placed(o, 0, 1), CellType::Normal(f)), (placed(o, 1, 1), CellType::Normal(f)), (placed(o, 2, 1), CellType::Normal(f)),
        ]),
        named_pattern("Toad"@, o, f) == Some(seq![
            (placed(o, 0, 1), CellType::Normal(f)), (placed(o, 0, 2), CellType::Normal(f)), (placed(o, 0, 3), CellType::Normal(f)), (placed(o, 1, 0), CellType::Normal(f)),
            (placed(o, 1, 1), CellType::Normal(f)), (placed(o, 1, 2), CellType::Normal(f)),
        ]),
        named_pattern("Beacon"@, o, f) == Some(seq![
            (placed(o, 0, 0), CellType::Normal(f)), (placed(o, 0, 1), CellType::Normal(f)), (placed(o, 1, 0), CellType::Normal(f)), (placed(o, 2, 3), CellType::Normal(f)),
            (placed(o, 3, 2), CellType::Normal(f)), (placed(o, 3, 3), CellType::Normal(f)),
        ]),
        named_pattern("Pulsar"@, o, f) == Some(seq![
            (placed(o, 1, 3), CellType::Normal(f)), (placed(o, 1, 4), CellType::Normal(f)), (placed(o, 1, 5), CellType::Normal(f)), (placed(o, 3, 1), CellType::Normal(f)),
            (placed(o, 4, 1), CellType::Normal(f)), (placed(o, 5, 1), CellType::Normal(f)), (placed(o, 3, 6), CellType::Normal(f)), (placed(o, 4, 6), CellType::Normal(f)),
            (placed(o, 5, 6), CellType::Normal(f)), (placed(o, 6, 3), CellType::Normal(f)), (placed(o, 6, 4), CellType::Normal(f)), (placed(o, 6, 5), CellType::Normal(f)),
            (placed(o, 8, 3), CellType::Normal(f)), (placed(o, 8, 4), CellType::Normal(f)), (placed(o, 8, 5), CellType::Normal(f)), (placed(o, 3, 8), CellType::Normal(f)),
            (placed(o, 4, 8), CellType::Normal(f)), (placed(o, 5, 8), CellType::Normal(f)), (placed(o, 3, 9), CellType::Normal(f)), (placed(o, 4, 9), CellType::Normal(f)),
            (placed(o, 5, 9), CellType::Normal(f)), (placed(o, 11, 3), CellType::Normal(f)), (placed(o, 11, 4), CellType::Normal(f)), (placed(o, 11, 5), CellType::Normal(f)),
            (placed(o, 11, 8), CellType::Normal(f)), (placed(o, 11, 9), CellType::Normal(f)), (placed(o, 11, 10), CellType::Normal(f)), (placed(o, 10, 3), CellType::Normal(f)),
            (placed(o, 10, 5), CellType::Normal(f)), (placed(o, 9, 1), CellType::Normal(f)), (placed(o, 10, 1), CellType::Normal(f)), (placed(o, 11, 1), CellType::Normal(f)),
            (placed(o, 9, 6), CellType::Normal(f)), (placed(o, 10, 6), CellType::Normal(f)), (placed(o, 11, 6), CellType::Normal(f)), (placed(o, 10, 8), CellType::Normal(f)),
            (placed(o, 10, 10), CellType::Normal(f)), (placed(o, 3, 11), CellType::Normal(f)), (placed(o, 4, 11), CellType::Normal(f)), (placed(o, 5, 11), CellType::Normal(f)),
            (placed(o, 8, 11), CellType::Normal(f)), (placed(o, 9, 11), CellType::Normal(f)), (placed(o, 10, 11), CellType::Normal(f)), (placed(o, 1, 3), CellType::Normal(f)),
            (placed(o, 1, 4), CellType::Normal(f)), (placed(o, 1, 5), CellType::Normal(f)), (placed(o, 6, 1), CellType::Normal(f)), (placed(o, 6, 3), CellType::Normal(f)),
            (placed(o, 6, 4), CellType::Normal(f)), (placed(o, 6, 5), CellType::Normal(f)), (placed(o, 8, 1), CellType::Normal(f)), (placed(o, 8, 6), CellType::Normal(f)),
            (placed(o, 13, 1), CellType::Normal(f)), (placed(o, 13, 3), CellType::Normal(f)), (placed(o, 13, 4), CellType::Normal(f)), (placed(o, 13, 5), CellType::Normal(f)),
            (placed(o, 9, 9), CellType::Normal(f)), (placed(o, 10, 9), CellType::Normal(f)), (placed(o, 11, 9), CellType::Normal(f)),
        ]),
{
    let c = CellType::Normal(f);
    lemma_preset_names();
    reveal_with_fuel(bounds_upto, 10);
    assert(pivot(glider_right()) == (1int, 1int));
    assert(pivot(lwss_right()) == (1int, 2int));
    assert(glider_cells(o, Direction::Right, f) =~= seq![
                (placed(o, -1, 0), c), (placed(o, 0, 1), c), (placed(o, 1, -1), c), (placed(o, 1, 0), c),
                (placed(o, 1, 1), c),
            ]);
    assert(lwss_cells(o, Direction::Right, f) =~= seq![
                (placed(o, -1, -1), c), (placed(o, -1, 0), c), (placed(o, -1, 1), c), (placed(o, -1, 2), c),
                (placed(o, 0, -2), c), (placed(o, 0, 2), c), (placed(o, 1, 2), c), (placed(o, 2, -2), c),
                (placed(o, 2, 1), c),
            ]);
    assert(applied(block(), o, c) =~= seq![
                (placed(o, 0, 0), c), (placed(o, 0, 1), c), (placed(o, 1, 0), c), (placed(o, 1, 1), c),
            ]);
    assert(applied(tub(), o, c) =~= seq![
                (placed(o, 0, 1), c), (placed(o, 1, 0), c), (placed(o, 1, 2), c), (placed(o, 2, 1), c),
            ]);
    assert(applied(boat(), o, c) =~= seq![
                (placed(o, 0, 0), c), (placed(o, 0, 1), c), (placed(o, 1, 0), c), (placed(o, 1, 2), c),
                (placed(o, 2, 1), c),
            ]);
    assert(applied(loaf(), o, c) =~= seq![
                (placed(o, 0, 1), c), (placed(o, 0, 2), c), (placed(o, 1, 0), c), (placed(o, 1, 3), c),
                (placed(o, 2, 1), c), (placed(o, 2, 3), c), (placed(o, 3, 2), c),
            ]);
    assert(applied(beehive(), o, c) =~= seq![
                (placed(o, 0, 1), c), (placed(o, 0, 2), c), (placed(o, 1, 0), c), (placed(o, 1, 3), c),
                (placed(o, 2, 1), c), (placed(o, 2, 2), c),
            ]);
    assert(applied(blinker(), o, c) =~= seq![
                (placed(o, 0, 1), c), (placed(o, 1, 1), c), (placed(o, 2, 1), c),
            ]);
    assert(applied(toad(), o, c) =~= seq![
                (placed(o, 0, 1), c), (placed(o, 0, 2), c), (placed(o, 0, 3), c), (placed(o, 1, 0), c),
                (placed(o, 1, 1), c), (placed(o, 1, 2), c),
            ]);
    assert(applied(beacon(), o, c) =~= seq![
                (placed(o, 0, 0), c), (placed(o, 0, 1), c), (placed(o, 1, 0), c), (placed(o, 2, 3), c),
                (placed(o, 3, 2), c), (placed(o, 3, 3), c),
            ]);
    assert(applied(pulsar(), o, c) =~= seq![
                (placed(o, 1, 3), c), (placed(o, 1, 4), c), (placed(o, 1, 5), c), (placed(o, 3, 1), c),
                (placed(o, 4, 1), c), (placed(o, 5, 1), c), (placed(o, 3, 6), c), (placed(o, 4, 6), c),
                (placed(o, 5, 6), c), (placed(o, 6, 3), c), (placed(o, 6, 4), c), (placed(o, 6, 5), c),
                (placed(o, 8, 3), c), (placed(o, 8, 4), c), (placed(o, 8, 5), c), (placed(o, 3, 8), c),
                (placed(o, 4, 8), c), (placed(o, 5, 8), c), (placed(o, 3, 9), c), (placed(o, 4, 9), c),
                (placed(o, 5, 9), c), (placed(o, 11, 3), c), (placed(o, 11, 4), c), (placed(o, 11, 5), c),
                (placed(o, 11, 8), c), (placed(o, 11, 9), c), (placed(o, 11, 10), c), (placed(o, 10, 3), c),
                (placed(o, 10, 5), c), (placed(o, 9, 1), c), (placed(o, 10, 1), c), (placed(o, 11, 1), c),
                (placed(o, 9, 6), c), (placed(o, 10, 6), c), (placed(o, 11, 6), c), (placed(o, 10, 8), c),
                (placed(o, 10, 10), c), (placed(o, 3, 11), c), (placed(o, 4, 11), c), (placed(o, 5, 11), c),
                (placed(o, 8, 11), c), (placed(o, 9, 11), c), (placed(o, 10, 11), c), (placed(o, 1, 3), c),
                (placed(o, 1, 4), c), (placed(o, 1, 5), c), (placed(o, 6, 1), c), (placed(o, 6, 3), c),
                (placed(o, 6, 4), c), (placed(o, 6, 5), c), (placed(o, 8, 1), c), (placed(o, 8, 6), c),
                (placed(o, 13, 1), c), (placed(o, 13, 3), c), (placed(o, 13, 4), c), (placed(o, 13, 5), c),
                (placed(o, 9, 9), c), (placed(o, 10, 9), c), (placed(o, 11, 9), c),
            ]);
}

/// Turning to face a direction is a rotation about the pattern's centre: facing right leaves an
/// offset alone, and facing any direction `d` sends the offset `(1, 0)` to the unit step towards
/// `d` (y grows downwards) and turns every offset by the same rotation.
pub proof fn law_turns(vx: int, vy: int, d: Direction)
    ensures
        rotated(1, 0, Direction::Right) == (1int, 0int),
        rotated(1, 0, Direction::Down) == (0int, 1int),
        rotated(1, 0, Direction::Left) == (-1int, 0int),
        rotated(1, 0, Direction::Up) == (0int, -1int),
        ({
            let h = rotated(1, 0, d);
            rotated(vx, vy, d) == (vx * h.0 - vy * h.1, vx * h.1 + vy * h.0)
        }),
{
    let h = rotated(1, 0, d);
    match d {
        Direction::Right => {
            assert(vx * 1 - vy * 0 == vx && vx * 0 + vy * 1 == vy) by (nonlinear_arith);
        },
        Direction::Down => {
            assert(vx * 0 - vy * 1 == -vy && vx * 1 + vy * 0 == vx) by (nonlinear_arith);
        },
        Direction::Left => {
            assert(vx * -1 - vy * 0 == -vx && vx * 0 + vy * -1 == -vy) by (nonlinear_arith);
        },
        Direction::Up => {
            assert(vx * 0 - vy * -1 == vy && vx * -1 + vy * 0 == -vx) by (nonlinear_arith);
        },
    }
}

/// The cells of a glider and of a lightweight spaceship facing each direction, in order, every
/// one living in the asked faction, around the origin.
#[verifier::rlimit(50)]
#[verifier::spinoff_prover]
pub proof fn law_unit_shapes(o: GridCoord, f: Faction)
    ensures
        glider_cells(o, Direction::Up, f) == seq![
            (placed(o, 0, 1), CellType::Normal(f)), (placed(o, 1, 0), CellType::Normal(f)), (placed(o, -1, -1), CellType::Normal(f)),
            (placed(o, 0, -1), CellType::Normal(f)), (placed(o, 1, -1), CellType::Normal(f)),
        ],
        glider_cells(o, Direction::Down, f) == seq![
            (placed(o, 0, -1), CellType::Normal(f)), (placed(o, -1, 0), CellType::Normal(f)), (placed(o, 1, 1), CellType::Normal(f)),
            (placed(o, 0, 1), CellType::Normal(f)), (placed(o, -1, 1), CellType::Normal(f)),
        ],
        glider_cells(o, Direction::Left, f) == seq![
            (placed(o, 1, 0), CellType::Normal(f)), (placed(o, 0, -1), CellType::Normal(f)), (placed(o, -1, 1), CellType::Normal(f)),
            (placed(o, -1, 0), CellType::Normal(f)), (placed(o, -1, -1), CellType::Normal(f)),
        ],
        glider_cells(o, Direction::Right, f) == seq![
            (placed(o, -1, 0), CellType::Normal(f)), (placed(o, 0, 1), CellType::Normal(f)), (placed(o, 1, -1), CellType::Normal(f)),
            (placed(o, 1, 0), CellType::Normal(f)), (placed(o, 1, 1), CellType::Normal(f)),
        ],
        lwss_cells(o, Direction::Up, f) == seq![
            (placed(o, -1, 1), CellType::Normal(f)), (placed(o, 0, 1), CellType::Normal(f)), (placed(o, 1, 1), CellType::Normal(f)),
            (placed(o, 2, 1), CellType::Normal(f)), (placed(o, -2, 0), CellType::Normal(f)), (placed(o, 2, 0), CellType::Normal(f)),
            (placed(o, 2, -1), CellType::Normal(f)), (placed(o, -2, -2), CellType::Normal(f)), (placed(o, 1, -2), CellType::Normal(f)),
        ],
        lwss_cells(o, Direction::Down, f) == seq![
            (placed(o, 1, -1), CellType::Normal(f)), (placed(o, 0, -1), CellType::Normal(f)), (placed(o, -1, -1), CellType::Normal(f)),
            (placed(o, -2, -1), CellType::Normal(f)), (placed(o, 2, 0), CellType::Normal(f)), (placed(o, -2, 0), CellType::Normal(f)),
            (placed(o, -2, 1), CellType::Normal(f)), (placed(o, 2, 2), CellType::Normal(f)), (placed(o, -1, 2), CellType::Normal(f)),
        ],
        lwss_cells(o, Direction::Left, f) == seq![
            (placed(o, 1, 1), CellType::Normal(f)), (placed(o, 1, 0), CellType::Normal(f)), (placed(o, 1, -1), CellType::Normal(f)),
            (placed(o, 1, -2), CellType::Normal(f)), (placed(o, 0, 2), CellType::Normal(f)), (placed(o, 0, -2), CellType::Normal(f)),
            (placed(o, -1, -2), CellType::Normal(f)), (placed(o, -2, 2), CellType::Normal(f)), (placed(o, -2, -1), CellType::Normal(f)),
        ],
        lwss_cells(o, Direction::Right, f) == seq![
            (placed(o, -1, -1), CellType::Normal(f)), (placed(o, -1, 0), CellType::Normal(f)), (placed(o, -1, 1), CellType::Normal(f)),
            (placed(o, -1, 2), CellType::Normal(f)), (placed(o, 0, -2), CellType::Normal(f)), (placed(o, 0, 2), CellType::Normal(f)),
            (placed(o, 1, 2), CellType::Normal(f)), (placed(o, 2, -2), CellType::Normal(f)), (placed(o, 2, 1), CellType::Normal(f)),
        ],
{
    reveal_with_fuel(bounds_upto, 10);
    assert(pivot(glider_right()) == (1int, 1int));
    assert(pivot(lwss_right()) == (1int, 2int));
    assert(glider_cells(o, Direction::Up, f) =~= seq![
        (placed(o, 0, 1), CellType::Normal(f)), (placed(o, 1, 0), CellType::Normal(f)), (placed(o, -1, -1), CellType::Normal(f)),
        (placed(o, 0, -1), CellType::Normal(f)), (placed(o, 1, -1), CellType::Normal(f)),
    ]);
    assert(glider_cells(o, Direction::Down, f) =~= seq![
        (placed(o, 0, -1), CellType::Normal(f)), (placed(o, -1, 0), CellType::Normal(f)), (placed(o, 1, 1), CellType::Normal(f)),
        (placed(o, 0, 1), CellType::Normal(f)), (placed(o, -1, 1), CellType::Normal(f)),
    ]);
    assert(glider_cells(o, Direction::Left, f) =~= seq![
        (placed(o, 1, 0), CellType::Normal(f)), (placed(o, 0, -1), CellType::Normal(f)), (placed(o, -1, 1), CellType::Normal(f)),
        (placed(o, -1, 0), CellType::Normal(f)), (placed(o, -1, -1), CellType::Normal(f)),
    ]);
    assert(glider_cells(o, Direction::Right, f) =~= seq![
        (placed(o, -1, 0), CellType::Normal(f)), (placed(o, 0, 1), CellType::Normal(f)), (placed(o, 1, -1), CellType::Normal(f)),
        (placed(o, 1, 0), CellType::Normal(f)), (placed(o, 1, 1), CellType::Normal(f)),
    ]);
    assert(lwss_cells(o, Direction::Up, f) =~= seq![
        (placed(o, -1, 1), CellType::Normal(f)), (placed(o, 0, 1), CellType::Normal(f)), (placed(o, 1, 1), CellType::Normal(f)),
        (placed(o, 2, 1), CellType::Normal(f)), (placed(o, -2, 0), CellType::Normal(f)), (placed(o, 2, 0), CellType::Normal(f)),
        (placed(o, 2, -1), CellType::Normal(f)), (placed(o, -2, -2), CellType::Normal(f)), (placed(o, 1, -2), CellType::Normal(f)),
    ]);
    assert(lwss_cells(o, Direction::Down, f) =~= seq![
        (placed(o, 1, -1), CellType::Normal(f)), (placed(o, 0, -1), CellType::Normal(f)), (placed(o, -1, -1), CellType::Normal(f)),
        (placed(o, -2, -1), CellType::Normal(f)), (placed(o, 2, 0), CellType::Normal(f)), (placed(o, -2, 0), CellType::Normal(f)),
        (placed(o, -2, 1), CellType::Normal(f)), (placed(o, 2, 2), CellType::Normal(f)), (placed(o, -1, 2), CellType::Normal(f)),
    ]);
    assert(lwss_cells(o, Direction::Left, f) =~= seq![
        (placed(o, 1, 1), CellType::Normal(f)), (placed(o, 1, 0), CellType::Normal(f)), (placed(o, 1, -1), CellType::Normal(f)),
        (placed(o, 1, -2), CellType::Normal(f)), (placed(o, 0, 2), CellType::Normal(f)), (placed(o, 0, -2), CellType::Normal(f)),
        (placed(o, -1, -2), CellType::Normal(f)), (placed(o, -2, 2), CellType::Normal(f)), (placed(o, -2, -1), CellType::Normal(f)),
    ]);
    assert(lwss_cells(o, Direction::Right, f) =~= seq![
        (placed(o, -1, -1), CellType::Normal(f)), (placed(o, -1, 0), CellType::Normal(f)), (placed(o, -1, 1), CellType::Normal(f)),
        (placed(o, -1, 2), CellType::Normal(f)), (placed(o, 0, -2), CellType::Normal(f)), (placed(o, 0, 2), CellType::Normal(f)),
        (placed(o, 1, 2), CellType::Normal(f)), (placed(o, 2, -2), CellType::Normal(f)), (placed(o, 2, 1), CellType::Normal(f)),
    ]);
}

} // verus!
