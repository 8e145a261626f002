use vstd::prelude::*;

use crate::grid::types::{CellType, Faction, GridCoord, GridSnapshot};

verus! {

/// Mathematical model of a grid: column-major cells, `cells[x][y]`.
pub struct Board {
    pub width: int,
    pub height: int,
    pub cells: Seq<Seq<CellType>>,
}

/// Column offset of the `k`-th neighbour of a cell (rows top to bottom, columns left to right).
pub open spec fn nb_dx(k: int) -> int {
    if k == 0 || k == 3 || k == 5 {
        -1
    } else if k == 1 || k == 6 {
        0
    } else {
        1
    }
}

/// Row offset of the `k`-th neighbour of a cell.
pub open spec fn nb_dy(k: int) -> int {
    if k < 3 {
        -1
    } else if k < 5 {
        0
    } else {
        1
    }
}

pub open spec fn coord_of(x: int, y: int) -> GridCoord {
    GridCoord { x: x as usize, y: y as usize }
}

/// Row-major strict order: by row, then by column.
pub open spec fn row_major_lt(a: GridCoord, b: GridCoord) -> bool {
    a.y < b.y || (a.y == b.y && a.x < b.x)
}

/// Column-major strict order: by column, then by row.
pub open spec fn col_major_lt(a: GridCoord, b: GridCoord) -> bool {
    a.x < b.x || (a.x == b.x && a.y < b.y)
}

pub open spec fn sorted_row_major(s: Seq<GridCoord>) -> bool {
    forall|i: int, j: int| 0 <= i < j < s.len() ==> row_major_lt(#[trigger] s[i], #[trigger] s[j])
}

pub open spec fn sorted_col_major(s: Seq<GridCoord>) -> bool {
    forall|i: int, j: int| 0 <= i < j < s.len() ==> col_major_lt(#[trigger] s[i], #[trigger] s[j])
}

/// No coordinate occurs twice.
pub open spec fn distinct(s: Seq<GridCoord>) -> bool {
    forall|i: int, j: int| 0 <= i < j < s.len() ==> #[trigger] s[i] != #[trigger] s[j]
}

pub open spec fn is_red(c: CellType) -> bool {
    c == CellType::Normal(Faction::Red)
}

pub open spec fn is_blue(c: CellType) -> bool {
    c == CellType::Normal(Faction::Blue)
}

impl Board {
    pub open spec fn wf(self) -> bool {
        &&& self.width >= 0
        &&& self.height >= 0
        &&& self.cells.len() == self.width
        &&& forall|x: int| 0 <= x < self.width ==> #[trigger] self.cells[x].len() == self.height
    }

    pub open spec fn in_bounds(self, x: int, y: int) -> bool {
        0 <= x < self.width && 0 <= y < self.height
    }

    /// The cell at `(x, y)`; everything outside the grid reads as a wall.
    pub open spec fn at(self, x: int, y: int) -> CellType {
        if self.in_bounds(x, y) {
            self.cells[x][y]
        } else {
            CellType::Wall
        }
    }

    /// The board with the cell at `(x, y)` replaced; unchanged when `(x, y)` is outside.
    pub open spec fn with_cell(self, x: int, y: int, c: CellType) -> Board {
        if self.in_bounds(x, y) {
            Board { cells: self.cells.update(x, self.cells[x].update(y, c)), ..self }
        } else {
            self
        }
    }

    /// A board of the same size whose cells are given by `f`.
    pub open spec fn from_fn(width: int, height: int, f: spec_fn(int, int) -> CellType) -> Board {
        Board {
            width,
            height,
            cells: Seq::new(width as nat, |x: int| Seq::new(height as nat, |y: int| f(x, y))),
        }
    }

    /// Same size, and every in-bounds cell equal.
    pub open spec fn same_cells(self, other: Board) -> bool {
        &&& self.width == other.width
        &&& self.height == other.height
        &&& forall|x: int, y: int| self.in_bounds(x, y) ==> #[trigger] self.at(x, y) == other.at(x, y)
    }

    /// Whether the `k`-th neighbour of `(x, y)` lies on the grid.
    pub open spec fn nb_in(self, x: int, y: int, k: int) -> bool {
        self.in_bounds(x + nb_dx(k), y + nb_dy(k))
    }

    pub open spec fn nb_cell(self, x: int, y: int, k: int) -> CellType {
        self.at(x + nb_dx(k), y + nb_dy(k))
    }

    /// The on-grid neighbours among the first `k` neighbour positions, in order.
    pub open spec fn neighbor_seq(self, x: int, y: int, k: int) -> Seq<GridCoord>
        decreases k,
    {
        if k <= 0 {
            seq![]
        } else {
            let prev = self.neighbor_seq(x, y, k - 1);
            if self.nb_in(x, y, k - 1) {
                prev.push(coord_of(x + nb_dx(k - 1), y + nb_dy(k - 1)))
            } else {
                prev
            }
        }
    }

    /// Number of living (Normal) cells among the first `k` neighbour positions.
    pub open spec fn living_count(self, x: int, y: int, k: int) -> nat
        decreases k,
    {
        if k <= 0 {
            0
        } else {
            self.living_count(x, y, k - 1) + if self.nb_in(x, y, k - 1) && self.nb_cell(
                x,
                y,
                k - 1,
            ) is Normal {
                1nat
            } else {
                0nat
            }
        }
    }

    /// Number of red living cells among the first `k` neighbour positions.
    pub open spec fn red_count(self, x: int, y: int, k: int) -> nat
        decreases k,
    {
        if k <= 0 {
            0
        } else {
            self.red_count(x, y, k - 1) + if self.nb_in(x, y, k - 1) && is_red(
                self.nb_cell(x, y, k - 1),
            ) {
                1nat
            } else {
                0nat
            }
        }
    }

    /// Number of blue living cells among the first `k` neighbour positions.
    pub open spec fn blue_count(self, x: int, y: int, k: int) -> nat
        decreases k,
    {
        if k <= 0 {
            0
        } else {
            self.blue_count(x, y, k - 1) + if self.nb_in(x, y, k - 1) && is_blue(
                self.nb_cell(x, y, k - 1),
            ) {
                1nat
            } else {
                0nat
            }
        }
    }

    /// Living neighbours of `(x, y)` in its Moore neighbourhood.
    pub open spec fn living(self, x: int, y: int) -> nat {
        self.living_count(x, y, 8)
    }

    pub open spec fn red_neighbors(self, x: int, y: int) -> nat {
        self.red_count(x, y, 8)
    }

    pub open spec fn blue_neighbors(self, x: int, y: int) -> nat {
        self.blue_count(x, y, 8)
    }

    pub open spec fn has_normal_neighbor(self, x: int, y: int) -> bool {
        self.living(x, y) > 0
    }
}

/// The game grid (`cells[x][y]`, `x` the column).
pub struct Grid {
    pub width: usize,
    pub height: usize,
    pub cells: Vec<Vec<CellType>>,
}

impl View for Grid {
    type V = Board;

    open spec fn view(&self) -> Board {
        Board {
            width: self.width as int,
            height: self.height as int,
            cells: self.cells@.map_values(|col: Vec<CellType>| col@),
        }
    }
}

impl View for GridSnapshot {
    type V = Board;

    open spec fn view(&self) -> Board {
        Board {
            width: self.width as int,
            height: self.height as int,
            cells: self.cells@.map_values(|col: Vec<CellType>| col@),
        }
    }
}

/// A column of `height` empty cells.
fn empty_column(height: usize) -> (col: Vec<CellType>)
    ensures
        col@.len() == height,
        forall|y: int| 0 <= y < height ==> #[trigger] col@[y] == CellType::Empty,
{
    let mut col: Vec<CellType> = Vec::with_capacity(height);
    let mut y: usize = 0;
    while y < height
        invariant
            y <= height,
            col@.len() == y,
            forall|j: int| 0 <= j < y ==> #[trigger] col@[j] == CellType::Empty,
        decreases height - y,
    {
        col.push(CellType::Empty);
        y = y + 1;
    }
    col
}

/// A copy of a column.
fn copy_column(src: &Vec<CellType>) -> (col: Vec<CellType>)
    ensures
        col@ == src@,
{
    let mut col: Vec<CellType> = Vec::with_capacity(src.len());
    let mut y: usize = 0;
    while y < src.len()
        invariant
            y <= src@.len(),
            col@ == src@.subrange(0, y as int),
        decreases src@.len() - y,
    {
        col.push(src[y]);
        y = y + 1;
    }
    assert(col@ =~= src@);
    col
}

/// A copy of a column-major cell table.
pub fn copy_cells(src: &Vec<Vec<CellType>>) -> (cells: Vec<Vec<CellType>>)
    ensures
        cells@.map_values(|col: Vec<CellType>| col@) == src@.map_values(
            |col: Vec<CellType>| col@,
        ),
        cells@.len() == src@.len(),
{
    let mut cells: Vec<Vec<CellType>> = Vec::with_capacity(src.len());
    let mut x: usize = 0;
    while x < src.len()
        invariant
            x <= src@.len(),
            cells@.len() == x,
            forall|i: int| 0 <= i < x ==> #[trigger] cells@[i]@ == src@[i]@,
        decreases src@.len() - x,
    {
        let col = copy_column(&src[x]);
        cells.push(col);
        x = x + 1;
    }
    assert(cells@.map_values(|col: Vec<CellType>| col@) =~= src@.map_values(
        |col: Vec<CellType>| col@,
    ));
    cells
}

/// `v + d` when it lies in `0..limit`.
pub fn offset_within(v: usize, d: isize, limit: usize) -> (r: Option<usize>)
    ensures
        r matches Some(n) ==> n == v + d && 0 <= v + d < limit,
        r is None ==> !(0 <= v + d < limit),
{
    if d >= 0 {
        let du = d as usize;
        if v < limit && du < limit - v {
            Some(v + du)
        } else {
            None
        }
    } else {
        let m = ((-(d + 1)) as usize) + 1;
        if m <= v && v - m < limit {
            Some(v - m)
        } else {
            None
        }
    }
}

/// The offsets of the `k`-th neighbour.
fn neighbor_offset(k: usize) -> (r: (isize, isize))
    requires
        k < 8,
    ensures
        r.0 == nb_dx(k as int),
        r.1 == nb_dy(k as int),
{
    match k {
        0 => (-1, -1),
        1 => (0, -1),
        2 => (1, -1),
        3 => (-1, 0),
        4 => (1, 0),
        5 => (-1, 1),
        6 => (0, 1),
        _ => (1, 1),
    }
}

impl Grid {
    pub open spec fn wf(&self) -> bool {
        self@.wf()
    }

    /// An empty grid of the given size.
    pub fn new(width: usize, height: usize) -> (g: Grid)
        ensures
            g.wf(),
            g.width == width,
            g.height == height,
            forall|x: int, y: int| g@.in_bounds(x, y) ==> #[trigger] g@.at(x, y) == CellType::Empty,
    {
        let mut cells: Vec<Vec<CellType>> = Vec::with_capacity(width);
        let mut x: usize = 0;
        while x < width
            invariant
                x <= width,
                cells@.len() == x,
                forall|i: int| 0 <= i < x ==> #[trigger] cells@[i]@.len() == height,
                forall|i: int, j: int|
                    0 <= i < x && 0 <= j < height ==> #[trigger] cells@[i]@[j] == CellType::Empty,
            decreases width - x,
        {
            cells.push(empty_column(height));
            x = x + 1;
        }
        Grid { width, height, cells }
    }

    /// The cell at `coord`; a coordinate outside the grid reads as a wall.
    pub fn get(&self, coord: GridCoord) -> (c: CellType)
        requires
            self.wf(),
        ensures
            c == self@.at(coord.x as int, coord.y as int),
    {
        if !self.in_bounds(coord) {
            return CellType::Wall;
        }
        self.cells[coord.x][coord.y]
    }

    /// Writes `cell` at `coord`; does nothing for a coordinate outside the grid.
    pub fn set(&mut self, coord: GridCoord, cell: CellType)
        requires
            old(self).wf(),
        ensures
            final(self).wf(),
            final(self)@ == old(self)@.with_cell(coord.x as int, coord.y as int, cell),
    {
        if self.in_bounds(coord) {
            let ghost before = self@;
            assert(self.cells@[coord.x as int]@ == before.cells[coord.x as int]);
            let mut col: Vec<CellType> = Vec::new();
            self.cells.set_and_swap(coord.x, &mut col);
            col.set(coord.y, cell);
            self.cells.set_and_swap(coord.x, &mut col);
            assert(self@.cells =~= before.cells.update(
                coord.x as int,
                before.cells[coord.x as int].update(coord.y as int, cell),
            ));
        }
    }

    pub fn in_bounds(&self, coord: GridCoord) -> (r: bool)
        ensures
            r == self@.in_bounds(coord.x as int, coord.y as int),
    {
        coord.x < self.width && coord.y < self.height
    }

    pub fn is_empty(&self, coord: GridCoord) -> (r: bool)
        requires
            self.wf(),
        ensures
            r == (self@.in_bounds(coord.x as int, coord.y as int) && self@.at(
                coord.x as int,
                coord.y as int,
            ) is Empty),
    {
        self.in_bounds(coord) && self.cells[coord.x][coord.y].is_empty()
    }
}


/// Appending `v` adds exactly `v` to what a sequence contains.
pub proof fn lemma_push_contains<A>(s: Seq<A>, v: A)
    ensures
        forall|c: A| #[trigger] s.push(v).contains(c) <==> (s.contains(c) || c == v),
{
    assert forall|c: A| #[trigger] s.push(v).contains(c) <==> (s.contains(c) || c == v) by {
        if s.contains(c) {
            let i = choose|i: int| 0 <= i < s.len() && s[i] == c;
            assert(s.push(v)[i] == c);
        }
        if c == v {
            assert(s.push(v)[s.len() as int] == c);
        }
        if s.push(v).contains(c) {
            let i = choose|i: int| 0 <= i < s.len() + 1 && s.push(v)[i] == c;
            if i < s.len() {
                assert(s[i] == c);
            }
        }
    }
}

/// Smallest coordinate not below `c - r` and not below zero.
pub open spec fn span_lo(c: int, r: int) -> int {
    if c >= r {
        c - r
    } else {
        0
    }
}

/// One past the largest coordinate not above `c + r` and below `limit`.
pub open spec fn span_hi(c: int, r: int, limit: int) -> int {
    if c + r + 1 <= limit {
        c + r + 1
    } else {
        limit
    }
}

/// Whether `c` lies within Chebyshev distance `r` of `(cx, cy)`.
pub open spec fn in_square(c: GridCoord, cx: int, cy: int, r: int) -> bool {
    cx - r <= c.x <= cx + r && cy - r <= c.y <= cy + r
}

impl Grid {
    /// On-grid Moore neighbours of `coord`, row by row, left to right.
    pub fn neighbor_coords(&self, coord: GridCoord) -> (r: Vec<GridCoord>)
        ensures
            r@ == self@.neighbor_seq(coord.x as int, coord.y as int, 8),
    {
        let mut result: Vec<GridCoord> = Vec::with_capacity(8);
        let mut k: usize = 0;
        while k < 8
            invariant
                k <= 8,
                result@ == self@.neighbor_seq(coord.x as int, coord.y as int, k as int),
            decreases 8 - k,
        {
            let (dx, dy) = neighbor_offset(k);
            let ox = offset_within(coord.x, dx, self.width);
            let oy = offset_within(coord.y, dy, self.height);
            if let (Some(nx), Some(ny)) = (ox, oy) {
                result.push(GridCoord::new(nx, ny));
            }
            k = k + 1;
        }
        result
    }

    /// The cell at the `k`-th neighbour position, if that position is on the grid.
    fn neighbor_cell(&self, coord: GridCoord, k: usize) -> (r: Option<CellType>)
        requires
            self.wf(),
            k < 8,
        ensures
            r is Some <==> self@.nb_in(coord.x as int, coord.y as int, k as int),
            r matches Some(c) ==> c == self@.nb_cell(coord.x as int, coord.y as int, k as int),
    {
        let (dx, dy) = neighbor_offset(k);
        let ox = offset_within(coord.x, dx, self.width);
        let oy = offset_within(coord.y, dy, self.height);
        match (ox, oy) {
            (Some(nx), Some(ny)) => {
                assert(self.cells@[nx as int]@ == self@.cells[nx as int]);
                Some(self.cells[nx][ny])
            },
            _ => None,
        }
    }

    /// Number of living (Normal) cells of either faction among the Moore neighbours.
    pub fn count_living_neighbors(&self, coord: GridCoord) -> (n: usize)
        requires
            self.wf(),
        ensures
            n == self@.living(coord.x as int, coord.y as int),
            n <= 8,
    {
        let mut n: usize = 0;
        let mut k: usize = 0;
        while k < 8
            invariant
                self.wf(),
                k <= 8,
                n == self@.living_count(coord.x as int, coord.y as int, k as int),
                n <= k,
            decreases 8 - k,
        {
            if let Some(c) = self.neighbor_cell(coord, k) {
                if c.is_normal() {
                    n = n + 1;
                }
            }
            k = k + 1;
        }
        n
    }

    /// Numbers of red and of blue living cells among the Moore neighbours.
    pub fn count_faction_neighbors(&self, coord: GridCoord) -> (r: (usize, usize))
        requires
            self.wf(),
        ensures
            r.0 == self@.red_neighbors(coord.x as int, coord.y as int),
            r.1 == self@.blue_neighbors(coord.x as int, coord.y as int),
    {
        let mut red: usize = 0;
        let mut blue: usize = 0;
        let mut k: usize = 0;
        while k < 8
            invariant
                self.wf(),
                k <= 8,
                red == self@.red_count(coord.x as int, coord.y as int, k as int),
                blue == self@.blue_count(coord.x as int, coord.y as int, k as int),
                red <= k,
                blue <= k,
            decreases 8 - k,
        {
            if let Some(c) = self.neighbor_cell(coord, k) {
                match c {
                    CellType::Normal(Faction::Red) => red = red + 1,
                    CellType::Normal(Faction::Blue) => blue = blue + 1,
                    _ => {},
                }
            }
            k = k + 1;
        }
        (red, blue)
    }

    /// Whether some Moore neighbour of `coord` is a living cell.
    pub fn has_normal_neighbor(&self, coord: GridCoord) -> (r: bool)
        requires
            self.wf(),
        ensures
            r == self@.has_normal_neighbor(coord.x as int, coord.y as int),
    {
        self.count_living_neighbors(coord) > 0
    }

    /// The on-grid cells within Chebyshev distance `radius` of `center`, row by row.
    pub fn cells_in_radius(&self, center: GridCoord, radius: usize) -> (r: Vec<GridCoord>)
        ensures
            sorted_row_major(r@),
            forall|c: GridCoord|
                #[trigger] r@.contains(c) <==> (self@.in_bounds(c.x as int, c.y as int)
                    && in_square(c, center.x as int, center.y as int, radius as int)),
    {
        let cx = center.x;
        let cy = center.y;
        let xlo = if cx >= radius { cx - radius } else { 0 };
        let ylo = if cy >= radius { cy - radius } else { 0 };
        let xhi = if cx < self.width && radius < self.width - cx { cx + radius + 1 } else { self.width };
        let yhi = if cy < self.height && radius < self.height - cy { cy + radius + 1 } else { self.height };
        let mut result: Vec<GridCoord> = Vec::new();
        let mut y: usize = ylo;
        while y < yhi
            invariant
                ylo <= y,
                yhi <= self.height,
                xhi <= self.width,
                xlo == span_lo(cx as int, radius as int),
                xhi == span_hi(cx as int, radius as int, self.width as int),
                ylo == span_lo(cy as int, radius as int),
                yhi == span_hi(cy as int, radius as int, self.height as int),
                sorted_row_major(result@),
                forall|i: int| 0 <= i < result@.len() ==> (#[trigger] result@[i]).y < y,
                forall|c: GridCoord| #[trigger] result@.contains(c) <==> ((self@.in_bounds(c.x as int, c.y as int) && in_square(c, cx as int, cy as int, radius as int)) && c.y < y),
            decreases yhi - y,
        {
            let mut x: usize = xlo;
            while x < xhi
                invariant
                    ylo <= y < yhi,
                    yhi <= self.height,
                    xlo <= x,
                    xhi <= self.width,
                    xlo == span_lo(cx as int, radius as int),
                    xhi == span_hi(cx as int, radius as int, self.width as int),
                    ylo == span_lo(cy as int, radius as int),
                    yhi == span_hi(cy as int, radius as int, self.height as int),
                    sorted_row_major(result@),
                    forall|i: int| 0 <= i < result@.len() ==> row_major_lt(#[trigger] result@[i], GridCoord { x, y }),
                    forall|c: GridCoord| #[trigger] result@.contains(c) <==> ((self@.in_bounds(c.x as int, c.y as int) && in_square(c, cx as int, cy as int, radius as int)) && (c.y < y || (c.y == y && c.x < x))),
                decreases xhi - x,
            {
                let c = GridCoord::new(x, y);
                let ghost before = result@;
                proof {
                    lemma_push_contains(result@, c);
                }
                result.push(c);
                proof {
                    assert forall|d: GridCoord| #[trigger] result@.contains(d) <==> ((self@.in_bounds(d.x as int, d.y as int) && in_square(d, cx as int, cy as int, radius as int)) && (d.y < y
                        || (d.y == y && d.x < x + 1))) by {
                        assert(before.push(c).contains(d) <==> (before.contains(d) || d == c));
                        assert(before.contains(d) <==> ((self@.in_bounds(d.x as int, d.y as int) && in_square(d, cx as int, cy as int, radius as int)) && (d.y < y || (d.y == y && d.x < x))));
                        assert((self@.in_bounds(c.x as int, c.y as int) && in_square(c, cx as int, cy as int, radius as int)));
                        if d.y == y && d.x == x {
                            assert(d == c);
                        }
                    }
                }
                x = x + 1;
            }
            y = y + 1;
        }
        result
    }

    /// Positions holding exactly `target`, column by column, top to bottom.
    fn positions_of(&self, target: CellType) -> (r: Vec<GridCoord>)
        requires
            self.wf(),
        ensures
            sorted_col_major(r@),
            forall|c: GridCoord|
                #[trigger] r@.contains(c) <==> (self@.in_bounds(c.x as int, c.y as int)
                    && self@.at(c.x as int, c.y as int) == target),
    {
        let mut result: Vec<GridCoord> = Vec::new();
        let mut x: usize = 0;
        while x < self.width
            invariant
                self.wf(),
                x <= self.width,
                sorted_col_major(result@),
                forall|i: int| 0 <= i < result@.len() ==> (#[trigger] result@[i]).x < x,
                forall|c: GridCoord| #[trigger] result@.contains(c) <==> ((self@.in_bounds(c.x as int, c.y as int) && self@.at(c.x as int, c.y as int) == target) && c.x < x),
            decreases self.width - x,
        {
            assert(self.cells@[x as int]@ == self@.cells[x as int]);
            let mut y: usize = 0;
            while y < self.height
                invariant
                    self.wf(),
                    x < self.width,
                    y <= self.height,
                    self.cells@[x as int]@ == self@.cells[x as int],
                    sorted_col_major(result@),
                    forall|i: int| 0 <= i < result@.len() ==> col_major_lt(#[trigger] result@[i], GridCoord { x, y }),
                    forall|c: GridCoord| #[trigger] result@.contains(c) <==> ((self@.in_bounds(c.x as int, c.y as int) && self@.at(c.x as int, c.y as int) == target) && (c.x < x || (c.x == x && c.y < y))),
                decreases self.height - y,
            {
                let c = GridCoord::new(x, y);
                let ghost before = result@;
                proof {
                    lemma_push_contains(result@, c);
                }
                let hit = self.cells[x][y] == target;
                if hit {
                    result.push(c);
                }
                proof {
                    assert forall|d: GridCoord| #[trigger] result@.contains(d) <==> ((self@.in_bounds(d.x as int, d.y as int) && self@.at(d.x as int, d.y as int) == target) && (d.x < x
                        || (d.x == x && d.y < y + 1))) by {
                        assert(before.push(c).contains(d) <==> (before.contains(d) || d == c));
                        if d.y == y && d.x == x {
                            assert(d == c);
                        }
                    }
                }
                y = y + 1;
            }
            x = x + 1;
        }
        result
    }

    /// Positions of all high-value targets, column by column.
    pub fn find_high_values(&self) -> (r: Vec<GridCoord>)
        requires
            self.wf(),
        ensures
            sorted_col_major(r@),
            forall|c: GridCoord|
                #[trigger] r@.contains(c) <==> (self@.in_bounds(c.x as int, c.y as int)
                    && self@.at(c.x as int, c.y as int) is HighValue),
    {
        self.positions_of(CellType::HighValue)
    }

    /// Positions of all bombs, column by column.
    pub fn find_bombs(&self) -> (r: Vec<GridCoord>)
        requires
            self.wf(),
        ensures
            sorted_col_major(r@),
            forall|c: GridCoord|
                #[trigger] r@.contains(c) <==> (self@.in_bounds(c.x as int, c.y as int)
                    && self@.at(c.x as int, c.y as int) is Bomb),
    {
        self.positions_of(CellType::Bomb)
    }

    /// A copy of the grid's size and cells.
    pub fn snapshot(&self) -> (s: GridSnapshot)
        ensures
            s@ == self@,
    {
        GridSnapshot { width: self.width, height: self.height, cells: copy_cells(&self.cells) }
    }

    /// Takes size and cells from `snapshot`.
    pub fn restore(&mut self, snapshot: &GridSnapshot)
        ensures
            final(self)@ == snapshot@,
    {
        self.width = snapshot.width;
        self.height = snapshot.height;
        self.cells = copy_cells(&snapshot.cells);
    }

    /// Empties every cell; the size stays.
    pub fn clear(&mut self)
        requires
            old(self).wf(),
        ensures
            final(self).wf(),
            final(self).width == old(self).width,
            final(self).height == old(self).height,
            forall|x: int, y: int|
                final(self)@.in_bounds(x, y) ==> #[trigger] final(self)@.at(x, y) == CellType::Empty,
    {
        let mut x: usize = 0;
        while x < self.width
            invariant
                self.wf(),
                self.width == old(self).width,
                self.height == old(self).height,
                x <= self.width,
                forall|i: int, j: int|
                    0 <= i < x && 0 <= j < self.height ==> #[trigger] self@.cells[i][j] == CellType::Empty,
            decreases self.width - x,
        {
            let col = empty_column(self.height);
            let ghost before = self@;
            self.cells.set(x, col);
            assert(self@.cells =~= before.cells.update(x as int, col@));
            x = x + 1;
        }
    }

    /// Whether `coord` is one of the coordinates of `zone`.
    pub fn is_in_deployment_zone(&self, coord: GridCoord, zone: &[GridCoord]) -> (r: bool)
        ensures
            r == zone@.contains(coord),
    {
        coord_in(coord, zone)
    }
}

/// Whether `coord` occurs in `zone`.
pub fn coord_in(coord: GridCoord, zone: &[GridCoord]) -> (r: bool)
    ensures
        r == zone@.contains(coord),
{
    let mut i: usize = 0;
    while i < zone.len()
        invariant
            i <= zone@.len(),
            forall|j: int| 0 <= j < i ==> zone@[j] != coord,
        decreases zone@.len() - i,
    {
        if zone[i] == coord {
            return true;
        }
        i = i + 1;
    }
    false
}

impl Clone for Grid {
    fn clone(&self) -> (r: Grid)
        ensures
            r@ == self@,
    {
        Grid { width: self.width, height: self.height, cells: copy_cells(&self.cells) }
    }
}

impl Clone for GridSnapshot {
    fn clone(&self) -> (r: GridSnapshot)
        ensures
            r@ == self@,
    {
        GridSnapshot { width: self.width, height: self.height, cells: copy_cells(&self.cells) }
    }
}


/// Two well-formed boards with the same size and the same cells are equal.
pub proof fn lemma_board_ext(a: Board, b: Board)
    requires
        a.wf(),
        b.wf(),
        a.same_cells(b),
    ensures
        a == b,
{
    assert forall|x: int| 0 <= x < a.width implies #[trigger] a.cells[x] =~= b.cells[x] by {
        assert forall|y: int| 0 <= y < a.height implies a.cells[x][y] == b.cells[x][y] by {
            assert(a.at(x, y) == b.at(x, y));
        }
    }
    assert(a.cells =~= b.cells);
}

/// A board built from a cell function is well formed and reads back that function.
pub proof fn lemma_from_fn(width: int, height: int, f: spec_fn(int, int) -> CellType)
    requires
        width >= 0,
        height >= 0,
    ensures
        Board::from_fn(width, height, f).wf(),
        forall|x: int, y: int|
            0 <= x < width && 0 <= y < height ==> #[trigger] Board::from_fn(width, height, f).at(x, y) == f(x, y),
{
}


/// A sequence sorted column by column has no repeated coordinate.
pub proof fn lemma_col_major_distinct(s: Seq<GridCoord>)
    requires
        sorted_col_major(s),
    ensures
        distinct(s),
{
    assert forall|i: int, j: int| 0 <= i < j < s.len() implies #[trigger] s[i] != #[trigger] s[j] by {
        assert(col_major_lt(s[i], s[j]));
    }
}

/// The board after writing each `(coord, cell)` pair in order; off-grid pairs change nothing.
pub open spec fn painted(b: Board, cells: Seq<(GridCoord, CellType)>) -> Board
    decreases cells.len(),
{
    if cells.len() == 0 {
        b
    } else {
        let (c, v) = cells.last();
        painted(b, cells.drop_last()).with_cell(c.x as int, c.y as int, v)
    }
}

impl Grid {
    /// Writes each `(coord, cell)` pair in order; off-grid pairs are skipped.
    pub fn paint(&mut self, cells: &[(GridCoord, CellType)])
        requires
            old(self).wf(),
        ensures
            final(self).wf(),
            final(self)@ == painted(old(self)@, cells@),
    {
        let ghost b = self@;
        let mut i: usize = 0;
        while i < cells.len()
            invariant
                self.wf(),
                i <= cells@.len(),
                self@ == painted(b, cells@.subrange(0, i as int)),
            decreases cells@.len() - i,
        {
            let (c, v) = cells[i];
            self.set(c, v);
            proof {
                assert(cells@.subrange(0, i + 1).drop_last() =~= cells@.subrange(0, i as int));
            }
            i = i + 1;
        }
        proof {
            assert(cells@.subrange(0, cells@.len() as int) =~= cells@);
        }
    }
}


/// Reading a cell after writing it gives what was written (when it is on the board); every other
/// cell reads as before, and the board keeps its size.
pub proof fn law_set_then_get(b: Board, x: int, y: int, c: CellType)
    requires
        b.wf(),
    ensures
        b.with_cell(x, y, c).wf(),
        b.with_cell(x, y, c).width == b.width,
        b.with_cell(x, y, c).height == b.height,
        forall|i: int, j: int| #[trigger] b.with_cell(x, y, c).at(i, j) == (if i == x && j == y && b.in_bounds(x, y) {
            c
        } else {
            b.at(i, j)
        }),
{
    let n = b.with_cell(x, y, c);
    if b.in_bounds(x, y) {
        assert forall|i: int| 0 <= i < n.width implies #[trigger] n.cells[i].len() == n.height by {
            if i != x {
                assert(n.cells[i] == b.cells[i]);
            }
        }
        assert forall|i: int, j: int| #[trigger] n.at(i, j) == (if i == x && j == y && b.in_bounds(x, y) {
            c
        } else {
            b.at(i, j)
        }) by {
            if n.in_bounds(i, j) && i != x {
                assert(n.cells[i] == b.cells[i]);
            }
        }
    }
}

/// After writing a sequence of pairs, a cell holds the value of the last pair written there,
/// or its old value when none was.
pub proof fn lemma_painted_at(b: Board, s: Seq<(GridCoord, CellType)>, x: int, y: int)
    requires
        b.wf(),
    ensures
        painted(b, s).wf(),
        painted(b, s).width == b.width,
        painted(b, s).height == b.height,
        (forall|j: int| 0 <= j < s.len() ==> !((#[trigger] s[j]).0.x == x && s[j].0.y == y)) ==> painted(b, s).at(x, y) == b.at(x, y),
        forall|j: int| 0 <= j < s.len() && (#[trigger] s[j]).0.x == x && s[j].0.y == y && b.in_bounds(x, y)
            && (forall|k: int| j < k < s.len() ==> !((#[trigger] s[k]).0.x == x && s[k].0.y == y))
            ==> painted(b, s).at(x, y) == s[j].1,
    decreases s.len(),
{
    if s.len() > 0 {
        let t = s.drop_last();
        lemma_painted_at(b, t, x, y);
        let (c, v) = s.last();
        law_set_then_get(painted(b, t), c.x as int, c.y as int, v);
        assert forall|j: int| 0 <= j < t.len() implies #[trigger] t[j] == s[j] by {}
        assert forall|j: int| 0 <= j < s.len() && (#[trigger] s[j]).0.x == x && s[j].0.y == y && b.in_bounds(x, y)
            && (forall|k: int| j < k < s.len() ==> !((#[trigger] s[k]).0.x == x && s[k].0.y == y))
            implies painted(b, s).at(x, y) == s[j].1 by {
            if j < s.len() - 1 {
                assert(t[j] == s[j]);
                assert(!(s[s.len() - 1].0.x == x && s[s.len() - 1].0.y == y));
                assert forall|k: int| j < k < t.len() implies !((#[trigger] t[k]).0.x == x && t[k].0.y == y) by {
                    assert(t[k] == s[k]);
                }
                assert(painted(b, t).at(x, y) == t[j].1);
            }
        }
    }
}

} // verus!
