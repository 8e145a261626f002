use vstd::prelude::*;

verus! {

/// The two factions. Red is the player's side, Blue the opponent's.
#[derive(Clone, Copy, PartialEq, Eq, Debug, Structural)]
pub enum Faction {
    Red,
    Blue,
}

impl Default for Faction {
    fn default() -> (r: Faction)
        ensures
            r == Faction::Red,
    {
        Faction::Red
    }
}

/// What a grid cell holds.
#[derive(Clone, Copy, PartialEq, Eq, Debug, Structural)]
pub enum CellType {
    Empty,
    Normal(Faction),
    Wall,
    Bomb,
    HighValue,
}

impl Default for CellType {
    fn default() -> (r: CellType)
        ensures
            r == CellType::Empty,
    {
        CellType::Empty
    }
}

impl CellType {
    pub fn is_normal(&self) -> (r: bool)
        ensures
            r == (*self is Normal),
    {
        matches!(self, CellType::Normal(_))
    }

    pub fn is_empty(&self) -> (r: bool)
        ensures
            r == (*self is Empty),
    {
        matches!(self, CellType::Empty)
    }

    pub fn is_wall(&self) -> (r: bool)
        ensures
            r == (*self is Wall),
    {
        matches!(self, CellType::Wall)
    }

    pub fn is_bomb(&self) -> (r: bool)
        ensures
            r == (*self is Bomb),
    {
        matches!(self, CellType::Bomb)
    }

    pub fn is_high_value(&self) -> (r: bool)
        ensures
            r == (*self is HighValue),
    {
        matches!(self, CellType::HighValue)
    }

    /// A solid cell (wall, bomb or high-value target) cannot be painted over.
    pub fn is_solid(&self) -> (r: bool)
        ensures
            r == (*self is Wall || *self is Bomb || *self is HighValue),
    {
        matches!(self, CellType::Wall | CellType::Bomb | CellType::HighValue)
    }
}

/// A grid coordinate: `x` is the column, `y` the row, the origin is the top-left corner.
#[derive(Clone, Copy, PartialEq, Eq, Hash, Debug, Structural)]
pub struct GridCoord {
    pub x: usize,
    pub y: usize,
}

impl GridCoord {
    pub fn new(x: usize, y: usize) -> (r: GridCoord)
        ensures
            r.x == x,
            r.y == y,
    {
        GridCoord { x, y }
    }
}

/// Facing of a deployed unit.
#[derive(Clone, Copy, PartialEq, Eq, Debug, Structural)]
pub enum Direction {
    Up,
    Down,
    Left,
    Right,
}

/// A copy of a grid's dimensions and cells (`cells[x][y]`), used to restore it later.
pub struct GridSnapshot {
    pub width: usize,
    pub height: usize,
    pub cells: Vec<Vec<CellType>>,
}

} // verus!
