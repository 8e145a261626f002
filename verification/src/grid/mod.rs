pub mod types;
pub mod board;

pub use self::board::Grid;
pub use self::types::{CellType, Direction, Faction, GridCoord, GridSnapshot};
