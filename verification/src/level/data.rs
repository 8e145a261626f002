use vstd::prelude::*;

use crate::grid::types::{CellType, GridCoord};

verus! {

/// A level: its cells, row by row (`initial_cells[y][x]`), the zone where the player may
/// deploy, the units the player gets and the evolution steps per deployment.
pub struct LevelData {
    pub id: String,
    pub name: String,
    pub version: u32,
    pub width: usize,
    pub height: usize,
    pub initial_cells: Vec<Vec<CellType>>,
    pub deployment_zone: Vec<GridCoord>,
    pub max_gliders: u32,
    pub max_lwss: u32,
    pub evolution_steps: u32,
}

/// Format version of a level that states none.
pub fn default_version() -> (r: u32)
    ensures
        r == 1,
{
    1
}

/// Width of a level that states none.
pub fn default_width() -> (r: usize)
    ensures
        r == 60,
{
    60
}

/// Height of a level that states none.
pub fn default_height() -> (r: usize)
    ensures
        r == 40,
{
    40
}

/// Evolution steps per deployment of a level that states none.
pub fn default_evolution_steps() -> (r: u32)
    ensures
        r == 200,
{
    200
}

/// The player's progress: levels unlocked and levels completed, by id.
pub struct SaveData {
    pub version: u32,
    pub unlocked_levels: Vec<String>,
    pub completed_levels: Vec<String>,
}

impl Default for SaveData {
    /// Fresh progress: only the first level is unlocked.
    fn default() -> (r: SaveData)
        ensures
            r.version == 1,
            r.unlocked_levels@.len() == 1,
            r.unlocked_levels@[0]@ == "level_01"@,
            r.completed_levels@.len() == 0,
    {
        let mut unlocked: Vec<String> = Vec::new();
        unlocked.push("level_01".to_owned());
        SaveData { version: 1, unlocked_levels: unlocked, completed_levels: Vec::new() }
    }
}

} // verus!
