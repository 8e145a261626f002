use vstd::prelude::*;

use crate::grid::types::Faction;

verus! {

/// Faction of a cell born from its neighbours: red only with a strict red majority.
pub open spec fn revival_faction(red: int, blue: int) -> Faction {
    if red > blue {
        Faction::Red
    } else {
        Faction::Blue
    }
}

/// Decides the faction of a newborn cell from the red and blue counts of its living neighbours.
pub fn determine_revival_faction(red_count: usize, blue_count: usize) -> (f: Faction)
    ensures
        f == revival_faction(red_count as int, blue_count as int),
{
    if red_count > blue_count {
        Faction::Red
    } else {
        Faction::Blue
    }
}

/// A newborn cell has exactly three living neighbours, so it always joins the faction
/// that holds at least two of them.
pub proof fn law_revival_majority(red: int, blue: int)
    requires
        red >= 0,
        blue >= 0,
        red + blue == 3,
    ensures
        red >= 2 ==> revival_faction(red, blue) == Faction::Red,
        blue >= 2 ==> revival_faction(red, blue) == Faction::Blue,
{
}

} // verus!
