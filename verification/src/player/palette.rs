use vstd::prelude::*;

use crate::player::deploy::DeployUnitType;

verus! {

/// One entry of the unit palette.
pub struct PaletteItem {
    pub name: &'static str,
    pub unit_type: DeployUnitType,
}

/// The units offered in the palette: the glider, then the lightweight spaceship.
pub fn get_palette_items() -> (r: Vec<PaletteItem>)
    ensures
        r@.len() == 2,
        r@[0].name@ == "滑翔机"@,
        r@[0].unit_type == DeployUnitType::Glider,
        r@[1].name@ == "LWSS"@,
        r@[1].unit_type == DeployUnitType::LWSS,
{
    let mut items: Vec<PaletteItem> = Vec::new();
    items.push(PaletteItem { name: "滑翔机", unit_type: DeployUnitType::Glider });
    items.push(PaletteItem { name: "LWSS", unit_type: DeployUnitType::LWSS });
    items
}

} // verus!
