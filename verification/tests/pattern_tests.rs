use siege_of_life::gol::engine::evolution_step;
use siege_of_life::grid::{CellType, Direction, Faction, Grid, GridCoord};
use siege_of_life::patterns::{
    apply_pattern, deployable_names, get_pattern_by_name, glider, glider_blue, glider_red, lwss, lwss_blue, lwss_red,
    oscillator_names, pattern_pivot, rotate_offset, rotate_pattern, still_life_names,
};
use siege_of_life::player::deploy::DeployUnitType;
use siege_of_life::player::palette::get_palette_items;

fn stamp(g: &mut Grid, cells: &[(GridCoord, CellType)]) {
    for (c, t) in cells {
        g.set(*c, *t);
    }
}

fn living(g: &Grid) -> Vec<(usize, usize)> {
    let mut out = Vec::new();
    for x in 0..g.width {
        for y in 0..g.height {
            if g.cells[x][y].is_normal() {
                out.push((x, y));
            }
        }
    }
    out
}

#[test]
fn pattern_name_lists() {
    assert_eq!(still_life_names(), vec!["Block", "Tub", "Boat", "Loaf", "Beehive"]);
    assert_eq!(oscillator_names(), vec!["Blinker", "Toad", "Beacon", "Pulsar"]);
    assert_eq!(deployable_names(), vec!["Glider", "LWSS"]);
}

#[test]
fn every_listed_name_has_a_pattern() {
    let origin = GridCoord::new(20, 20);
    for name in still_life_names().into_iter().chain(oscillator_names()).chain(deployable_names()) {
        let cells = get_pattern_by_name(name, origin, Faction::Blue).expect("listed pattern");
        assert!(!cells.is_empty());
        assert!(cells.iter().all(|(_, t)| *t == CellType::Normal(Faction::Blue)));
    }
    assert!(get_pattern_by_name("Spaceship", origin, Faction::Red).is_none());
    assert!(get_pattern_by_name("block", origin, Faction::Red).is_none());
}

#[test]
fn named_patterns_are_laid_out_from_the_origin() {
    let block = get_pattern_by_name("Block", GridCoord::new(3, 4), Faction::Red).unwrap();
    let coords: Vec<GridCoord> = block.iter().map(|(c, _)| *c).collect();
    assert_eq!(
        coords,
        vec![GridCoord::new(3, 4), GridCoord::new(3, 5), GridCoord::new(4, 4), GridCoord::new(4, 5)]
    );
    let pulsar = get_pattern_by_name("Pulsar", GridCoord::new(0, 0), Faction::Red).unwrap();
    assert_eq!(pulsar.len(), 59);
    assert_eq!(pulsar[0].0, GridCoord::new(1, 3));
    let glider_named = get_pattern_by_name("Glider", GridCoord::new(9, 9), Faction::Red).unwrap();
    assert_eq!(glider_named, glider_red(GridCoord::new(9, 9), Direction::Right));
}

#[test]
fn still_lifes_do_not_change() {
    for name in still_life_names() {
        let mut g = Grid::new(15, 15);
        stamp(&mut g, &get_pattern_by_name(name, GridCoord::new(5, 5), Faction::Red).unwrap());
        let before = g.cells.clone();
        evolution_step(&mut g);
        assert_eq!(g.cells, before, "{}", name);
    }
}

#[test]
fn small_oscillators_return_after_two_steps() {
    for name in ["Blinker", "Toad", "Beacon"] {
        let mut g = Grid::new(15, 15);
        stamp(&mut g, &get_pattern_by_name(name, GridCoord::new(5, 5), Faction::Blue).unwrap());
        let before = g.cells.clone();
        evolution_step(&mut g);
        assert_ne!(g.cells, before, "{}", name);
        evolution_step(&mut g);
        assert_eq!(g.cells, before, "{}", name);
    }
}

#[test]
fn apply_pattern_clamps_at_zero() {
    let cells = apply_pattern(&[(-2, 0), (1, -5), (2, 3)], GridCoord::new(1, 1), CellType::Wall);
    assert_eq!(
        cells,
        vec![
            (GridCoord::new(0, 1), CellType::Wall),
            (GridCoord::new(2, 0), CellType::Wall),
            (GridCoord::new(3, 4), CellType::Wall)
        ]
    );
}

#[test]
fn patterns_at_the_far_edge_stay_in_range() {
    let far = usize::MAX - 1;
    let cells = apply_pattern(&[(0, 0), (1, 1), (3, -2), (isize::MIN, isize::MAX)], GridCoord::new(far, far), CellType::Wall);
    assert_eq!(cells[0].0, GridCoord::new(far, far));
    assert_eq!(cells[1].0, GridCoord::new(usize::MAX, usize::MAX));
    assert_eq!(cells[2].0, GridCoord::new(usize::MAX, far - 2));
    assert_eq!(cells[3].0, GridCoord::new(far - (1usize << 63), usize::MAX));
    let blue = glider_blue(GridCoord::new(far, 3), Direction::Up);
    let red = glider_red(GridCoord::new(far, 3), Direction::Up);
    assert_eq!(blue.len(), 5);
    for (b, r) in blue.iter().zip(red.iter()) {
        assert_eq!(b.0, r.0);
        assert_eq!(b.1, CellType::Normal(Faction::Blue));
    }
    assert!(get_pattern_by_name("Pulsar", GridCoord::new(usize::MAX, usize::MAX), Faction::Red)
        .unwrap()
        .iter()
        .all(|(c, _)| *c == GridCoord::new(usize::MAX, usize::MAX)));
}

#[test]
fn rotate_offset_turns_clockwise() {
    assert_eq!(rotate_offset(2, 1, Direction::Right), (2, 1));
    assert_eq!(rotate_offset(2, 1, Direction::Down), (-1, 2));
    assert_eq!(rotate_offset(2, 1, Direction::Left), (-2, -1));
    assert_eq!(rotate_offset(2, 1, Direction::Up), (1, -2));
    // Four quarter turns come back.
    let mut v = (3, -7);
    for _ in 0..4 {
        v = rotate_offset(v.0, v.1, Direction::Down);
    }
    assert_eq!(v, (3, -7));
}

#[test]
fn pivot_is_the_bounding_box_centre() {
    assert_eq!(pattern_pivot(&[(0, 1), (1, 2), (2, 0), (2, 1), (2, 2)]), (1, 1));
    assert_eq!(pattern_pivot(&[(0, 1), (3, 0), (1, 4)]), (1, 2));
    assert_eq!(pattern_pivot(&[(-3, -1), (0, 0)]), (-1, 0));
    assert_eq!(pattern_pivot(&[]), (0, 0));
}

#[test]
fn glider_turned_down_points_the_other_way() {
    let cells = glider_red(GridCoord::new(5, 5), Direction::Down);
    let coords: Vec<GridCoord> = cells.iter().map(|(c, _)| *c).collect();
    assert_eq!(
        coords,
        vec![
            GridCoord::new(5, 4),
            GridCoord::new(4, 5),
            GridCoord::new(6, 6),
            GridCoord::new(5, 6),
            GridCoord::new(4, 6)
        ]
    );
    let mut g = Grid::new(20, 20);
    stamp(&mut g, &cells);
    let mut expected: Vec<(usize, usize)> = coords.iter().map(|c| (c.x - 1, c.y + 1)).collect();
    expected.sort();
    for _ in 0..4 {
        evolution_step(&mut g);
    }
    assert_eq!(living(&g), expected);
}

#[test]
fn unit_patterns_by_faction() {
    let o = GridCoord::new(10, 10);
    for dir in [Direction::Up, Direction::Down, Direction::Left, Direction::Right] {
        let r = glider_red(o, dir);
        let b = glider_blue(o, dir);
        assert_eq!(r.len(), 5);
        assert_eq!(glider(o, dir, Faction::Blue), b);
        assert!(r.iter().zip(b.iter()).all(|(x, y)| x.0 == y.0));
        assert!(b.iter().all(|(_, t)| *t == CellType::Normal(Faction::Blue)));
        let lr = lwss_red(o, dir);
        let lb = lwss_blue(o, dir);
        assert_eq!(lr.len(), 9);
        assert_eq!(lwss(o, dir, Faction::Red), lr);
        assert!(lr.iter().zip(lb.iter()).all(|(x, y)| x.0 == y.0));
    }
    let turned = rotate_pattern(&[(0, 0), (2, 0)], GridCoord::new(4, 4), Direction::Up, CellType::Bomb);
    assert_eq!(turned, vec![(GridCoord::new(4, 5), CellType::Bomb), (GridCoord::new(4, 3), CellType::Bomb)]);
}

#[test]
fn palette_offers_glider_then_lwss() {
    let items = get_palette_items();
    assert_eq!(items.len(), 2);
    assert_eq!(items[0].name, "滑翔机");
    assert_eq!(items[0].unit_type, DeployUnitType::Glider);
    assert_eq!(items[1].name, "LWSS");
    assert_eq!(items[1].unit_type, DeployUnitType::LWSS);
}
