use siege_of_life::grid::{CellType, Faction, Grid, GridCoord};

fn red() -> CellType {
    CellType::Normal(Faction::Red)
}

fn blue() -> CellType {
    CellType::Normal(Faction::Blue)
}

#[test]
fn new_grid_is_empty() {
    let g = Grid::new(60, 40);
    assert_eq!(g.width, 60);
    assert_eq!(g.height, 40);
    assert_eq!(g.cells.len(), 60);
    assert!(g.cells.iter().all(|col| col.len() == 40 && col.iter().all(|c| *c == CellType::Empty)));
}

#[test]
fn get_outside_reads_as_wall() {
    let g = Grid::new(5, 4);
    assert_eq!(g.get(GridCoord::new(5, 0)), CellType::Wall);
    assert_eq!(g.get(GridCoord::new(0, 4)), CellType::Wall);
    assert_eq!(g.get(GridCoord::new(4, 3)), CellType::Empty);
}

#[test]
fn set_then_get_reads_back() {
    let mut g = Grid::new(5, 4);
    g.set(GridCoord::new(2, 3), CellType::Bomb);
    assert_eq!(g.get(GridCoord::new(2, 3)), CellType::Bomb);
    assert_eq!(g.get(GridCoord::new(3, 2)), CellType::Empty);
    // Writing outside the grid does nothing.
    g.set(GridCoord::new(9, 9), CellType::Wall);
    assert_eq!(g.width, 5);
    assert_eq!(g.height, 4);
    assert!(g.cells.iter().flatten().filter(|c| **c != CellType::Empty).count() == 1);
}

#[test]
fn in_bounds_and_is_empty() {
    let mut g = Grid::new(3, 3);
    assert!(g.in_bounds(GridCoord::new(2, 2)));
    assert!(!g.in_bounds(GridCoord::new(3, 0)));
    g.set(GridCoord::new(1, 1), CellType::Wall);
    assert!(!g.is_empty(GridCoord::new(1, 1)));
    assert!(g.is_empty(GridCoord::new(0, 1)));
    assert!(!g.is_empty(GridCoord::new(7, 1)));
}

#[test]
fn neighbor_coords_in_row_order() {
    let g = Grid::new(10, 10);
    let n = g.neighbor_coords(GridCoord::new(5, 5));
    let expected = vec![
        GridCoord::new(4, 4),
        GridCoord::new(5, 4),
        GridCoord::new(6, 4),
        GridCoord::new(4, 5),
        GridCoord::new(6, 5),
        GridCoord::new(4, 6),
        GridCoord::new(5, 6),
        GridCoord::new(6, 6),
    ];
    assert_eq!(n, expected);
    let corner = g.neighbor_coords(GridCoord::new(0, 0));
    assert_eq!(corner, vec![GridCoord::new(1, 0), GridCoord::new(0, 1), GridCoord::new(1, 1)]);
    let far = g.neighbor_coords(GridCoord::new(9, 9));
    assert_eq!(far, vec![GridCoord::new(8, 8), GridCoord::new(9, 8), GridCoord::new(8, 9)]);
}

#[test]
fn neighbor_counts_by_faction() {
    let mut g = Grid::new(6, 6);
    g.set(GridCoord::new(1, 1), red());
    g.set(GridCoord::new(2, 1), red());
    g.set(GridCoord::new(3, 3), blue());
    g.set(GridCoord::new(1, 2), CellType::Wall);
    g.set(GridCoord::new(3, 2), CellType::HighValue);
    let c = GridCoord::new(2, 2);
    assert_eq!(g.count_living_neighbors(c), 3);
    assert_eq!(g.count_faction_neighbors(c), (2, 1));
    assert!(g.has_normal_neighbor(c));
    assert!(!g.has_normal_neighbor(GridCoord::new(5, 5)));
}

#[test]
fn faction_counts_add_up_to_living_count() {
    let mut g = Grid::new(8, 8);
    let cells = [(1, 1, red()), (2, 1, blue()), (3, 2, red()), (1, 3, blue()), (2, 3, CellType::Bomb)];
    for (x, y, c) in cells {
        g.set(GridCoord::new(x, y), c);
    }
    for x in 0..8 {
        for y in 0..8 {
            let p = GridCoord::new(x, y);
            let (r, b) = g.count_faction_neighbors(p);
            assert_eq!(r + b, g.count_living_neighbors(p));
        }
    }
}

#[test]
fn cells_in_radius_is_clipped_square() {
    let g = Grid::new(20, 20);
    let inner = g.cells_in_radius(GridCoord::new(10, 10), 5);
    assert_eq!(inner.len(), 121);
    assert_eq!(inner[0], GridCoord::new(5, 5));
    assert_eq!(inner[1], GridCoord::new(6, 5));
    assert_eq!(inner[120], GridCoord::new(15, 15));
    let corner = g.cells_in_radius(GridCoord::new(0, 0), 2);
    assert_eq!(corner.len(), 9);
    assert_eq!(corner[0], GridCoord::new(0, 0));
    assert_eq!(corner[3], GridCoord::new(0, 1));
    assert_eq!(g.cells_in_radius(GridCoord::new(3, 3), 0), vec![GridCoord::new(3, 3)]);
    // A radius beyond any signed value still covers the whole grid.
    assert_eq!(g.cells_in_radius(GridCoord::new(3, 3), usize::MAX).len(), 400);
    let small = Grid::new(10, 10);
    assert_eq!(
        small.cells_in_radius(GridCoord::new(0, 0), 1),
        vec![GridCoord::new(0, 0), GridCoord::new(1, 0), GridCoord::new(0, 1), GridCoord::new(1, 1)]
    );
}

#[test]
fn find_targets_column_by_column() {
    let mut g = Grid::new(6, 6);
    g.set(GridCoord::new(4, 1), CellType::HighValue);
    g.set(GridCoord::new(1, 5), CellType::HighValue);
    g.set(GridCoord::new(1, 2), CellType::HighValue);
    g.set(GridCoord::new(3, 3), CellType::Bomb);
    g.set(GridCoord::new(0, 4), CellType::Bomb);
    assert_eq!(
        g.find_high_values(),
        vec![GridCoord::new(1, 2), GridCoord::new(1, 5), GridCoord::new(4, 1)]
    );
    assert_eq!(g.find_bombs(), vec![GridCoord::new(0, 4), GridCoord::new(3, 3)]);
}

#[test]
fn snapshot_then_restore_gives_back_the_grid() {
    let mut g = Grid::new(4, 3);
    g.set(GridCoord::new(1, 2), red());
    g.set(GridCoord::new(3, 0), CellType::Wall);
    let snap = g.snapshot();
    let before = g.cells.clone();
    g.clear();
    assert!(g.cells.iter().flatten().all(|c| *c == CellType::Empty));
    g.restore(&snap);
    assert_eq!(g.cells, before);
    assert_eq!(g.width, 4);
    assert_eq!(g.height, 3);
}

#[test]
fn restore_takes_the_snapshot_size() {
    let mut small = Grid::new(2, 2);
    small.set(GridCoord::new(1, 1), CellType::Bomb);
    let snap = small.snapshot();
    let mut g = Grid::new(7, 5);
    g.restore(&snap);
    assert_eq!(g.width, 2);
    assert_eq!(g.height, 2);
    assert_eq!(g.get(GridCoord::new(1, 1)), CellType::Bomb);
}

#[test]
fn clone_keeps_cells() {
    let mut g = Grid::new(3, 3);
    g.set(GridCoord::new(2, 2), CellType::HighValue);
    let c = g.clone();
    assert_eq!(c.cells, g.cells);
}

#[test]
fn deployment_zone_membership() {
    let g = Grid::new(5, 5);
    let zone = vec![GridCoord::new(1, 1), GridCoord::new(2, 1)];
    assert!(g.is_in_deployment_zone(GridCoord::new(2, 1), &zone));
    assert!(!g.is_in_deployment_zone(GridCoord::new(1, 2), &zone));
    assert!(!g.is_in_deployment_zone(GridCoord::new(1, 1), &[]));
}

#[test]
fn cell_type_predicates() {
    assert!(red().is_normal() && !red().is_solid());
    assert!(CellType::Empty.is_empty() && !CellType::Empty.is_solid());
    assert!(CellType::Wall.is_wall() && CellType::Wall.is_solid());
    assert!(CellType::Bomb.is_bomb() && CellType::Bomb.is_solid());
    assert!(CellType::HighValue.is_high_value() && CellType::HighValue.is_solid());
    assert_eq!(CellType::default(), CellType::Empty);
    assert_eq!(Faction::default(), Faction::Red);
}
