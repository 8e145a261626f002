use siege_of_life::gol::bomb::process_bombs;
use siege_of_life::gol::engine::{all_high_values_destroyed, check_high_value_destruction, evolution_step};
use siege_of_life::gol::revival::determine_revival_faction;
use siege_of_life::grid::{CellType, Direction, Faction, Grid, GridCoord};
use siege_of_life::patterns::glider_red;

fn red() -> CellType {
    CellType::Normal(Faction::Red)
}

fn blue() -> CellType {
    CellType::Normal(Faction::Blue)
}

fn put(g: &mut Grid, cells: &[(usize, usize)], c: CellType) {
    for (x, y) in cells {
        g.set(GridCoord::new(*x, *y), c);
    }
}

fn living(g: &Grid) -> Vec<(usize, usize)> {
    let mut out = Vec::new();
    for x in 0..g.width {
        for y in 0..g.height {
            if g.cells[x][y].is_normal() {
                out.push((x, y));
            }
        }
    }
    out
}

#[test]
fn revival_goes_to_the_majority() {
    assert_eq!(determine_revival_faction(3, 0), Faction::Red);
    assert_eq!(determine_revival_faction(2, 1), Faction::Red);
    assert_eq!(determine_revival_faction(1, 2), Faction::Blue);
    assert_eq!(determine_revival_faction(0, 3), Faction::Blue);
    // A tie goes to blue.
    assert_eq!(determine_revival_faction(1, 1), Faction::Blue);
}

#[test]
fn block_is_a_still_life() {
    let mut g = Grid::new(6, 6);
    put(&mut g, &[(2, 2), (3, 2), (2, 3), (3, 3)], red());
    let before = g.cells.clone();
    let r = evolution_step(&mut g);
    assert_eq!(g.cells, before);
    assert!(r.changed.is_empty());
    assert!(r.bomb_result.triggered_bombs.is_empty());
    assert!(r.clash_positions.is_empty());
}

#[test]
fn blinker_oscillates_with_period_two() {
    let mut g = Grid::new(5, 5);
    put(&mut g, &[(2, 1), (2, 2), (2, 3)], blue());
    let start = g.cells.clone();
    let r = evolution_step(&mut g);
    assert_eq!(living(&g), vec![(1, 2), (2, 2), (3, 2)]);
    assert_eq!(g.get(GridCoord::new(1, 2)), blue());
    // Changed cells, column by column.
    assert_eq!(
        r.changed,
        vec![
            GridCoord::new(1, 2),
            GridCoord::new(2, 1),
            GridCoord::new(2, 3),
            GridCoord::new(3, 2)
        ]
    );
    evolution_step(&mut g);
    assert_eq!(g.cells, start);
}

#[test]
fn glider_travels_one_cell_diagonally_in_four_steps() {
    let mut g = Grid::new(20, 20);
    let cells = glider_red(GridCoord::new(5, 5), Direction::Right);
    for (c, t) in &cells {
        g.set(*c, *t);
    }
    let mut expected: Vec<(usize, usize)> = cells.iter().map(|(c, _)| (c.x + 1, c.y + 1)).collect();
    expected.sort();
    for _ in 0..4 {
        evolution_step(&mut g);
    }
    assert_eq!(living(&g), expected);
    assert!(living(&g).iter().all(|(x, y)| g.cells[*x][*y] == red()));
}

#[test]
fn birth_takes_the_majority_faction() {
    let mut g = Grid::new(6, 6);
    put(&mut g, &[(1, 1), (3, 1)], red());
    put(&mut g, &[(2, 3)], blue());
    evolution_step(&mut g);
    assert_eq!(g.get(GridCoord::new(2, 2)), red());
}

#[test]
fn solid_cells_keep_their_place() {
    let mut g = Grid::new(6, 6);
    put(&mut g, &[(0, 0), (5, 5)], CellType::Wall);
    put(&mut g, &[(2, 2)], CellType::HighValue);
    put(&mut g, &[(4, 1)], CellType::Bomb);
    let before = g.cells.clone();
    let r = evolution_step(&mut g);
    assert_eq!(g.cells, before);
    assert!(r.changed.is_empty());
    assert!(r.bomb_result.affected_cells.is_empty());
}

#[test]
fn bombs_go_off_in_a_chain() {
    let mut g = Grid::new(20, 20);
    // A block touching the bomb at (5, 5).
    put(&mut g, &[(3, 4), (4, 4), (3, 5), (4, 5)], red());
    put(&mut g, &[(5, 5), (9, 5), (18, 18)], CellType::Bomb);
    let r = process_bombs(&mut g);
    let mut triggered = r.triggered_bombs.clone();
    triggered.sort_by_key(|c| (c.x, c.y));
    assert_eq!(triggered, vec![GridCoord::new(5, 5), GridCoord::new(9, 5)]);
    // Blasts cover columns 0..=14 and rows 0..=10.
    assert_eq!(r.affected_cells.len(), 15 * 11);
    for x in 0..20 {
        for y in 0..20 {
            let hit = x <= 14 && y <= 10;
            assert_eq!(r.affected_cells.contains(&GridCoord::new(x, y)), hit);
            if hit {
                assert_eq!(g.cells[x][y], CellType::Empty);
            }
        }
    }
    assert_eq!(g.get(GridCoord::new(18, 18)), CellType::Bomb);
}

#[test]
fn bombs_settle_after_one_round() {
    let mut g = Grid::new(20, 20);
    put(&mut g, &[(3, 4), (4, 4), (3, 5), (4, 5)], red());
    put(&mut g, &[(5, 5), (9, 5), (18, 18)], CellType::Bomb);
    put(&mut g, &[(17, 17), (17, 16), (16, 17)], blue());
    let first = process_bombs(&mut g);
    assert!(!first.triggered_bombs.is_empty());
    let after = g.cells.clone();
    let second = process_bombs(&mut g);
    assert!(second.triggered_bombs.is_empty());
    assert!(second.affected_cells.is_empty());
    assert_eq!(g.cells, after);
}

#[test]
fn untouched_bombs_stay() {
    let mut g = Grid::new(10, 10);
    put(&mut g, &[(5, 5)], CellType::Bomb);
    put(&mut g, &[(1, 1), (2, 1), (1, 2), (2, 2)], blue());
    let before = g.cells.clone();
    let r = process_bombs(&mut g);
    assert!(r.triggered_bombs.is_empty());
    assert!(r.affected_cells.is_empty());
    assert_eq!(g.cells, before);
}

#[test]
fn evolution_sets_off_a_touched_bomb() {
    let mut g = Grid::new(20, 20);
    put(&mut g, &[(3, 4), (4, 4), (3, 5), (4, 5)], red());
    put(&mut g, &[(5, 5)], CellType::Bomb);
    put(&mut g, &[(15, 15)], CellType::Wall);
    let r = evolution_step(&mut g);
    assert_eq!(r.bomb_result.triggered_bombs, vec![GridCoord::new(5, 5)]);
    assert_eq!(r.bomb_result.affected_cells.len(), 11 * 11);
    assert!(living(&g).is_empty());
    assert_eq!(g.get(GridCoord::new(15, 15)), CellType::Wall);
}

#[test]
fn red_cells_destroy_high_value_targets() {
    let mut g = Grid::new(12, 12);
    put(&mut g, &[(5, 5), (9, 9)], CellType::HighValue);
    put(&mut g, &[(4, 4)], red());
    put(&mut g, &[(8, 8)], blue());
    let destroyed = check_high_value_destruction(&mut g);
    assert_eq!(destroyed, vec![GridCoord::new(5, 5)]);
    assert_eq!(g.get(GridCoord::new(5, 5)), CellType::Empty);
    assert_eq!(g.get(GridCoord::new(9, 9)), CellType::HighValue);
    assert!(!all_high_values_destroyed(&g));
    g.set(GridCoord::new(10, 10), red());
    assert_eq!(check_high_value_destruction(&mut g), vec![GridCoord::new(9, 9)]);
    assert!(all_high_values_destroyed(&g));
}

#[test]
fn dying_cell_between_factions_is_a_clash() {
    let mut g = Grid::new(8, 8);
    // (3, 3) has one red and one blue neighbour plus... only two neighbours; make it die of
    // overcrowding with four living neighbours of both factions.
    put(&mut g, &[(3, 3)], red());
    put(&mut g, &[(2, 2), (4, 2)], red());
    put(&mut g, &[(2, 4), (4, 4)], blue());
    let r = evolution_step(&mut g);
    assert!(r.clash_positions.contains(&GridCoord::new(3, 3)));
    assert_eq!(g.get(GridCoord::new(3, 3)), CellType::Empty);
}

#[test]
fn lifeless_board_stays_still() {
    let mut g = Grid::new(7, 7);
    put(&mut g, &[(1, 1), (2, 1)], CellType::Wall);
    put(&mut g, &[(4, 4)], CellType::Bomb);
    put(&mut g, &[(6, 0)], CellType::HighValue);
    let before = g.cells.clone();
    for _ in 0..3 {
        let r = evolution_step(&mut g);
        assert!(r.changed.is_empty());
    }
    assert_eq!(g.cells, before);
}
