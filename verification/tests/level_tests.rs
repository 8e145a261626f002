use siege_of_life::grid::{CellType, Faction, Grid, GridCoord};
use siege_of_life::level::data::{
    LevelData, SaveData, default_evolution_steps, default_height, default_version, default_width,
};
use siege_of_life::level::loader::LevelRegistry;
use siege_of_life::state::config::{CurrentLevelId, DeploymentZoneData, SimulatorDeployConfig};
use siege_of_life::state::deployment::load_level_to_grid;
use siege_of_life::state::victory::save_level_progress;
use siege_of_life::ui::level_io::{
    build_level_data, commit_save, default_save_filename, ensure_json_extension, grid_to_initial_cells,
    id_from_name, id_from_path, id_from_stem, level_to_save, LevelFileDialogState,
};

fn level(id: &str, name: &str) -> LevelData {
    LevelData {
        id: id.to_string(),
        name: name.to_string(),
        version: 1,
        width: 4,
        height: 3,
        initial_cells: vec![vec![CellType::Empty; 4]; 3],
        deployment_zone: vec![GridCoord::new(0, 0)],
        max_gliders: 2,
        max_lwss: 1,
        evolution_steps: 50,
    }
}

fn registry(ids: &[&str]) -> LevelRegistry {
    let mut r = LevelRegistry::default();
    for id in ids {
        r.register(level(id, &format!("Level {}", id)));
    }
    r
}

#[test]
fn level_defaults() {
    assert_eq!(default_version(), 1);
    assert_eq!(default_width(), 60);
    assert_eq!(default_height(), 40);
    assert_eq!(default_evolution_steps(), 200);
    let s = SaveData::default();
    assert_eq!(s.version, 1);
    assert_eq!(s.unlocked_levels, vec!["level_01".to_string()]);
    assert!(s.completed_levels.is_empty());
}

#[test]
fn registry_keeps_order_and_finds_by_id() {
    let r = registry(&["a", "b", "c"]);
    assert_eq!(r.level_count(), 3);
    assert_eq!(r.ordered_ids, vec!["a".to_string(), "b".to_string(), "c".to_string()]);
    assert_eq!(r.get("b").unwrap().name, "Level b");
    assert!(r.get("z").is_none());
    assert_eq!(r.get_by_index(2).unwrap().id, "c");
    assert!(r.get_by_index(3).is_none());
}

#[test]
fn register_then_get_finds_the_latest() {
    let mut r = registry(&["a"]);
    r.register(level("a", "Second a"));
    assert_eq!(r.level_count(), 2);
    assert_eq!(r.get("a").unwrap().name, "Second a");
    assert_eq!(r.get_by_index(0).unwrap().name, "Second a");
    assert_eq!(LevelRegistry::default().level_count(), 0);
}

#[test]
fn completing_a_level_unlocks_the_next() {
    let r = registry(&["level_01", "level_02", "level_03"]);
    let mut save = SaveData::default();
    let cur = CurrentLevelId(Some("level_01".to_string()));
    assert!(save_level_progress(&cur, &mut save, &r));
    assert_eq!(save.completed_levels, vec!["level_01".to_string()]);
    assert_eq!(save.unlocked_levels, vec!["level_01".to_string(), "level_02".to_string()]);
    // Completing it again records nothing more.
    assert!(save_level_progress(&cur, &mut save, &r));
    assert_eq!(save.completed_levels, vec!["level_01".to_string()]);
    assert_eq!(save.unlocked_levels, vec!["level_01".to_string(), "level_02".to_string()]);
}

#[test]
fn completing_the_last_level_has_no_next() {
    let r = registry(&["level_01", "level_02"]);
    let mut save = SaveData::default();
    assert!(!save_level_progress(&CurrentLevelId(Some("level_02".to_string())), &mut save, &r));
    assert_eq!(save.completed_levels, vec!["level_02".to_string()]);
    assert_eq!(save.unlocked_levels, vec!["level_01".to_string()]);
    // An unknown level is recorded as completed, and unlocks nothing.
    assert!(!save_level_progress(&CurrentLevelId(Some("bonus".to_string())), &mut save, &r));
    assert_eq!(save.completed_levels, vec!["level_02".to_string(), "bonus".to_string()]);
    // Without a current level nothing happens.
    assert!(!save_level_progress(&CurrentLevelId(None), &mut save, &r));
    assert_eq!(save.completed_levels.len(), 2);
}

#[test]
fn ids_from_names() {
    assert_eq!(id_from_name("My Level 1"), "My_Level_1");
    assert_eq!(id_from_name("  spaced  out "), "spaced__out");
    assert_eq!(id_from_name("__keep-me__"), "keep-me");
    assert_eq!(id_from_name("第一关"), "custom_level");
    assert_eq!(id_from_name(""), "custom_level");
    assert_eq!(id_from_name("a.b/c"), "a_b_c");
    // Deriving an id from an id changes nothing.
    for name in ["My Level 1", "__x__", "第一关 A", "ok"] {
        let once = id_from_name(name);
        assert_eq!(id_from_name(&once), once);
    }
    // Every id is non-empty, made of id characters, and has no `_` at either end.
    for name in ["_a_", "-", "  x  y  ", "第一关 A", "", "__", "a__b"] {
        let id = id_from_name(name);
        assert!(!id.is_empty());
        assert!(id.chars().all(|c| c.is_ascii_alphanumeric() || c == '_' || c == '-'));
        assert!(!id.starts_with('_') && !id.ends_with('_'));
    }
    assert_eq!(id_from_name("-"), "-");
    assert_eq!(id_from_name("__"), "custom_level");
}

#[test]
fn ids_from_stems_and_paths() {
    assert_eq!(id_from_stem(&Some("my level".to_string())), "my_level");
    assert_eq!(id_from_stem(&None), "custom_level");
    assert_eq!(id_from_path("levels/my level.json"), "my_level");
    assert_eq!(id_from_path("/tmp/关卡.json"), "custom_level");
    assert_eq!(default_save_filename("My Level"), "My_Level.json");
    assert_eq!(default_save_filename("???"), "custom_level.json");
}

#[test]
fn json_extension_is_ensured() {
    assert_eq!(ensure_json_extension("levels/a.json"), "levels/a.json");
    assert_eq!(ensure_json_extension("levels/a"), "levels/a.json");
    assert_eq!(ensure_json_extension("levels/a.txt"), "levels/a.json");
}

#[test]
fn rows_of_a_grid() {
    let mut g = Grid::new(3, 2);
    g.set(GridCoord::new(2, 0), CellType::Wall);
    g.set(GridCoord::new(0, 1), CellType::Normal(Faction::Blue));
    let rows = grid_to_initial_cells(&g);
    assert_eq!(
        rows,
        vec![
            vec![CellType::Empty, CellType::Empty, CellType::Wall],
            vec![CellType::Normal(Faction::Blue), CellType::Empty, CellType::Empty]
        ]
    );
}

#[test]
fn save_then_load_gives_back_the_grid() {
    let mut g = Grid::new(5, 4);
    g.set(GridCoord::new(1, 3), CellType::Bomb);
    g.set(GridCoord::new(4, 0), CellType::HighValue);
    let zone = vec![GridCoord::new(0, 0), GridCoord::new(1, 0)];
    let cfg = SimulatorDeployConfig { max_gliders: 4, max_lwss: 0 };
    let data = build_level_data(&g, &zone, &cfg, "lvl", "Name");
    assert_eq!(data.id, "lvl");
    assert_eq!(data.name, "Name");
    assert_eq!(data.version, 1);
    assert_eq!((data.width, data.height), (5, 4));
    assert_eq!(data.deployment_zone, zone);
    assert_eq!((data.max_gliders, data.max_lwss, data.evolution_steps), (4, 0, 200));
    let mut loaded = Grid::new(1, 1);
    load_level_to_grid(&mut loaded, &data);
    assert_eq!(loaded.width, 5);
    assert_eq!(loaded.height, 4);
    assert_eq!(loaded.cells, g.cells);
}

#[test]
fn loading_pads_and_cuts_rows() {
    let mut data = level("x", "X");
    data.width = 3;
    data.height = 3;
    data.initial_cells = vec![
        vec![CellType::Wall, CellType::Wall, CellType::Wall, CellType::Bomb],
        vec![CellType::HighValue],
    ];
    let mut g = Grid::new(1, 1);
    load_level_to_grid(&mut g, &data);
    assert_eq!(g.get(GridCoord::new(2, 0)), CellType::Wall);
    assert_eq!(g.get(GridCoord::new(0, 1)), CellType::HighValue);
    assert_eq!(g.get(GridCoord::new(1, 1)), CellType::Empty);
    assert_eq!(g.get(GridCoord::new(0, 2)), CellType::Empty);
    assert_eq!(g.get(GridCoord::new(3, 0)), CellType::Wall); // outside reads as wall
    assert_eq!(g.cells.len(), 3);
}

#[test]
fn commit_save_needs_a_name() {
    let g = Grid::new(4, 4);
    let zone = DeploymentZoneData { zone: vec![GridCoord::new(1, 1)] };
    let cfg = SimulatorDeployConfig::default();
    let mut dialog = LevelFileDialogState::default();
    dialog.draft_name = "   ".to_string();
    dialog.draft_path = "levels/x.json".to_string();
    match commit_save(&dialog, &g, &zone, &cfg) {
        Err(m) => assert_eq!(m, "请填写关卡名称"),
        Ok(_) => panic!("a blank name must be refused"),
    }
    dialog.draft_name = "  My Level \t".to_string();
    dialog.draft_path = "levels/my file".to_string();
    let (path, data) = commit_save(&dialog, &g, &zone, &cfg).ok().unwrap();
    assert_eq!(path, "levels/my file.json");
    assert_eq!(data.name, "My Level");
    assert_eq!(data.id, "my_file");
    assert_eq!(data.deployment_zone, zone.zone);
    assert_eq!((data.max_gliders, data.max_lwss), (3, 2));
    // Unicode spaces count as blank too, and are trimmed from the name.
    dialog.draft_name = "\u{3000}\u{2003}\u{85}".to_string();
    assert!(commit_save(&dialog, &g, &zone, &cfg).is_err());
    dialog.draft_name = "\u{a0}第一关\u{3000}x\u{2029}".to_string();
    let (_, data) = commit_save(&dialog, &g, &zone, &cfg).ok().unwrap();
    assert_eq!(data.name, "第一关\u{3000}x");
}

#[test]
fn level_to_save_takes_the_id_from_the_stem_or_the_name() {
    let g = Grid::new(2, 2);
    let zone = DeploymentZoneData { zone: Vec::new() };
    let cfg = SimulatorDeployConfig::default();
    let a = level_to_save(&Some("stem 1".to_string()), "Name", &g, &zone, &cfg);
    assert_eq!(a.id, "stem_1");
    let b = level_to_save(&None, "Name 2", &g, &zone, &cfg);
    assert_eq!(b.id, "Name_2");
    assert_eq!(b.name, "Name 2");
}
