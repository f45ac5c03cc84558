use plateformer::grid::{GridCoords, GridLevelSelection, GridvaniaLevels, RawLevel};

#[test]
fn test_grid_coords_from_world_position() {
    // Typical case
    assert_eq!(
        GridCoords::from_world_position((1279, -1012)),
        GridCoords::new((2, 3))
    );
    assert_eq!(
        GridCoords::from_world_position((767, -115)),
        GridCoords::new((1, 0))
    );
    assert_eq!(
        GridCoords::from_world_position((168, -115)),
        GridCoords::new((0, 0))
    );

    // Negative coords
    assert_eq!(
        GridCoords::from_world_position((325, 260)),
        GridCoords::new((0, -1))
    );
    assert_eq!(
        GridCoords::from_world_position((-325, -215)),
        GridCoords::new((-1, 0))
    );
    assert_eq!(
        GridCoords::from_world_position((-1322, 426)),
        GridCoords::new((-3, -2))
    );
}

#[test]
fn cell_edges() {
    assert_eq!(GridCoords::from_world_position((0, 0)).get(), (0, 0));
    assert_eq!(GridCoords::from_world_position((511, -287)).get(), (0, 0));
    assert_eq!(GridCoords::from_world_position((512, -288)).get(), (1, 1));
    assert_eq!(GridCoords::from_world_position((-1, 1)).get(), (-1, -1));
    assert_eq!(GridCoords::from_world_position((-512, 288)).get(), (-1, -1));
    assert_eq!(GridCoords::from_world_position((-513, 289)).get(), (-2, -2));
}

#[test]
fn extreme_positions() {
    assert_eq!(
        GridCoords::from_world_position((i32::MIN, i32::MIN)).get(),
        (-4194304, 7456540)
    );
    assert_eq!(
        GridCoords::from_world_position((i32::MAX, i32::MAX)).get(),
        (4194303, -7456541)
    );
}

#[test]
fn level_position_uses_level_data_axes() {
    assert_eq!(GridCoords::from_level_position(1279, 1012).get(), (2, 3));
    assert_eq!(GridCoords::from_level_position(-1, -1).get(), (-1, -1));
}

#[test]
fn center_of_cells() {
    assert_eq!(GridCoords::new((0, 0)).center(), (256, -144));
    assert_eq!(GridCoords::new((2, 3)).center(), (1280, -1008));
    assert_eq!(GridCoords::new((-1, -2)).center(), (-256, 432));
    for (x, y) in [(0, 0), (2, 3), (-1, -2), (-5, 7)] {
        let c = GridCoords::new((x, y));
        let (cx, cy) = c.center();
        assert_eq!(
            GridCoords::from_world_position((cx as i32, cy as i32)),
            c
        );
    }
}

#[test]
fn selection_follows_player() {
    let mut selection = GridLevelSelection::new(GridCoords::new((0, 0)));
    assert!(!selection.follow_player((100, -100)));
    assert_eq!(selection.0, GridCoords::new((0, 0)));
    assert!(selection.follow_player((600, -100)));
    assert_eq!(selection.0, GridCoords::new((1, 0)));
    assert!(!selection.follow_player((700, -200)));
}

fn raw(x: i32, y: i32, iid: &str) -> RawLevel {
    RawLevel {
        world_x: x,
        world_y: y,
        iid: iid.to_string(),
    }
}

#[test]
fn levels_by_cell() {
    let levels = GridvaniaLevels::from_raw_levels(&vec![
        raw(0, 0, "a"),
        raw(512, 0, "b"),
        raw(0, 288, "c"),
        raw(-512, -288, "d"),
    ]);
    assert_eq!(
        levels.get_level_at(GridCoords::new((0, 0))),
        Some("a".to_string())
    );
    assert_eq!(
        levels.get_level_at(GridCoords::new((1, 0))),
        Some("b".to_string())
    );
    assert_eq!(
        levels.get_level_at(GridCoords::new((0, 1))),
        Some("c".to_string())
    );
    assert_eq!(
        levels.get_level_at(GridCoords::new((-1, -1))),
        Some("d".to_string())
    );
    assert_eq!(levels.get_level_at(GridCoords::new((2, 0))), None);
}

#[test]
fn later_level_wins_its_cell() {
    let levels =
        GridvaniaLevels::from_raw_levels(&vec![raw(0, 0, "first"), raw(100, 100, "second")]);
    assert_eq!(
        levels.get_level_at(GridCoords::new((0, 0))),
        Some("second".to_string())
    );
}

#[test]
fn empty_and_inserted_levels() {
    let mut levels = GridvaniaLevels::new();
    assert_eq!(levels.get_level_at(GridCoords::new((0, 0))), None);
    levels.insert(GridCoords::new((3, -4)), "x".to_string());
    levels.insert(GridCoords::new((3, -4)), "y".to_string());
    assert_eq!(
        levels.get_level_at(GridCoords::new((3, -4))),
        Some("y".to_string())
    );
    assert_eq!(levels.get_level_at(GridCoords::new((0, 0))), None);
}

use plateformer::spawn::{spawn_position, TocEntry};

fn entry(name: &str, first: Option<(i32, i32)>) -> TocEntry {
    TocEntry {
        identifier: name.to_string(),
        first_instance: first,
    }
}

#[test]
fn spawn_from_first_spawn_entry() {
    let entries = vec![
        entry("Object", Some((1, 2))),
        entry("Spawn", Some((100, 250))),
        entry("Spawn", Some((7, 7))),
    ];
    assert_eq!(spawn_position(&entries), (100, -250));
}

#[test]
fn spawn_falls_back_to_default() {
    assert_eq!(spawn_position(&vec![]), (445, -200));
    assert_eq!(
        spawn_position(&vec![entry("Droplet", Some((3, 4)))]),
        (445, -200)
    );
    let first_without_instance = vec![entry("Spawn", None), entry("Spawn", Some((9, 9)))];
    assert_eq!(spawn_position(&first_without_instance), (445, -200));
    assert_eq!(
        spawn_position(&vec![entry("Spawn", Some((0, i32::MIN)))]),
        (0, 2147483648)
    );
}
