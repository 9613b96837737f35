use tilers_trucking::tile::{Border, Tile};
use tilers_trucking::world::{handle_open_tiles, place_tile, PlaceTile, WorldMap};

fn row_of_three() -> WorldMap {
    let mut wm = WorldMap::default();
    wm.create_tile(0, 0);
    wm.create_tile(1, 0);
    wm.create_tile(2, 0);
    wm
}

fn cell(wm: &WorldMap, x: i32, y: i32) -> Tile {
    wm.get_tile(x, y).unwrap()
}

fn snapshot(wm: &WorldMap) -> Vec<((i32, i32), Tile)> {
    let mut cells: Vec<((i32, i32), Tile)> =
        wm.coordinates().into_iter().map(|(x, y)| ((x, y), cell(wm, x, y))).collect();
    cells.sort_by_key(|(k, _)| *k);
    cells
}

#[test]
fn new_board_has_no_cell() {
    let wm = WorldMap::default();
    assert_eq!(wm.get_tile(0, 0), None);
    assert!(wm.coordinates().is_empty());
}

#[test]
fn create_tile_makes_a_blank_cell() {
    let mut wm = WorldMap::default();
    assert_eq!(wm.create_tile(3, -4), None);
    assert_eq!(wm.get_tile(3, -4), Some(Tile::default()));
    assert_eq!(wm.get_tile(-4, 3), None);
    assert_eq!(wm.coordinates(), vec![(3, -4)]);
}

#[test]
fn create_tile_replaces_the_cell_that_was_there() {
    let mut wm = row_of_three();
    wm.apply_borders();
    let before = cell(&wm, 0, 0);
    assert_ne!(before, Tile::default());
    assert_eq!(wm.create_tile(0, 0), Some(before));
    assert_eq!(wm.get_tile(0, 0), Some(Tile::default()));
    assert_eq!(wm.coordinates().len(), 3);
}

#[test]
fn remove_tile_says_whether_there_was_a_cell() {
    let mut wm = row_of_three();
    assert!(wm.remove_tile(1, 0));
    assert!(!wm.remove_tile(1, 0));
    assert!(!wm.remove_tile(7, 7));
    assert_eq!(wm.get_tile(1, 0), None);
    assert_eq!(wm.get_tile(0, 0), Some(Tile::default()));
    assert_eq!(wm.coordinates().len(), 2);
}

#[test]
fn coordinates_lists_each_cell_once() {
    let mut wm = row_of_three();
    wm.create_tile(1, 0);
    let mut keys = wm.coordinates();
    keys.sort();
    assert_eq!(keys, vec![(0, 0), (1, 0), (2, 0)]);
}

#[test]
fn neighbour_looks_one_step_away() {
    let mut wm = row_of_three();
    wm.apply_borders();
    assert_eq!(wm.neighbour(0, 0, 1, 0), wm.get_tile(1, 0));
    assert_eq!(wm.neighbour(0, 0, -1, 0), None);
    assert_eq!(wm.neighbour(0, 0, 0, 1), None);
    assert_eq!(wm.neighbour(1, -1, 0, 1), wm.get_tile(1, 0));
    assert_eq!(wm.neighbour(0, 0, 0, 0), wm.get_tile(0, 0));
}

#[test]
fn neighbour_stops_at_the_end_of_the_grid() {
    let mut wm = WorldMap::default();
    wm.create_tile(i32::MAX, i32::MAX);
    wm.create_tile(i32::MIN, i32::MIN);
    assert_eq!(wm.neighbour(i32::MAX, i32::MAX, 1, 0), None);
    assert_eq!(wm.neighbour(i32::MAX, i32::MAX, 0, 1), None);
    assert_eq!(wm.neighbour(i32::MIN, i32::MIN, -1, 0), None);
    assert_eq!(wm.neighbour(i32::MIN, i32::MIN, 0, -1), None);
    wm.apply_borders();
    assert_eq!(cell(&wm, i32::MAX, i32::MAX), Tile::empty());
    assert_eq!(cell(&wm, i32::MIN, i32::MIN), Tile::empty());
}

#[test]
fn borders_of_a_row_of_three() {
    let mut wm = row_of_three();
    wm.apply_borders();
    assert_eq!(cell(&wm, 0, 0).left, Border::Empty);
    assert_eq!(cell(&wm, 2, 0).right, Border::Empty);
    for x in 0..3 {
        assert_eq!(cell(&wm, x, 0).top, Border::Empty);
        assert_eq!(cell(&wm, x, 0).bottom, Border::Empty);
        assert!(!cell(&wm, x, 0).placed);
    }
    assert_eq!(cell(&wm, 0, 0).right, Border::Any);
    assert_eq!(cell(&wm, 1, 0).left, Border::Any);
    assert_eq!(cell(&wm, 1, 0).right, Border::Any);
    assert_eq!(cell(&wm, 2, 0).left, Border::Any);
}

#[test]
fn top_is_the_neighbour_above() {
    let mut wm = WorldMap::default();
    wm.create_tile(0, 0);
    wm.create_tile(0, 1);
    wm.apply_borders();
    assert_eq!(cell(&wm, 0, 0).top, Border::Any);
    assert_eq!(cell(&wm, 0, 0).bottom, Border::Empty);
    assert_eq!(cell(&wm, 0, 1).top, Border::Empty);
    assert_eq!(cell(&wm, 0, 1).bottom, Border::Any);
}

#[test]
fn lone_cell_is_closed_all_round() {
    let mut wm = WorldMap::default();
    wm.create_tile(5, 5);
    wm.apply_borders();
    assert_eq!(cell(&wm, 5, 5), Tile::empty());
}

#[test]
fn applying_borders_twice_is_applying_them_once() {
    let mut wm = WorldMap::default();
    for (x, y) in [(0, 0), (1, 0), (2, 0), (1, 1), (4, 4), (-1, 0), (1, -1)] {
        wm.create_tile(x, y);
    }
    wm.apply_borders();
    let once = snapshot(&wm);
    wm.apply_borders();
    assert_eq!(snapshot(&wm), once);
    assert_eq!(once.len(), 7);
}

#[test]
fn applying_borders_resets_the_cells() {
    let mut wm = row_of_three();
    wm.apply_borders();
    let fresh = snapshot(&wm);
    wm.place(&PlaceTile::new(1, 0, Tile::create("lr")));
    assert_ne!(snapshot(&wm), fresh);
    wm.apply_borders();
    assert_eq!(snapshot(&wm), fresh);
}

#[test]
fn placing_shows_the_neighbours_the_roads() {
    let mut wm = row_of_three();
    wm.apply_borders();
    let event = PlaceTile::new(1, 0, Tile::create("lr"));
    assert!(event.tile.placeable(&cell(&wm, 1, 0)));
    place_tile(&mut wm, &event);
    let open = handle_open_tiles(&mut wm, &event);
    assert_eq!(cell(&wm, 0, 0).right, Border::Road);
    assert_eq!(cell(&wm, 2, 0).left, Border::Road);
    assert_eq!(open, vec![(2, 0), (0, 0)]);
    let mut laid = Tile::create("lr");
    laid.placed = true;
    assert_eq!(cell(&wm, 1, 0), laid);
    assert!(!Tile::create("l").placeable(&cell(&wm, 0, 0)));
    assert!(!Tile::create("tb").placeable(&cell(&wm, 0, 0)));
    assert!(Tile::create("r").placeable(&cell(&wm, 0, 0)));
    assert!(!Tile::create("lr").placeable(&cell(&wm, 0, 0)));
    assert!(!Tile::create("r").placeable(&cell(&wm, 1, 0)));
}

#[test]
fn place_stores_and_propagates_in_one_call() {
    let mut stepwise = row_of_three();
    stepwise.apply_borders();
    let mut at_once = row_of_three();
    at_once.apply_borders();
    let event = PlaceTile::new(1, 0, Tile::create("lr"));
    place_tile(&mut stepwise, &event);
    let open = handle_open_tiles(&mut stepwise, &event);
    assert_eq!(at_once.place(&event), open);
    assert_eq!(snapshot(&at_once), snapshot(&stepwise));
}

#[test]
fn placing_overwrites_what_the_neighbour_held() {
    let mut wm = WorldMap::default();
    for (x, y) in [(0, 0), (1, 0), (-1, 0), (0, 1), (0, -1)] {
        wm.create_tile(x, y);
    }
    wm.apply_borders();
    wm.place(&PlaceTile::new(1, 0, Tile::create("l")));
    assert_eq!(cell(&wm, 0, 0).right, Border::Road);
    let open = wm.place(&PlaceTile::new(0, 0, Tile::create("tr")));
    assert_eq!(cell(&wm, 1, 0).left, Border::Road);
    assert_eq!(cell(&wm, -1, 0).right, Border::Empty);
    assert_eq!(cell(&wm, 0, 1).bottom, Border::Road);
    assert_eq!(cell(&wm, 0, -1).top, Border::Empty);
    assert_eq!(open, vec![(0, 1)]);
    assert!(cell(&wm, 1, 0).placed);
    assert!(!cell(&wm, 0, 1).placed);
}

#[test]
fn propagation_alone_stores_nothing() {
    let mut wm = row_of_three();
    wm.apply_borders();
    let before = cell(&wm, 1, 0);
    let open = handle_open_tiles(&mut wm, &PlaceTile::new(1, 0, Tile::create("r")));
    assert_eq!(cell(&wm, 1, 0), before);
    assert_eq!(cell(&wm, 2, 0).left, Border::Road);
    assert_eq!(cell(&wm, 0, 0).right, Border::Empty);
    assert_eq!(open, vec![(2, 0)]);
}

#[test]
fn silent_placing_opens_nothing() {
    let mut wm = row_of_three();
    wm.apply_borders();
    let open = wm.place(&PlaceTile::new_slient(1, 0, Tile::create("lr")));
    assert!(open.is_empty());
    assert_eq!(cell(&wm, 0, 0).right, Border::Road);
    assert_eq!(cell(&wm, 2, 0).left, Border::Road);
    assert!(cell(&wm, 1, 0).placed);
}

#[test]
fn silent_request_without_a_cell_changes_nothing() {
    let mut wm = row_of_three();
    wm.apply_borders();
    let before = snapshot(&wm);
    assert!(wm.place(&PlaceTile::new_slient(1, 1, Tile::create("b"))).is_empty());
    assert!(wm.place(&PlaceTile::dummy()).is_empty());
    assert_eq!(snapshot(&wm), before);
}

#[test]
fn place_tile_requests() {
    let tile = Tile::create("tr");
    let loud = PlaceTile::new(3, -2, tile);
    assert_eq!((loud.x, loud.y, loud.tile, loud.silent), (3, -2, tile, false));
    let silent = PlaceTile::new_slient(3, -2, tile);
    assert_eq!((silent.x, silent.y, silent.tile, silent.silent), (3, -2, tile, true));
    let dummy = PlaceTile::dummy();
    assert_eq!((dummy.x, dummy.y, dummy.tile, dummy.silent), (0, i32::MAX, Tile::default(), true));
}

#[test]
fn open_cells_are_free_cells_with_a_road() {
    let mut wm = row_of_three();
    wm.apply_borders();
    assert!(!wm.is_open(0, 0));
    let open = wm.place(&PlaceTile::new(1, 0, Tile::create("lr")));
    for (x, y) in open {
        assert!(wm.is_open(x, y));
    }
    assert!(!wm.is_open(1, 0));
    assert!(!wm.is_open(5, 5));
    wm.place(&PlaceTile::new(0, 0, Tile::create("r")));
    assert!(!wm.is_open(0, 0));
}

#[test]
fn may_place_asks_the_cell() {
    let mut wm = row_of_three();
    wm.apply_borders();
    assert!(wm.may_place(&PlaceTile::new(1, 0, Tile::create("lr"))));
    assert!(!wm.may_place(&PlaceTile::new(1, 0, Tile::create("tb"))));
    assert!(!wm.may_place(&PlaceTile::new(0, 0, Tile::create("lr"))));
    assert!(!wm.may_place(&PlaceTile::new(1, 1, Tile::create("lr"))));
    assert!(wm.may_place(&PlaceTile::new_slient(1, 1, Tile::create("lr"))));
    assert!(!wm.may_place(&PlaceTile::new_slient(1, 0, Tile::create("tb"))));
}

#[test]
fn try_place_refuses_what_may_not_be_placed() {
    let mut wm = row_of_three();
    wm.apply_borders();
    let before = snapshot(&wm);
    assert_eq!(wm.try_place(&PlaceTile::new(1, 0, Tile::create("tb"))), None);
    assert_eq!(wm.try_place(&PlaceTile::new(1, 1, Tile::create("lr"))), None);
    assert_eq!(snapshot(&wm), before);
    let open = wm.try_place(&PlaceTile::new(1, 0, Tile::create("lr")));
    assert_eq!(open, Some(vec![(2, 0), (0, 0)]));
    assert_eq!(wm.try_place(&PlaceTile::new(1, 0, Tile::create("lr"))), None);
    assert_eq!(wm.try_place(&PlaceTile::dummy()), Some(Vec::new()));
}
