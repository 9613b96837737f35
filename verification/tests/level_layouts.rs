use tilers_trucking::deck::Deck;
use tilers_trucking::levels::{create_from_rows, create_rect, place_tiles, setup_board, setup_deck};
use tilers_trucking::objective::ObjectiveTile;
use tilers_trucking::state::GameState;
use tilers_trucking::tile::Tile;
use tilers_trucking::world::{PlaceTile, WorldMap};

fn board_of(level: GameState) -> WorldMap {
    let mut wm = WorldMap::default();
    setup_board(level, &mut wm);
    wm
}

fn sorted_cells(wm: &WorldMap) -> Vec<(i32, i32)> {
    let mut keys = wm.coordinates();
    keys.sort();
    keys
}

fn all_levels() -> [GameState; 9] {
    [
        GameState::Level0,
        GameState::Level1,
        GameState::Level2,
        GameState::Level3,
        GameState::Level4,
        GameState::Level5,
        GameState::Level6,
        GameState::Level7,
        GameState::LevelTest,
    ]
}

#[test]
fn create_rect_leaves_the_upper_ends_out() {
    let mut wm = WorldMap::default();
    create_rect(&mut wm, -1, 2, 0, 2);
    assert_eq!(sorted_cells(&wm), vec![(-1, 0), (-1, 1), (0, 0), (0, 1), (1, 0), (1, 1)]);
    create_rect(&mut wm, 3, 3, 0, 5);
    create_rect(&mut wm, 5, 4, 0, 5);
    create_rect(&mut wm, 0, 5, 2, 1);
    assert_eq!(wm.coordinates().len(), 6);
}

#[test]
fn create_rect_replaces_cells() {
    let mut wm = WorldMap::default();
    wm.create_tile(0, 0);
    wm.create_tile(9, 9);
    wm.apply_borders();
    create_rect(&mut wm, 0, 1, 0, 1);
    assert_eq!(wm.get_tile(0, 0), Some(Tile::default()));
    assert_eq!(wm.get_tile(9, 9), Some(Tile::empty()));
}

#[test]
fn create_from_rows_reads_rows_upwards() {
    let mut wm = WorldMap::default();
    create_from_rows(&mut wm, &vec!["#. ", "..#", "#"], '#', 10, -1, false);
    assert_eq!(sorted_cells(&wm), vec![(10, 0), (11, -1), (11, 0), (12, -1)]);
}

#[test]
fn create_from_rows_reads_columns() {
    let mut wm = WorldMap::default();
    create_from_rows(&mut wm, &vec!["011", "10"], '0', 10, -1, true);
    assert_eq!(sorted_cells(&wm), vec![(10, 0), (10, 1), (11, -1)]);
}

#[test]
fn create_from_rows_stops_at_the_end_of_the_grid() {
    let mut wm = WorldMap::default();
    create_from_rows(&mut wm, &vec!["...", "..."], '#', i32::MAX - 1, i32::MAX, false);
    assert_eq!(sorted_cells(&wm), vec![(i32::MAX - 1, i32::MAX), (i32::MAX, i32::MAX)]);
}

#[test]
fn menu_has_no_board() {
    assert!(board_of(GameState::MainMenu).coordinates().is_empty());
    assert!(place_tiles(GameState::MainMenu).is_empty());
    let mut deck = Deck::default();
    setup_deck(GameState::MainMenu, &mut deck);
    assert!(deck.entries().is_empty());
    assert!(deck.tiles().is_empty());
}

#[test]
fn first_level_board() {
    let wm = board_of(GameState::Level1);
    assert_eq!(
        sorted_cells(&wm),
        vec![(-2, 0), (-1, 0), (-1, 1), (0, 0), (0, 1), (1, 0), (1, 1), (2, 1)]
    );
}

#[test]
fn board_sizes() {
    let sizes = [31, 8, 10, 29, 39, 104, 68, 454, 31];
    for (level, size) in all_levels().iter().zip(sizes.iter()) {
        assert_eq!(board_of(*level).coordinates().len(), *size);
    }
}

#[test]
fn boards_start_blank() {
    for level in all_levels() {
        let wm = board_of(level);
        for (x, y) in wm.coordinates() {
            assert_eq!(wm.get_tile(x, y), Some(Tile::default()));
        }
    }
}

#[test]
fn holes_are_cut_out() {
    let wm = board_of(GameState::LevelTest);
    assert_eq!(wm.get_tile(2, 3), None);
    assert!(wm.get_tile(2, 2).is_some());
    assert!(wm.get_tile(-4, 4).is_some());
    assert!(wm.get_tile(1, -1).is_some());
    let wm = board_of(GameState::Level5);
    for (x, y) in [(-3, 4), (-3, 7), (0, 4), (0, 7), (3, 4), (3, 7)] {
        assert_eq!(wm.get_tile(x, y), None);
    }
    assert!(wm.get_tile(-5, 0).is_some());
    assert!(wm.get_tile(5, 9).is_some());
    assert_eq!(wm.get_tile(6, 0), None);
}

#[test]
fn holes_are_cut_into_what_was_there() {
    let mut wm = WorldMap::default();
    wm.create_tile(2, 3);
    wm.create_tile(40, 40);
    setup_board(GameState::Level0, &mut wm);
    assert_eq!(wm.get_tile(2, 3), None);
    assert!(wm.get_tile(40, 40).is_some());
    assert_eq!(wm.coordinates().len(), 32);
}

#[test]
fn drawn_boards() {
    let wm = board_of(GameState::Level6);
    for (x, y) in [(5, 0), (0, 5), (10, 5), (5, 10), (0, 4), (3, 1)] {
        assert!(wm.get_tile(x, y).is_some());
    }
    for (x, y) in [(5, 5), (0, 0), (10, 10), (11, 5), (3, 0)] {
        assert_eq!(wm.get_tile(x, y), None);
    }
    let wm = board_of(GameState::Level7);
    for (x, y) in [(18, -13), (0, 0), (36, 0), (17, -13), (3, -13), (3, 4), (0, -9)] {
        assert!(wm.get_tile(x, y).is_some());
    }
    for (x, y) in [(0, -13), (0, 4), (37, 0), (18, -14), (18, 5)] {
        assert_eq!(wm.get_tile(x, y), None);
    }
}

#[test]
fn first_level_tiles() {
    let tiles = place_tiles(GameState::Level1);
    assert_eq!(tiles.len(), 2);
    assert_eq!(tiles[0].objective, Some((ObjectiveTile { x: -2, y: 0 }, (-1, 0))));
    assert_eq!(tiles[0].event, PlaceTile::new(-2, 0, Tile::create("r")));
    assert_eq!(tiles[1].objective, Some((ObjectiveTile { x: 2, y: 1 }, (1, 0))));
    assert_eq!(tiles[1].event, PlaceTile::new_slient(2, 1, Tile::create("l")));
}

#[test]
fn opening_level_has_a_tile_and_no_objective() {
    let tiles = place_tiles(GameState::Level0);
    assert_eq!(tiles.len(), 1);
    assert_eq!(tiles[0].objective, None);
    assert_eq!(tiles[0].event, PlaceTile::new(0, 0, Tile::create("lr")));
}

#[test]
fn level_tiles_start_with_the_start() {
    let counts = [2, 2, 2, 3, 3, 4, 3, 2];
    let levels = &all_levels()[1..];
    for (level, count) in levels.iter().zip(counts.iter()) {
        let tiles = place_tiles(*level);
        assert_eq!(tiles.len(), *count);
        assert!(!tiles[0].event.silent);
        for tile in &tiles[1..] {
            assert!(tile.event.silent);
        }
        for tile in &tiles {
            let (objective, _) = tile.objective.unwrap();
            assert_eq!((objective.x, objective.y), (tile.event.x, tile.event.y));
        }
    }
}

#[test]
fn level_tiles_fit_their_boards() {
    for level in all_levels() {
        let mut wm = board_of(level);
        wm.apply_borders();
        for tile in place_tiles(level) {
            let cell = wm.get_tile(tile.event.x, tile.event.y).unwrap();
            assert!(tile.event.tile.placeable(&cell));
            wm.place(&tile.event);
        }
    }
}

#[test]
fn last_level_tiles() {
    let tiles = place_tiles(GameState::Level7);
    assert_eq!(tiles[0].event, PlaceTile::new(18, -13, Tile::create("trl")));
    assert_eq!(tiles[1].event, PlaceTile::new_slient(0, 0, Tile::create("r")));
    assert_eq!(tiles[2].event, PlaceTile::new_slient(36, 0, Tile::create("l")));
    assert_eq!(tiles[0].objective.unwrap().1, (0, -1));
}

#[test]
fn first_level_deck() {
    let mut deck = Deck::default();
    setup_deck(GameState::Level1, &mut deck);
    assert_eq!(deck.entries(), vec![(10, Tile::create("tr"))]);
    let mut expected = Deck::default();
    expected.add_tile(Tile::create("tr"), 10);
    expected.fill_pile(20, 42);
    assert_eq!(deck.tiles(), expected.tiles());
    assert_eq!(deck.tiles().len(), 20);
}

#[test]
fn second_level_deck_starts_with_a_straight() {
    let mut deck = Deck::default();
    setup_deck(GameState::Level2, &mut deck);
    let tiles = deck.tiles();
    assert_eq!(tiles.len(), 21);
    assert_eq!(tiles[0], Tile::create("lr"));
    let mut first = Deck::default();
    setup_deck(GameState::Level1, &mut first);
    assert_eq!(tiles[1..], first.tiles()[..]);
}

#[test]
fn later_decks() {
    let seeds = [(GameState::Level3, 42), (GameState::Level4, 43), (GameState::Level5, 44)];
    for (level, seed) in seeds {
        let mut deck = Deck::default();
        setup_deck(level, &mut deck);
        let mut expected = Deck::default();
        expected.add_all_tiles();
        expected.fill_pile(100, seed);
        assert_eq!(deck.entries(), expected.entries());
        assert_eq!(deck.tiles(), expected.tiles());
        assert_eq!(deck.tiles().len(), 100);
    }
}

#[test]
fn last_decks_have_a_sixth_entry() {
    for (level, pattern) in [(GameState::Level6, "tr"), (GameState::Level7, "tb")] {
        let mut deck = Deck::default();
        setup_deck(level, &mut deck);
        let entries = deck.entries();
        assert_eq!(entries.len(), 6);
        assert_eq!(entries[5], (1, Tile::create(pattern)));
        assert_eq!(deck.total_weight(), 11);
        let mut expected = Deck::default();
        expected.add_all_tiles();
        expected.add_tile(Tile::create(pattern), 1);
        expected.fill_pile(100, 45);
        assert_eq!(deck.tiles(), expected.tiles());
    }
}

#[test]
fn test_level_deck() {
    for level in [GameState::Level0, GameState::LevelTest] {
        let mut deck = Deck::default();
        setup_deck(level, &mut deck);
        let tiles = deck.tiles();
        assert_eq!(tiles.len(), 101);
        assert_eq!(tiles[0], Tile::create("lr"));
        assert_eq!(deck.total_weight(), 10);
    }
}
