use tilers_trucking::tile::Tile;
use tilers_trucking::tile_server::TileServer;

fn loaded() -> TileServer {
    let mut server = TileServer::default();
    server.load_assets();
    server
}

#[test]
fn empty_server_finds_nothing() {
    let server = TileServer::default();
    assert_eq!(server.find_texture(&Tile::create("t")), None);
}

#[test]
fn load_assets_names_the_five_files() {
    let mut server = TileServer::default();
    let files = server.load_assets();
    assert_eq!(
        files,
        vec!["tile_t.png", "tile_tr.png", "tile_tb.png", "tile_trb.png", "tile_trbl.png"]
    );
}

#[test]
fn filed_tiles_are_found_unturned() {
    let server = loaded();
    assert_eq!(server.find_texture(&Tile::create("t")), Some((0, 0)));
    assert_eq!(server.find_texture(&Tile::create("tr")), Some((1, 0)));
    assert_eq!(server.find_texture(&Tile::create("tb")), Some((2, 0)));
    assert_eq!(server.find_texture(&Tile::create("trb")), Some((3, 0)));
    assert_eq!(server.find_texture(&Tile::create("trbl")), Some((4, 0)));
}

#[test]
fn turned_tiles_are_found_after_the_fewest_turns() {
    let server = loaded();
    assert_eq!(server.find_texture(&Tile::create("l")), Some((0, 1)));
    assert_eq!(server.find_texture(&Tile::create("b")), Some((0, 2)));
    assert_eq!(server.find_texture(&Tile::create("r")), Some((0, 3)));
    assert_eq!(server.find_texture(&Tile::create("lr")), Some((2, 1)));
    assert_eq!(server.find_texture(&Tile::create("rb")), Some((1, 3)));
    assert_eq!(server.find_texture(&Tile::create("bl")), Some((1, 2)));
    assert_eq!(server.find_texture(&Tile::create("tl")), Some((1, 1)));
    assert_eq!(server.find_texture(&Tile::create("tlb")), Some((3, 2)));
    assert_eq!(server.find_texture(&Tile::create("trl")), Some((3, 1)));
    assert_eq!(server.find_texture(&Tile::create("rbl")), Some((3, 3)));
}

#[test]
fn placed_tiles_are_found_like_free_ones() {
    let server = loaded();
    let mut tile = Tile::create("lr");
    tile.placed = true;
    assert_eq!(server.find_texture(&tile), Some((2, 1)));
}

#[test]
fn tiles_without_a_drawing_are_not_found() {
    let server = loaded();
    assert_eq!(server.find_texture(&Tile::empty()), None);
    assert_eq!(server.find_texture(&Tile::default()), None);
}

#[test]
fn insert_files_a_drawing_under_the_tile() {
    let mut server = TileServer::default();
    server.insert(&Tile::create("r"), 7);
    assert_eq!(server.find_texture(&Tile::create("r")), Some((7, 0)));
    assert_eq!(server.find_texture(&Tile::create("t")), Some((7, 1)));
    server.insert(&Tile::create("r"), 9);
    assert_eq!(server.find_texture(&Tile::create("r")), Some((9, 0)));
    server.insert(&Tile::create("t"), 3);
    assert_eq!(server.find_texture(&Tile::create("t")), Some((3, 0)));
    assert_eq!(server.find_texture(&Tile::create("l")), Some((3, 1)));
}
