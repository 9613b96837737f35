//! The levels: where each has its cells, its start and its ends, and what
//! its deck holds.

use crate::deck::{drawn_pile, standard_tiles, total_weight, weights_grow, Deck};
use crate::objective::{marker_offset, setup_end_tile, setup_start_tile, ObjectiveTile};
use crate::state::GameState;
use crate::tile::Tile;
use crate::world::{PlaceTile, WorldMap};
use vstd::prelude::*;

verus! {

/// The board on which every coordinate of `fresh` has a blank cell, and
/// every other cell is as it was.
pub open spec fn with_fresh(cells: Map<(i32, i32), Tile>, fresh: Set<(i32, i32)>) -> Map<
    (i32, i32),
    Tile,
> {
    Map::new(
        |k: (i32, i32)| fresh.contains(k) || cells.contains_key(k),
        |k: (i32, i32)|
            if fresh.contains(k) {
                Tile::blank()
            } else {
                cells[k]
            },
    )
}

/// The coordinates from `x0` up to `x1` and from `y0` up to `y1`, the upper
/// ends left out.
pub open spec fn rect(x0: int, x1: int, y0: int, y1: int) -> Set<(i32, i32)> {
    Set::new(|k: (i32, i32)| x0 <= k.0 < x1 && y0 <= k.1 < y1)
}

/// The one coordinate `(x, y)`.
pub open spec fn single(x: int, y: int) -> Set<(i32, i32)> {
    Set::new(|k: (i32, i32)| k.0 == x && k.1 == y)
}

/// Whether the drawing has a cell in row `row` at column `col`: a letter
/// stands there, and it is not the wall.
pub open spec fn is_drawn(rows: Seq<&str>, wall: char, row: int, col: int) -> bool {
    0 <= row < rows.len() && 0 <= col < rows[row]@.len() && rows[row]@[col] != wall
}

/// The coordinates of the cells of a drawing whose first letter stands for
/// `(x0, y0)`. Read by rows, a row of letters runs to the right and the rows
/// follow each other upwards; read by columns, it is the other way round.
pub open spec fn drawing(rows: Seq<&str>, wall: char, x0: int, y0: int, by_column: bool) -> Set<
    (i32, i32),
> {
    Set::new(
        |k: (i32, i32)|
            if by_column {
                is_drawn(rows, wall, k.0 - x0, k.1 - y0)
            } else {
                is_drawn(rows, wall, k.1 - y0, k.0 - x0)
            },
    )
}

/// The part of a drawing that lies before the letter in row `row` at column
/// `col`, in reading order.
spec fn drawing_before(
    rows: Seq<&str>,
    wall: char,
    x0: int,
    y0: int,
    by_column: bool,
    row: int,
    col: int,
) -> Set<(i32, i32)> {
    Set::new(
        |k: (i32, i32)|
            {
                let r = if by_column {
                    k.0 - x0
                } else {
                    k.1 - y0
                };
                let c = if by_column {
                    k.1 - y0
                } else {
                    k.0 - x0
                };
                is_drawn(rows, wall, r, c) && (r < row || (r == row && c < col))
            },
    )
}

/// Puts a fresh cell on every coordinate from `x0` up to `x1` and from `y0`
/// up to `y1`, the upper ends left out.
pub fn create_rect(wm: &mut WorldMap, x0: i32, x1: i32, y0: i32, y1: i32)
    ensures
        final(wm)@ == with_fresh(old(wm)@, rect(x0 as int, x1 as int, y0 as int, y1 as int)),
{
    let mut x = x0;
    assert(wm@ =~= with_fresh(old(wm)@, rect(x0 as int, x as int, y0 as int, y1 as int)));
    while x < x1
        invariant
            x0 <= x,
            x <= x1 || x == x0,
            wm@ == with_fresh(old(wm)@, rect(x0 as int, x as int, y0 as int, y1 as int)),
        decreases x1 - x,
    {
        let mut y = y0;
        let ghost column = wm@;
        assert(wm@ =~= with_fresh(column, rect(x as int, x + 1, y0 as int, y as int)));
        while y < y1
            invariant
                y0 <= y,
                y <= y1 || y == y0,
                x < x1,
                wm@ == with_fresh(column, rect(x as int, x + 1, y0 as int, y as int)),
            decreases y1 - y,
        {
            wm.create_tile(x, y);
            y = y + 1;
            assert(wm@ =~= with_fresh(column, rect(x as int, x + 1, y0 as int, y as int)));
        }
        x = x + 1;
        assert(wm@ =~= with_fresh(old(wm)@, rect(x0 as int, x as int, y0 as int, y1 as int)));
    }
    assert(wm@ =~= with_fresh(old(wm)@, rect(x0 as int, x1 as int, y0 as int, y1 as int)));
}

/// The coordinate `step` places after `base`, unless the grid ends before.
fn place_after(base: i32, step: usize) -> (place: Option<i32>)
    ensures
        place == if base + step <= i32::MAX {
            Some((base + step) as i32)
        } else {
            None
        },
{
    if step <= 0xFFFF_FFFF {
        let sum: i64 = base as i64 + step as i64;
        if sum <= 0x7FFF_FFFF {
            Some(sum as i32)
        } else {
            None
        }
    } else {
        None
    }
}

/// Puts a fresh cell wherever the drawing has a letter other than `wall`.
/// The first letter of the first row stands for `(x0, y0)`.
pub fn create_from_rows(
    wm: &mut WorldMap,
    rows: &Vec<&str>,
    wall: char,
    x0: i32,
    y0: i32,
    by_column: bool,
)
    ensures
        final(wm)@ == with_fresh(old(wm)@, drawing(rows@, wall, x0 as int, y0 as int, by_column)),
{
    let mut row: usize = 0;
    assert(wm@ =~= with_fresh(
        old(wm)@,
        drawing_before(rows@, wall, x0 as int, y0 as int, by_column, 0, 0),
    ));
    while row < rows.len()
        invariant
            row <= rows.len(),
            wm@ == with_fresh(
                old(wm)@,
                drawing_before(rows@, wall, x0 as int, y0 as int, by_column, row as int, 0),
            ),
        decreases rows.len() - row,
    {
        let letters = rows[row];
        let len = letters.unicode_len();
        let mut col: usize = 0;
        for letter in walk: letters.chars()
            invariant
                row < rows.len(),
                letters == rows@[row as int],
                walk.seq() == letters@,
                len == letters@.len(),
                col == walk.index(),
                wm@ == with_fresh(
                    old(wm)@,
                    drawing_before(
                        rows@,
                        wall,
                        x0 as int,
                        y0 as int,
                        by_column,
                        row as int,
                        col as int,
                    ),
                ),
        {
            let ghost before = drawing_before(
                rows@,
                wall,
                x0 as int,
                y0 as int,
                by_column,
                row as int,
                col as int,
            );
            let ghost after = drawing_before(
                rows@,
                wall,
                x0 as int,
                y0 as int,
                by_column,
                row as int,
                col + 1,
            );
            let mut grown = false;
            if letter != wall {
                let (x, y) = if by_column {
                    (place_after(x0, row), place_after(y0, col))
                } else {
                    (place_after(x0, col), place_after(y0, row))
                };
                match (x, y) {
                    (Some(x), Some(y)) => {
                        wm.create_tile(x, y);
                        grown = true;
                        assert(after =~= before.insert((x, y)));
                    },
                    _ => {},
                }
            }
            if !grown {
                assert(after =~= before);
            }
            col += 1;
            assert(wm@ =~= with_fresh(old(wm)@, after));
        }
        row += 1;
        assert(drawing_before(rows@, wall, x0 as int, y0 as int, by_column, row as int, 0)
            =~= drawing_before(
            rows@,
            wall,
            x0 as int,
            y0 as int,
            by_column,
            row - 1,
            len as int,
        ));
    }
    assert(drawing_before(rows@, wall, x0 as int, y0 as int, by_column, rows@.len() as int, 0)
        =~= drawing(rows@, wall, x0 as int, y0 as int, by_column));
}

/// The drawing of the sixth level, read by columns: `1` is a cell.
pub open spec fn ring_rows() -> Seq<&'static str> {
    seq![
        "00001110000",
        "00011111000",
        "00111111100",
        "01111011110",
        "11110001111",
        "11100000111",
        "11110001111",
        "01111011110",
        "00111111100",
        "00011111000",
        "00001110000",
    ]
}

/// The drawing of the seventh level, read by rows: everything but `#` is a
/// cell. Its first row stands for `y = -13`.
pub open spec fn halls_rows() -> Seq<&'static str> {
    seq![
        "###  #####  ##### @ #####  #####  ###",
        "##    ###    ###     ###    ###    ##",
        "#      #      #       #      #      #",
        "#      #                     #      #",
        "                                     ",
        "#      #                     #      #",
        "#      #      #       #      #      #",
        "##    ###    ###     ###    ###    ##",
        "###  #####  #####   #####  #####  ###",
        "###  #####  #####   #####  #####  ###",
        "##    ###    ###     ###    ###    ##",
        "#      #      #       #      #      #",
        "#      #      #       #      #      #",
        "_                                   _",
        "#      #      #       #      #      #",
        "#      #      #       #      #      #",
        "##    ###    ###     ###    ###    ##",
        "###  #####  #####   #####  #####  ###",
    ]
}

/// The drawing of the sixth level.
fn ring() -> (rows: Vec<&'static str>)
    ensures
        rows@ == ring_rows(),
{
    let mut rows: Vec<&'static str> = Vec::new();
    rows.push("00001110000");
    rows.push("00011111000");
    rows.push("00111111100");
    rows.push("01111011110");
    rows.push("11110001111");
    rows.push("11100000111");
    rows.push("11110001111");
    rows.push("01111011110");
    rows.push("00111111100");
    rows.push("00011111000");
    rows.push("00001110000");
    assert(rows@ =~= ring_rows());
    rows
}

/// The drawing of the seventh level.
fn halls() -> (rows: Vec<&'static str>)
    ensures
        rows@ == halls_rows(),
{
    let mut rows: Vec<&'static str> = Vec::new();
    rows.push("###  #####  ##### @ #####  #####  ###");
    rows.push("##    ###    ###     ###    ###    ##");
    rows.push("#      #      #       #      #      #");
    rows.push("#      #                     #      #");
    rows.push("                                     ");
    rows.push("#      #                     #      #");
    rows.push("#      #      #       #      #      #");
    rows.push("##    ###    ###     ###    ###    ##");
    rows.push("###  #####  #####   #####  #####  ###");
    rows.push("###  #####  #####   #####  #####  ###");
    rows.push("##    ###    ###     ###    ###    ##");
    rows.push("#      #      #       #      #      #");
    rows.push("#      #      #       #      #      #");
    rows.push("_                                   _");
    rows.push("#      #      #       #      #      #");
    rows.push("#      #      #       #      #      #");
    rows.push("##    ###    ###     ###    ###    ##");
    rows.push("###  #####  #####   #####  #####  ###");
    assert(rows@ =~= halls_rows());
    rows
}

/// The coordinates on which a level puts its cells.
pub open spec fn level_cells(level: GameState) -> Set<(i32, i32)> {
    match level {
        GameState::MainMenu => Set::empty(),
        GameState::Level0 | GameState::LevelTest => single(-1, 1) + single(-1, 0) + single(0, 0)
            + single(1, 0) + single(1, -1) + rect(-4, 5, 2, 5),
        GameState::Level1 => rect(-1, 2, 0, 2) + single(-2, 0) + single(2, 1),
        GameState::Level2 => rect(-1, 2, 0, 3) + single(2, 0),
        GameState::Level3 => rect(-3, 2, -1, 3) + rect(1, 4, -4, -1),
        GameState::Level4 => rect(-1, 8, 0, 3) + rect(2, 4, 3, 6) + rect(2, 4, -3, 0),
        GameState::Level5 => rect(-5, 6, 0, 10),
        GameState::Level6 => drawing(ring_rows(), '0', 0, 0, true),
        GameState::Level7 => drawing(halls_rows(), '#', 0, -13, false),
    }
}

/// The coordinates that a level leaves without a cell, whatever was there.
pub open spec fn level_holes(level: GameState) -> Set<(i32, i32)> {
    match level {
        GameState::Level0 | GameState::LevelTest => single(2, 3),
        GameState::Level5 => single(-3, 4) + single(-3, 7) + single(0, 4) + single(0, 7) + single(
            3,
            4,
        ) + single(3, 7),
        _ => Set::empty(),
    }
}

/// The board of a level, laid out over what was there: fresh cells on the
/// level's coordinates, none in its holes.
pub open spec fn laid_out(cells: Map<(i32, i32), Tile>, level: GameState) -> Map<(i32, i32), Tile> {
    with_fresh(cells, level_cells(level)).remove_keys(level_holes(level))
}

/// Lays out the cells of a level. The borders are drawn afterwards, by
/// `WorldMap::apply_borders`.
pub fn setup_board(level: GameState, wm: &mut WorldMap)
    ensures
        final(wm)@ == laid_out(old(wm)@, level),
{
    match level {
        GameState::MainMenu => {},
        GameState::Level0 | GameState::LevelTest => {
            wm.create_tile(-1, 1);
            wm.create_tile(-1, 0);
            wm.create_tile(0, 0);
            wm.create_tile(1, 0);
            wm.create_tile(1, -1);
            create_rect(wm, -4, 5, 2, 5);
            wm.remove_tile(2, 3);
        },
        GameState::Level1 => {
            create_rect(wm, -1, 2, 0, 2);
            wm.create_tile(-2, 0);
            wm.create_tile(2, 1);
        },
        GameState::Level2 => {
            create_rect(wm, -1, 2, 0, 3);
            wm.create_tile(2, 0);
        },
        GameState::Level3 => {
            create_rect(wm, -3, 2, -1, 3);
            create_rect(wm, 1, 4, -4, -1);
        },
        GameState::Level4 => {
            create_rect(wm, -1, 8, 0, 3);
            create_rect(wm, 2, 4, 3, 6);
            create_rect(wm, 2, 4, -3, 0);
        },
        GameState::Level5 => {
            create_rect(wm, -5, 6, 0, 10);
            wm.remove_tile(-3, 4);
            wm.remove_tile(-3, 7);
            wm.remove_tile(0, 4);
            wm.remove_tile(0, 7);
            wm.remove_tile(3, 4);
            wm.remove_tile(3, 7);
        },
        GameState::Level6 => {
            create_from_rows(wm, &ring(), '0', 0, 0, true);
        },
        GameState::Level7 => {
            create_from_rows(wm, &halls(), '#', 0, -13, false);
        },
    }
    assert(wm@ =~= laid_out(old(wm)@, level));
}

/// A tile that lies on the board when a level starts.
#[derive(Clone, Copy, Debug, PartialEq, Eq)]
pub struct LevelTile {
    /// The objective that the tile stands for, and where its marker sits
    /// within the cell; none for a tile that is no objective.
    pub objective: Option<(ObjectiveTile, (i32, i32))>,
    /// The request that lays the tile.
    pub event: PlaceTile,
}

/// The start at `(x, y)` with the roads of `pattern`: an objective, laid by
/// a request that opens the neighbours.
pub open spec fn start_at(x: int, y: int, pattern: Seq<char>) -> LevelTile {
    let tile = Tile::from_pattern(pattern);
    LevelTile {
        objective: Some(
            (
                ObjectiveTile { x: x as i32, y: y as i32 },
                (marker_offset(tile).0 as i32, marker_offset(tile).1 as i32),
            ),
        ),
        event: PlaceTile { x: x as i32, y: y as i32, tile, silent: false },
    }
}

/// The end at `(x, y)` with the roads of `pattern`: an objective, laid by a
/// silent request.
pub open spec fn end_at(x: int, y: int, pattern: Seq<char>) -> LevelTile {
    let tile = Tile::from_pattern(pattern);
    LevelTile {
        objective: Some(
            (
                ObjectiveTile { x: x as i32, y: y as i32 },
                (marker_offset(tile).0 as i32, marker_offset(tile).1 as i32),
            ),
        ),
        event: PlaceTile { x: x as i32, y: y as i32, tile, silent: true },
    }
}

/// The tile at `(x, y)` with the roads of `pattern` that is no objective,
/// laid by a request that opens the neighbours.
pub open spec fn plain_at(x: int, y: int, pattern: Seq<char>) -> LevelTile {
    LevelTile {
        objective: None,
        event: PlaceTile {
            x: x as i32,
            y: y as i32,
            tile: Tile::from_pattern(pattern),
            silent: false,
        },
    }
}

/// The tiles that lie on the board when a level starts, the start first.
pub open spec fn level_tiles(level: GameState) -> Seq<LevelTile> {
    match level {
        GameState::MainMenu => Seq::empty(),
        GameState::Level0 => seq![plain_at(0, 0, "lr"@)],
        GameState::LevelTest => seq![start_at(0, 2, "trl"@), end_at(-3, 4, "b"@)],
        GameState::Level1 => seq![start_at(-2, 0, "r"@), end_at(2, 1, "l"@)],
        GameState::Level2 => seq![start_at(-1, 0, "tr"@), end_at(2, 0, "l"@)],
        GameState::Level3 => seq![start_at(-3, 1, "trb"@), end_at(2, -3, "trl"@)],
        GameState::Level4 => seq![
            start_at(-1, 1, "trb"@),
            end_at(3, 5, "bl"@),
            end_at(3, -3, "tl"@),
        ],
        GameState::Level5 => seq![
            start_at(0, 0, "trl"@),
            end_at(3, 9, "rbl"@),
            end_at(-3, 9, "rbl"@),
        ],
        GameState::Level6 => seq![
            start_at(5, 0, "trl"@),
            end_at(0, 5, "trb"@),
            end_at(10, 5, "tlb"@),
            end_at(5, 10, "rbl"@),
        ],
        GameState::Level7 => seq![
            start_at(18, -13, "trl"@),
            end_at(0, 0, "r"@),
            end_at(36, 0, "l"@),
        ],
    }
}

/// The start of a level at `(x, y)`, with the roads of `pattern`.
fn start(x: i32, y: i32, pattern: &str) -> (tile: LevelTile)
    ensures
        tile == start_at(x as int, y as int, pattern@),
{
    let (objective, offset, event) = setup_start_tile(x, y, Tile::create(pattern));
    LevelTile { objective: Some((objective, offset)), event }
}

/// An end of a level at `(x, y)`, with the roads of `pattern`.
fn end(x: i32, y: i32, pattern: &str) -> (tile: LevelTile)
    ensures
        tile == end_at(x as int, y as int, pattern@),
{
    let (objective, offset, event) = setup_end_tile(x, y, Tile::create(pattern));
    LevelTile { objective: Some((objective, offset)), event }
}

/// The tiles that lie on the board when a level starts, in the order in
/// which they are laid.
pub fn place_tiles(level: GameState) -> (tiles: Vec<LevelTile>)
    ensures
        tiles@ == level_tiles(level),
{
    let mut tiles: Vec<LevelTile> = Vec::new();
    match level {
        GameState::MainMenu => {},
        GameState::Level0 => {
            tiles.push(
                LevelTile { objective: None, event: PlaceTile::new(0, 0, Tile::create("lr")) },
            );
        },
        GameState::LevelTest => {
            tiles.push(start(0, 2, "trl"));
            tiles.push(end(-3, 4, "b"));
        },
        GameState::Level1 => {
            tiles.push(start(-2, 0, "r"));
            tiles.push(end(2, 1, "l"));
        },
        GameState::Level2 => {
            tiles.push(start(-1, 0, "tr"));
            tiles.push(end(2, 0, "l"));
        },
        GameState::Level3 => {
            tiles.push(start(-3, 1, "trb"));
            tiles.push(end(2, -3, "trl"));
        },
        GameState::Level4 => {
            tiles.push(start(-1, 1, "trb"));
            tiles.push(end(3, 5, "bl"));
            tiles.push(end(3, -3, "tl"));
        },
        GameState::Level5 => {
            tiles.push(start(0, 0, "trl"));
            tiles.push(end(3, 9, "rbl"));
            tiles.push(end(-3, 9, "rbl"));
        },
        GameState::Level6 => {
            tiles.push(start(5, 0, "trl"));
            tiles.push(end(0, 5, "trb"));
            tiles.push(end(10, 5, "tlb"));
            tiles.push(end(5, 10, "rbl"));
        },
        GameState::Level7 => {
            tiles.push(start(18, -13, "trl"));
            tiles.push(end(0, 0, "r"));
            tiles.push(end(36, 0, "l"));
        },
    }
    assert(tiles@ =~= level_tiles(level));
    tiles
}

/// The entries that a level adds to the catalog of its deck.
pub open spec fn level_catalog(level: GameState) -> Seq<(u32, Tile)> {
    match level {
        GameState::MainMenu => Seq::empty(),
        GameState::Level1 | GameState::Level2 => seq![(10u32, Tile::from_pattern("tr"@))],
        GameState::Level6 => standard_tiles().push((1u32, Tile::from_pattern("tr"@))),
        GameState::Level7 => standard_tiles().push((1u32, Tile::from_pattern("tb"@))),
        _ => standard_tiles(),
    }
}

/// The tiles that a level puts on the pile before any is drawn.
pub open spec fn level_first_tiles(level: GameState) -> Seq<Tile> {
    match level {
        GameState::Level0 | GameState::LevelTest | GameState::Level2 => seq![
            Tile::from_pattern("lr"@),
        ],
        _ => Seq::empty(),
    }
}

/// How many tiles a level draws onto the pile when it starts.
pub open spec fn level_draws(level: GameState) -> nat {
    match level {
        GameState::MainMenu => 0,
        GameState::Level1 | GameState::Level2 => 20,
        _ => 100,
    }
}

/// The state in which the generator of a level starts.
pub open spec fn level_seed(level: GameState) -> u64 {
    match level {
        GameState::Level4 => 43,
        GameState::Level5 => 44,
        GameState::Level6 | GameState::Level7 => 45,
        _ => 42,
    }
}

/// What setting up the deck of a level does to a deck: the catalog grows by
/// the level's entries, and the pile by the level's first tiles and then by
/// the tiles drawn from the grown catalog.
pub open spec fn dealt(before: Deck, after: Deck, level: GameState) -> bool {
    &&& after.catalog() == before.catalog() + level_catalog(level)
    &&& after.pile() == before.pile() + level_first_tiles(level) + drawn_pile(
        after.catalog(),
        level_seed(level),
        level_draws(level),
    )
}

/// A catalog that holds an entry with a weight has a weight.
proof fn weighty_entry(catalog: Seq<(u32, Tile)>, i: int)
    requires
        0 <= i < catalog.len(),
        catalog[i].0 > 0,
    ensures
        total_weight(catalog) > 0,
{
    weights_grow(catalog, 0, i);
    weights_grow(catalog, i + 1, catalog.len() as int);
}

/// Sets up the deck of a level: its catalog, the tiles that lie on the pile
/// from the start, and the tiles drawn after them.
pub fn setup_deck(level: GameState, deck: &mut Deck)
    ensures
        dealt(*old(deck), *final(deck), level),
{
    let ghost before = deck.catalog();
    match level {
        GameState::MainMenu => {
            assert(deck.catalog() =~= before + level_catalog(level));
            assert(deck.pile() =~= old(deck).pile() + level_first_tiles(level) + drawn_pile(
                deck.catalog(),
                level_seed(level),
                level_draws(level),
            ));
            return ;
        },
        GameState::Level1 => {
            deck.add_tile(Tile::create("tr"), 10);
        },
        GameState::Level2 => {
            deck.add_tile(Tile::create("tr"), 10);
            deck.add_to_pile(Tile::create("lr"));
        },
        GameState::Level3 | GameState::Level4 | GameState::Level5 => {
            deck.add_all_tiles();
        },
        GameState::Level6 => {
            deck.add_all_tiles();
            deck.add_tile(Tile::create("tr"), 1);
        },
        GameState::Level7 => {
            deck.add_all_tiles();
            deck.add_tile(Tile::create("tb"), 1);
        },
        GameState::Level0 | GameState::LevelTest => {
            deck.add_all_tiles();
            deck.add_to_pile(Tile::create("lr"));
        },
    }
    proof {
        assert(deck.catalog() =~= before + level_catalog(level));
        assert(deck.pile() =~= old(deck).pile() + level_first_tiles(level));
        assert(level_catalog(level)[0].0 > 0);
        weighty_entry(deck.catalog(), before.len() as int);
    }
    let (num, seed): (usize, u64) = match level {
        GameState::Level1 | GameState::Level2 => (20, 42),
        GameState::Level4 => (100, 43),
        GameState::Level5 => (100, 44),
        GameState::Level6 | GameState::Level7 => (100, 45),
        _ => (100, 42),
    };
    deck.fill_pile(num, seed);
}

} // verus!
