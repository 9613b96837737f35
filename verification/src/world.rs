//! The board: a sparse grid of cells, each with the state of its four edges.

use crate::tile::{Border, Tile};
use vstd::prelude::*;

verus! {

/// The engine's hash map from grid coordinates to the tile of the cell there.
/// Verus does not look inside; what it holds goes by the name `table_cells`.
#[verifier::external_body]
pub struct CellTable {
    cells: bevy::utils::HashMap<(i32, i32), Tile>,
}

/// The cells that a table holds: each coordinate with a cell, and its tile.
pub uninterp spec fn table_cells(table: CellTable) -> Map<(i32, i32), Tile>;

/// Calls `HashMap::default` of hashbrown, as bevy exports it. The new table
/// holds no cell.
#[verifier::external_body]
fn table_new() -> (table: CellTable)
    ensures
        table_cells(table) == no_cells(),
{
    CellTable { cells: bevy::utils::HashMap::default() }
}

/// Calls `HashMap::insert`. Afterwards the coordinate holds `tile` and every
/// other cell is as before; the result is the tile that the coordinate held, if
/// it held one.
#[verifier::external_body]
fn table_insert(table: &mut CellTable, x: i32, y: i32, tile: Tile) -> (prior: Option<Tile>)
    ensures
        table_cells(*final(table)) == table_cells(*old(table)).insert((x, y), tile),
        prior == cell_of(table_cells(*old(table)), x as int, y as int),
{
    table.cells.insert((x, y), tile)
}

/// Calls `HashMap::remove`. Afterwards the coordinate holds no cell and every
/// other cell is as before; the result is the tile that the coordinate held, if
/// it held one.
#[verifier::external_body]
fn table_remove(table: &mut CellTable, x: i32, y: i32) -> (prior: Option<Tile>)
    ensures
        table_cells(*final(table)) == table_cells(*old(table)).remove((x, y)),
        prior == cell_of(table_cells(*old(table)), x as int, y as int),
{
    table.cells.remove(&(x, y))
}

/// Calls `HashMap::get`. The result is the tile of the cell at the coordinate,
/// or `None` where there is no cell.
#[verifier::external_body]
fn table_get(table: &CellTable, x: i32, y: i32) -> (found: Option<&Tile>)
    ensures
        found == match cell_of(table_cells(*table), x as int, y as int) {
            Some(tile) => Some(&tile),
            None => None,
        },
{
    table.cells.get(&(x, y))
}

/// Calls `HashMap::contains_key`. The result says whether the coordinate has a cell.
#[verifier::external_body]
fn table_contains(table: &CellTable, x: i32, y: i32) -> (found: bool)
    ensures
        found == table_cells(*table).contains_key((x, y)),
{
    table.cells.contains_key(&(x, y))
}

/// Calls `HashMap::keys` and copies what it yields. The result holds each
/// coordinate with a cell once; in which order is left open.
#[verifier::external_body]
fn table_keys(table: &CellTable) -> (keys: Vec<(i32, i32)>)
    ensures
        keys@.no_duplicates(),
        keys@.to_set() == table_cells(*table).dom(),
{
    table.cells.keys().copied().collect()
}

/// The board without any cell.
pub open spec fn no_cells() -> Map<(i32, i32), Tile> {
    Map::empty()
}

/// Whether both numbers are coordinates that a cell can have.
pub open spec fn on_grid(x: int, y: int) -> bool {
    i32::MIN <= x <= i32::MAX && i32::MIN <= y <= i32::MAX
}

/// Whether there is a cell at `(x, y)`.
pub open spec fn has_cell(cells: Map<(i32, i32), Tile>, x: int, y: int) -> bool {
    on_grid(x, y) && cells.contains_key((x as i32, y as i32))
}

/// The tile of the cell at `(x, y)`, if there is a cell.
pub open spec fn cell_of(cells: Map<(i32, i32), Tile>, x: int, y: int) -> Option<Tile> {
    if has_cell(cells, x, y) {
        Some(cells[(x as i32, y as i32)])
    } else {
        None
    }
}

/// The edge that a cell gets towards `(x, y)` when the borders are drawn:
/// undecided where a cell lies there, `Empty` where the board ends.
pub open spec fn border_towards(cells: Map<(i32, i32), Tile>, x: int, y: int) -> Border {
    if has_cell(cells, x, y) {
        Border::Any
    } else {
        Border::Empty
    }
}

/// The tile of the free cell at `(x, y)` whose edges towards missing
/// neighbours are `Empty`. The top neighbour is the one at `y + 1`.
pub open spec fn bordered_tile(cells: Map<(i32, i32), Tile>, x: int, y: int) -> Tile {
    Tile {
        placed: false,
        top: border_towards(cells, x, y + 1),
        right: border_towards(cells, x + 1, y),
        bottom: border_towards(cells, x, y - 1),
        left: border_towards(cells, x - 1, y),
    }
}

/// The board with the same cells, each reset to its bordered tile.
pub open spec fn bordered(cells: Map<(i32, i32), Tile>) -> Map<(i32, i32), Tile> {
    Map::new(
        |k: (i32, i32)| cells.contains_key(k),
        |k: (i32, i32)| bordered_tile(cells, k.0 as int, k.1 as int),
    )
}

/// A request to lay a tile on the cell at `(x, y)`. A silent one opens no
/// neighbour for placement and may name a coordinate without a cell.
#[derive(Clone, Copy, Debug, PartialEq, Eq, Structural)]
pub struct PlaceTile {
    pub x: i32,
    pub y: i32,
    pub tile: Tile,
    pub silent: bool,
}

impl PlaceTile {
    /// The request to lay `tile` at `(x, y)` and to open the neighbours.
    pub fn new(x: i32, y: i32, tile: Tile) -> (event: PlaceTile)
        ensures
            event == (PlaceTile { x, y, tile, silent: false }),
    {
        PlaceTile { x, y, tile, silent: false }
    }

    /// The silent request to lay `tile` at `(x, y)`.
    pub fn new_slient(x: i32, y: i32, tile: Tile) -> (event: PlaceTile)
        ensures
            event == (PlaceTile { x, y, tile, silent: true }),
    {
        PlaceTile { x, y, tile, silent: true }
    }

    /// A silent request that lays nothing unless the board reaches the top
    /// row of the grid: it asks for the blank tile at `(0, i32::MAX)`.
    pub fn dummy() -> (event: PlaceTile)
        ensures
            event == (PlaceTile { x: 0, y: i32::MAX, tile: Tile::blank(), silent: true }),
    {
        PlaceTile { x: 0, y: i32::MAX, tile: Tile::default(), silent: true }
    }
}

/// Whether `(dx, dy)` leads from a cell to one of its four neighbours.
pub open spec fn is_step(dx: int, dy: int) -> bool {
    (dx == 1 && dy == 0) || (dx == -1 && dy == 0) || (dx == 0 && dy == 1) || (dx == 0 && dy == -1)
}

/// The edge of `tile` that looks in the direction `(dx, dy)`: right for
/// `(1, 0)`, left for `(-1, 0)`, top for `(0, 1)`, bottom for `(0, -1)`.
pub open spec fn edge_towards(tile: Tile, dx: int, dy: int) -> Border {
    if dx == 1 {
        tile.right
    } else if dx == -1 {
        tile.left
    } else if dy == 1 {
        tile.top
    } else {
        tile.bottom
    }
}

/// The cell `(dx, dy)` away from a tile that was laid, with the edge that
/// looks back at that tile overwritten by `edge`.
pub open spec fn facing(cell: Tile, dx: int, dy: int, edge: Border) -> Tile {
    if dx == 1 {
        Tile { placed: cell.placed, top: cell.top, right: cell.right, bottom: cell.bottom, left: edge }
    } else if dx == -1 {
        Tile { placed: cell.placed, top: cell.top, right: edge, bottom: cell.bottom, left: cell.left }
    } else if dy == 1 {
        Tile { placed: cell.placed, top: cell.top, right: cell.right, bottom: edge, left: cell.left }
    } else {
        Tile { placed: cell.placed, top: edge, right: cell.right, bottom: cell.bottom, left: cell.left }
    }
}

/// What becomes of a cell that lies `(dx, dy)` from a tile that was laid: a
/// neighbour takes over the edge that the tile shows it, every other cell
/// stays as it is.
pub open spec fn cell_beside(cell: Tile, dx: int, dy: int, laid: Tile) -> Tile {
    if is_step(dx, dy) {
        facing(cell, dx, dy, edge_towards(laid, dx, dy))
    } else {
        cell
    }
}

/// Whether a request may be carried out: its tile fits the cell it names,
/// or it is silent and names no cell.
pub open spec fn may_place(cells: Map<(i32, i32), Tile>, event: PlaceTile) -> bool {
    if cells.contains_key((event.x, event.y)) {
        event.tile.fits(cells[(event.x, event.y)])
    } else {
        event.silent
    }
}

/// The board after the tile of the request was stored in its cell and marked
/// as placed; the same board where the request names no cell.
pub open spec fn laid(cells: Map<(i32, i32), Tile>, event: PlaceTile) -> Map<(i32, i32), Tile> {
    if cells.contains_key((event.x, event.y)) {
        cells.insert(
            (event.x, event.y),
            Tile {
                placed: true,
                top: event.tile.top,
                right: event.tile.right,
                bottom: event.tile.bottom,
                left: event.tile.left,
            },
        )
    } else {
        cells
    }
}

/// The board after the four neighbours of the request's cell took over the
/// edges that its tile shows them; the same board where the request names no
/// cell.
pub open spec fn propagated(cells: Map<(i32, i32), Tile>, event: PlaceTile) -> Map<
    (i32, i32),
    Tile,
> {
    if cells.contains_key((event.x, event.y)) {
        Map::new(
            |k: (i32, i32)| cells.contains_key(k),
            |k: (i32, i32)| cell_beside(cells[k], k.0 - event.x, k.1 - event.y, event.tile),
        )
    } else {
        cells
    }
}

/// The neighbour `(dx, dy)` from the request's cell, if the request opens it
/// for placement: the request is not silent, its tile shows the neighbour a
/// road, and the neighbour is a free cell.
pub open spec fn opened_towards(
    cells: Map<(i32, i32), Tile>,
    event: PlaceTile,
    dx: int,
    dy: int,
) -> Seq<(i32, i32)> {
    let x = event.x + dx;
    let y = event.y + dy;
    if !event.silent && edge_towards(event.tile, dx, dy) == Border::Road && has_cell(cells, x, y)
        && !cells[(x as i32, y as i32)].placed {
        seq![(x as i32, y as i32)]
    } else {
        Seq::empty()
    }
}

/// The neighbours that the request opens for placement: right, left, top,
/// bottom, in this order; none where the request names no cell.
pub open spec fn opened(cells: Map<(i32, i32), Tile>, event: PlaceTile) -> Seq<(i32, i32)> {
    if cells.contains_key((event.x, event.y)) {
        opened_towards(cells, event, 1, 0) + opened_towards(cells, event, -1, 0) + opened_towards(
            cells,
            event,
            0,
            1,
        ) + opened_towards(cells, event, 0, -1)
    } else {
        Seq::empty()
    }
}

/// Whether the cell at `(x, y)` waits for a tile: it is free and a road
/// leads up to one of its edges.
pub open spec fn is_open(cells: Map<(i32, i32), Tile>, x: int, y: int) -> bool {
    has_cell(cells, x, y) && !cells[(x as i32, y as i32)].placed && cells[(
        x as i32,
        y as i32,
    )].carries_road()
}

/// The board after the neighbour `(dx, dy)` from the request's cell, if there
/// is one, took over the edge that the request's tile shows it.
pub open spec fn shown_towards(
    cells: Map<(i32, i32), Tile>,
    event: PlaceTile,
    dx: int,
    dy: int,
) -> Map<(i32, i32), Tile> {
    let x = event.x + dx;
    let y = event.y + dy;
    if has_cell(cells, x, y) {
        cells.insert(
            (x as i32, y as i32),
            facing(cells[(x as i32, y as i32)], dx, dy, edge_towards(event.tile, dx, dy)),
        )
    } else {
        cells
    }
}

/// The cells of a level, by their coordinates.
pub struct WorldMap {
    map: CellTable,
}

impl View for WorldMap {
    type V = Map<(i32, i32), Tile>;

    closed spec fn view(&self) -> Map<(i32, i32), Tile> {
        table_cells(self.map)
    }
}

impl Default for WorldMap {
    /// The board without any cell.
    fn default() -> (wm: WorldMap)
        ensures
            wm@ == no_cells(),
    {
        WorldMap { map: table_new() }
    }
}

impl WorldMap {
    /// Puts a fresh cell at `(x, y)`, all edges undecided. A cell that was there
    /// is destroyed; its tile is the result.
    pub fn create_tile(&mut self, x: i32, y: i32) -> (destroyed: Option<Tile>)
        ensures
            final(self)@ == old(self)@.insert((x, y), Tile::blank()),
            destroyed == cell_of(old(self)@, x as int, y as int),
    {
        table_insert(&mut self.map, x, y, Tile::default())
    }

    /// Takes the cell at `(x, y)` off the board and says whether there was one.
    pub fn remove_tile(&mut self, x: i32, y: i32) -> (existed: bool)
        ensures
            final(self)@ == old(self)@.remove((x, y)),
            existed == old(self)@.contains_key((x, y)),
    {
        table_remove(&mut self.map, x, y).is_some()
    }

    /// The tile of the cell at `(x, y)`, if there is a cell.
    pub fn get_tile(&self, x: i32, y: i32) -> (found: Option<Tile>)
        ensures
            found == cell_of(self@, x as int, y as int),
    {
        match table_get(&self.map, x, y) {
            Some(tile) => Some(*tile),
            None => None,
        }
    }

    /// The coordinates of all cells, each once, in no order that could be
    /// relied on.
    pub fn coordinates(&self) -> (keys: Vec<(i32, i32)>)
        ensures
            keys@.no_duplicates(),
            keys@.to_set() == self@.dom(),
    {
        table_keys(&self.map)
    }

    /// The tile of the cell that lies `(dx, dy)` from `(x, y)`, if there is a
    /// cell; past the end of the grid there is none.
    pub fn neighbour(&self, x: i32, y: i32, dx: i32, dy: i32) -> (found: Option<Tile>)
        ensures
            found == cell_of(self@, x + dx, y + dy),
    {
        match (x.checked_add(dx), y.checked_add(dy)) {
            (Some(nx), Some(ny)) => self.get_tile(nx, ny),
            _ => None,
        }
    }

    /// Whether the cell at `(x, y)` waits for a tile: it is free and a road
    /// leads up to one of its edges.
    pub fn is_open(&self, x: i32, y: i32) -> (open: bool)
        ensures
            open == is_open(self@, x as int, y as int),
    {
        match self.get_tile(x, y) {
            Some(tile) => !tile.placed && tile.has_road(),
            None => false,
        }
    }

    /// Lets the neighbour `(dx, dy)` from the request's cell take over the edge
    /// that the tile shows it, and notes the neighbour in `open` if that opens
    /// it for placement.
    fn show_towards(&mut self, event: &PlaceTile, dx: i32, dy: i32, open: &mut Vec<(i32, i32)>)
        requires
            is_step(dx as int, dy as int),
        ensures
            final(self)@ == shown_towards(old(self)@, *event, dx as int, dy as int),
            final(open)@ == old(open)@ + opened_towards(old(self)@, *event, dx as int, dy as int),
    {
        let edge = if dx == 1 {
            event.tile.right
        } else if dx == -1 {
            event.tile.left
        } else if dy == 1 {
            event.tile.top
        } else {
            event.tile.bottom
        };
        match self.neighbour(event.x, event.y, dx, dy) {
            Some(cell) => {
                let x = event.x + dx;
                let y = event.y + dy;
                let mut cell = cell;
                if dx == 1 {
                    cell.left = edge;
                } else if dx == -1 {
                    cell.right = edge;
                } else if dy == 1 {
                    cell.bottom = edge;
                } else {
                    cell.top = edge;
                }
                table_insert(&mut self.map, x, y, cell);
                if !event.silent && !cell.placed && edge == Border::Road {
                    open.push((x, y));
                    assert(open@ == old(open)@ + seq![(x, y)]);
                } else {
                    assert(open@ == old(open)@ + Seq::<(i32, i32)>::empty());
                }
            },
            None => {
                assert(open@ == old(open)@ + Seq::<(i32, i32)>::empty());
            },
        }
    }

    /// The tile that the cell at `(x, y)` gets when the borders are drawn.
    fn border_tile(&self, x: i32, y: i32) -> (tile: Tile)
        ensures
            tile == bordered_tile(self@, x as int, y as int),
    {
        let top = if self.neighbour(x, y, 0, 1).is_none() {
            Border::Empty
        } else {
            Border::Any
        };
        let right = if self.neighbour(x, y, 1, 0).is_none() {
            Border::Empty
        } else {
            Border::Any
        };
        let bottom = if self.neighbour(x, y, 0, -1).is_none() {
            Border::Empty
        } else {
            Border::Any
        };
        let left = if self.neighbour(x, y, -1, 0).is_none() {
            Border::Empty
        } else {
            Border::Any
        };
        Tile { placed: false, top, right, bottom, left }
    }

    /// Resets every cell to a free one whose edges are `Empty` towards missing
    /// neighbours and undecided towards the others.
    pub fn apply_borders(&mut self)
        ensures
            final(self)@ == bordered(old(self)@),
    {
        let keys = self.coordinates();
        let ghost before = self@;
        let ghost mut done = Set::<(i32, i32)>::empty();
        let mut i: usize = 0;
        while i < keys.len()
            invariant
                i <= keys.len(),
                keys@.to_set() == before.dom(),
                self@.dom() == before.dom(),
                forall|j: int| 0 <= j < i ==> done.contains(#[trigger] keys@[j]),
                forall|k: (i32, i32)| #[trigger]
                    done.contains(k) ==> self@[k] == bordered_tile(before, k.0 as int, k.1 as int),
            decreases keys.len() - i,
        {
            let (x, y) = keys[i];
            let tile = self.border_tile(x, y);
            proof {
                assert(keys@.to_set().contains(keys@[i as int]));
                same_cells_same_borders(self@, before, x as int, y as int);
                done = done.insert((x, y));
            }
            table_insert(&mut self.map, x, y, tile);
            assert(self@.dom() =~= before.dom());
            i += 1;
        }
        proof {
            every_cell_bordered(keys@, done, self@, before);
        }
    }
}

/// Once each listed coordinate has its bordered tile, and the list names every
/// cell, the whole board is the bordered one.
proof fn every_cell_bordered(
    keys: Seq<(i32, i32)>,
    done: Set<(i32, i32)>,
    now: Map<(i32, i32), Tile>,
    before: Map<(i32, i32), Tile>,
)
    requires
        keys.to_set() == before.dom(),
        now.dom() == before.dom(),
        forall|j: int| 0 <= j < keys.len() ==> done.contains(#[trigger] keys[j]),
        forall|k: (i32, i32)| #[trigger]
            done.contains(k) ==> now[k] == bordered_tile(before, k.0 as int, k.1 as int),
    ensures
        now == bordered(before),
{
    assert forall|k: (i32, i32)| before.contains_key(k) implies now[k] == bordered_tile(
        before,
        k.0 as int,
        k.1 as int,
    ) by {
        assert(keys.to_set().contains(k));
        assert(keys.contains(k));
        let j = choose|j: int| 0 <= j < keys.len() && keys[j] == k;
        assert(done.contains(keys[j]));
    }
    assert(now =~= bordered(before));
}

/// Stores the tile of the request in the cell that the request names and marks
/// the cell as placed. A silent request that names no cell changes nothing.
pub fn place_tile(wm: &mut WorldMap, event: &PlaceTile)
    requires
        may_place(old(wm)@, *event),
    ensures
        final(wm)@ == laid(old(wm)@, *event),
{
    if wm.get_tile(event.x, event.y).is_some() {
        let mut tile = event.tile;
        tile.placed = true;
        table_insert(&mut wm.map, event.x, event.y, tile);
    }
}

/// Lets the four neighbours of the request's cell take over the edges that the
/// request's tile shows them, whatever they held before, and returns the
/// neighbours that this opens for placement. The cell of the request itself
/// is open no longer. A silent request that names no cell changes nothing.
pub fn handle_open_tiles(wm: &mut WorldMap, event: &PlaceTile) -> (open: Vec<(i32, i32)>)
    requires
        old(wm)@.contains_key((event.x, event.y)) || event.silent,
    ensures
        final(wm)@ == propagated(old(wm)@, *event),
        open@ == opened(old(wm)@, *event),
{
    let mut open: Vec<(i32, i32)> = Vec::new();
    if wm.get_tile(event.x, event.y).is_none() {
        return open;
    }
    let ghost c0 = wm@;
    wm.show_towards(event, 1, 0, &mut open);
    let ghost c1 = wm@;
    wm.show_towards(event, -1, 0, &mut open);
    let ghost c2 = wm@;
    wm.show_towards(event, 0, 1, &mut open);
    let ghost c3 = wm@;
    wm.show_towards(event, 0, -1, &mut open);
    proof {
        four_steps_propagate(c0, *event);
        assert(open@ =~= opened(c0, *event));
    }
    open
}

/// What one step does to each cell: the neighbour in that direction takes over
/// the edge, every other cell stays as it is.
proof fn one_step_by_cell(cells: Map<(i32, i32), Tile>, event: PlaceTile, dx: int, dy: int)
    requires
        is_step(dx, dy),
    ensures
        shown_towards(cells, event, dx, dy).dom() == cells.dom(),
        forall|k: (i32, i32)|
            cells.contains_key(k) ==> #[trigger] shown_towards(cells, event, dx, dy)[k] == (if k.0
                - event.x == dx && k.1 - event.y == dy {
                facing(cells[k], dx, dy, edge_towards(event.tile, dx, dy))
            } else {
                cells[k]
            }),
{
    assert(shown_towards(cells, event, dx, dy).dom() =~= cells.dom());
}

/// The four steps, one neighbour after the other, give the board that
/// `propagated` describes cell by cell, and none of them changes which
/// neighbours the later ones open.
proof fn four_steps_propagate(c0: Map<(i32, i32), Tile>, event: PlaceTile)
    requires
        c0.contains_key((event.x, event.y)),
    ensures
        ({
            let c1 = shown_towards(c0, event, 1, 0);
            let c2 = shown_towards(c1, event, -1, 0);
            let c3 = shown_towards(c2, event, 0, 1);
            let c4 = shown_towards(c3, event, 0, -1);
            &&& c4 == propagated(c0, event)
            &&& opened_towards(c1, event, -1, 0) == opened_towards(c0, event, -1, 0)
            &&& opened_towards(c2, event, 0, 1) == opened_towards(c0, event, 0, 1)
            &&& opened_towards(c3, event, 0, -1) == opened_towards(c0, event, 0, -1)
        }),
{
    let c1 = shown_towards(c0, event, 1, 0);
    let c2 = shown_towards(c1, event, -1, 0);
    let c3 = shown_towards(c2, event, 0, 1);
    let c4 = shown_towards(c3, event, 0, -1);
    one_step_by_cell(c0, event, 1, 0);
    one_step_by_cell(c1, event, -1, 0);
    one_step_by_cell(c2, event, 0, 1);
    one_step_by_cell(c3, event, 0, -1);
    assert forall|k: (i32, i32)| c0.contains_key(k) implies c4[k] == propagated(c0, event)[k] by {
        assert(c1.contains_key(k) && c2.contains_key(k) && c3.contains_key(k));
        let a = c1[k];
        let b = c2[k];
        let c = c3[k];
        let d = c4[k];
    }
    assert(c4 =~= propagated(c0, event));
}

impl WorldMap {
    /// Lays the tile of the request: stores it in its cell, then lets the
    /// neighbours take over its edges. Returns the neighbours that this opens
    /// for placement.
    pub fn place(&mut self, event: &PlaceTile) -> (open: Vec<(i32, i32)>)
        requires
            may_place(old(self)@, *event),
        ensures
            final(self)@ == propagated(laid(old(self)@, *event), *event),
            open@ == opened(old(self)@, *event),
    {
        place_tile(self, event);
        let open = handle_open_tiles(self, event);
        proof {
            assert(opened(laid(old(self)@, *event), *event) =~= opened(old(self)@, *event));
        }
        open
    }

    /// Whether the request may be carried out on this board.
    pub fn may_place(&self, event: &PlaceTile) -> (allowed: bool)
        ensures
            allowed == may_place(self@, *event),
    {
        match self.get_tile(event.x, event.y) {
            Some(cell) => event.tile.placeable(&cell),
            None => event.silent,
        }
    }

    /// Lays the tile of the request where that is allowed, and returns the
    /// neighbours that this opens for placement. Where it is not allowed, the
    /// board stays as it is and the result is `None`.
    pub fn try_place(&mut self, event: &PlaceTile) -> (open: Option<Vec<(i32, i32)>>)
        ensures
            open.is_some() == may_place(old(self)@, *event),
            open.is_some() ==> final(self)@ == propagated(laid(old(self)@, *event), *event)
                && open.unwrap()@ == opened(old(self)@, *event),
            open.is_none() ==> final(self)@ == old(self)@,
    {
        if self.may_place(event) {
            Some(self.place(event))
        } else {
            None
        }
    }
}

/// Laying a tile shows each neighbour the tile's edge: afterwards the right
/// neighbour's left edge is the tile's right edge, and so on round the cell,
/// whatever the neighbours held before.
pub proof fn neighbours_take_edges(cells: Map<(i32, i32), Tile>, event: PlaceTile)
    requires
        cells.contains_key((event.x, event.y)),
    ensures
        has_cell(cells, event.x + 1, event.y as int) ==> propagated(cells, event)[(
            (event.x + 1) as i32,
            event.y,
        )].left == event.tile.right,
        has_cell(cells, event.x - 1, event.y as int) ==> propagated(cells, event)[(
            (event.x - 1) as i32,
            event.y,
        )].right == event.tile.left,
        has_cell(cells, event.x as int, event.y + 1) ==> propagated(cells, event)[(
            event.x,
            (event.y + 1) as i32,
        )].bottom == event.tile.top,
        has_cell(cells, event.x as int, event.y - 1) ==> propagated(cells, event)[(
            event.x,
            (event.y - 1) as i32,
        )].top == event.tile.bottom,
{
}

/// Laying a tile neither adds nor removes a cell, and changes `placed` of no
/// cell but the one that takes the tile.
pub proof fn placing_keeps_cells(cells: Map<(i32, i32), Tile>, event: PlaceTile)
    ensures
        propagated(laid(cells, event), event).dom() == cells.dom(),
        forall|k: (i32, i32)|
            cells.contains_key(k) && k != (event.x, event.y) ==> #[trigger] propagated(
                laid(cells, event),
                event,
            )[k].placed == cells[k].placed,
        cells.contains_key((event.x, event.y)) ==> propagated(laid(cells, event), event)[(
            event.x,
            event.y,
        )].placed,
{
    assert(propagated(laid(cells, event), event).dom() =~= cells.dom());
}

/// Every neighbour that a request opens for placement waits for a tile on
/// the board that the request leaves behind.
pub proof fn opened_cells_are_open(cells: Map<(i32, i32), Tile>, event: PlaceTile, i: int)
    requires
        0 <= i < opened(cells, event).len(),
    ensures
        is_open(
            propagated(cells, event),
            opened(cells, event)[i].0 as int,
            opened(cells, event)[i].1 as int,
        ),
{
    let k = opened(cells, event)[i];
    let a = opened_towards(cells, event, 1, 0);
    let b = opened_towards(cells, event, -1, 0);
    let c = opened_towards(cells, event, 0, 1);
    let d = opened_towards(cells, event, 0, -1);
    assert(opened(cells, event) == a + b + c + d);
    if i < a.len() {
        assert(k == a[i]);
    } else if i < a.len() + b.len() {
        assert(k == b[i - a.len()]);
    } else if i < a.len() + b.len() + c.len() {
        assert(k == c[i - a.len() - b.len()]);
    } else {
        assert(k == d[i - a.len() - b.len() - c.len()]);
    }
}

/// Putting a fresh cell where one was just put changes nothing.
pub proof fn creating_twice_is_creating_once(cells: Map<(i32, i32), Tile>, x: i32, y: i32)
    ensures
        cells.insert((x, y), Tile::blank()).insert((x, y), Tile::blank()) == cells.insert(
            (x, y),
            Tile::blank(),
        ),
{
    assert(cells.insert((x, y), Tile::blank()).insert((x, y), Tile::blank()) =~= cells.insert(
        (x, y),
        Tile::blank(),
    ));
}

/// Boards with cells at the same coordinates give each cell the same borders.
pub proof fn same_cells_same_borders(
    a: Map<(i32, i32), Tile>,
    b: Map<(i32, i32), Tile>,
    x: int,
    y: int,
)
    requires
        a.dom() == b.dom(),
    ensures
        bordered_tile(a, x, y) == bordered_tile(b, x, y),
{
}

/// Drawing the borders a second time changes nothing.
pub proof fn borders_settle(cells: Map<(i32, i32), Tile>)
    ensures
        bordered(bordered(cells)) == bordered(cells),
{
    assert(bordered(cells).dom() =~= cells.dom());
    assert forall|k: (i32, i32)| cells.contains_key(k) implies bordered(bordered(cells))[k]
        == bordered(cells)[k] by {
        same_cells_same_borders(bordered(cells), cells, k.0 as int, k.1 as int);
    }
    assert(bordered(bordered(cells)) =~= bordered(cells));
}

} // verus!
