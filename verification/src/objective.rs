//! The objective: every start and end cell must touch a placed neighbour
//! across one of its road edges.

use crate::tile::{Border, Tile};
use crate::world::{has_cell, PlaceTile, WorldMap};
use vstd::prelude::*;

verus! {

/// The news that the level is won.
#[derive(Clone, Copy, Debug, PartialEq, Eq, Structural)]
pub struct Victory;

/// A cell that the road network has to reach: a start or an end.
#[derive(Clone, Copy, Debug, PartialEq, Eq, Structural)]
pub struct ObjectiveTile {
    pub x: i32,
    pub y: i32,
}

/// Whether a cell lies at `(x, y)` and has a tile on it.
pub open spec fn placed_at(cells: Map<(i32, i32), Tile>, x: int, y: int) -> bool {
    has_cell(cells, x, y) && cells[(x as i32, y as i32)].placed
}

/// Whether the cell at `(x, y)` is there and, across one of its road
/// edges, touches a neighbour with a tile on it.
pub open spec fn is_reached(cells: Map<(i32, i32), Tile>, x: int, y: int) -> bool {
    has_cell(cells, x, y) && {
        let tile = cells[(x as i32, y as i32)];
        ||| tile.top == Border::Road && placed_at(cells, x, y + 1)
        ||| tile.bottom == Border::Road && placed_at(cells, x, y - 1)
        ||| tile.right == Border::Road && placed_at(cells, x + 1, y)
        ||| tile.left == Border::Road && placed_at(cells, x - 1, y)
    }
}

/// Whether there is an objective and every objective is reached.
pub open spec fn all_reached(cells: Map<(i32, i32), Tile>, objectives: Seq<ObjectiveTile>) -> bool {
    objectives.len() > 0 && forall|i: int|
        0 <= i < objectives.len() ==> is_reached(
            cells,
            (#[trigger] objectives[i]).x as int,
            objectives[i].y as int,
        )
}

/// Where the marker of an objective sits within its cell, by the tile's
/// roads: one step away from each road edge, the steps added up. The first
/// number counts to the right, the second upwards.
pub open spec fn marker_offset(tile: Tile) -> (int, int) {
    (
        (if tile.left == Border::Road { 1int } else { 0int }) - (if tile.right == Border::Road { 1int } else { 0int }),
        (if tile.bottom == Border::Road { 1int } else { 0int }) - (if tile.top == Border::Road { 1int } else { 0int }),
    )
}

/// Whether the cell at `(x, y)` plus `(dx, dy)` has a tile on it.
fn neighbour_placed(wm: &WorldMap, x: i32, y: i32, dx: i32, dy: i32) -> (placed: bool)
    ensures
        placed == placed_at(wm@, x + dx, y + dy),
{
    match wm.neighbour(x, y, dx, dy) {
        Some(tile) => tile.placed,
        None => false,
    }
}

/// Whether the objective is reached on this board.
pub fn is_connected(wm: &WorldMap, objective: &ObjectiveTile) -> (reached: bool)
    ensures
        reached == is_reached(wm@, objective.x as int, objective.y as int),
{
    match wm.get_tile(objective.x, objective.y) {
        Some(tile) => {
            let top = tile.top == Border::Road && neighbour_placed(
                wm,
                objective.x,
                objective.y,
                0,
                1,
            );
            let bottom = tile.bottom == Border::Road && neighbour_placed(
                wm,
                objective.x,
                objective.y,
                0,
                -1,
            );
            let right = tile.right == Border::Road && neighbour_placed(
                wm,
                objective.x,
                objective.y,
                1,
                0,
            );
            let left = tile.left == Border::Road && neighbour_placed(
                wm,
                objective.x,
                objective.y,
                -1,
                0,
            );
            top || bottom || right || left
        },
        None => false,
    }
}

/// Looks at the board after the placements of one turn. Victory is reported,
/// once, if there was a placement, there is an objective, and every
/// objective is reached.
pub fn check_victory(
    events: &Vec<PlaceTile>,
    wm: &WorldMap,
    objectives: &Vec<ObjectiveTile>,
) -> (victory: Option<Victory>)
    ensures
        victory.is_some() == (events@.len() > 0 && all_reached(wm@, objectives@)),
{
    if events.len() == 0 || objectives.len() == 0 {
        return None;
    }
    let mut i: usize = 0;
    while i < objectives.len()
        invariant
            i <= objectives.len(),
            forall|j: int|
                0 <= j < i ==> is_reached(
                    wm@,
                    (#[trigger] objectives@[j]).x as int,
                    objectives@[j].y as int,
                ),
        decreases objectives.len() - i,
    {
        if !is_connected(wm, &objectives[i]) {
            return None;
        }
        i += 1;
    }
    Some(Victory)
}

/// The marker's place within the cell, as `marker_offset` gives it.
fn offset_of(tile: &Tile) -> (offset: (i32, i32))
    ensures
        offset.0 == marker_offset(*tile).0,
        offset.1 == marker_offset(*tile).1,
{
    let mut dx: i32 = 0;
    let mut dy: i32 = 0;
    if tile.top == Border::Road {
        dy = dy - 1;
    }
    if tile.right == Border::Road {
        dx = dx - 1;
    }
    if tile.bottom == Border::Road {
        dy = dy + 1;
    }
    if tile.left == Border::Road {
        dx = dx + 1;
    }
    (dx, dy)
}

/// Sets up a start at `(x, y)`: the objective, where its marker sits within
/// the cell, and the request that lays its tile and opens the neighbours.
pub fn setup_start_tile(x: i32, y: i32, tile: Tile) -> (start: (ObjectiveTile, (i32, i32), PlaceTile))
    ensures
        start.0 == (ObjectiveTile { x, y }),
        start.1.0 == marker_offset(tile).0,
        start.1.1 == marker_offset(tile).1,
        start.2 == (PlaceTile { x, y, tile, silent: false }),
{
    (ObjectiveTile { x, y }, offset_of(&tile), PlaceTile::new(x, y, tile))
}

/// Sets up an end at `(x, y)`: the objective, where its marker sits within
/// the cell, and the silent request that lays its tile.
pub fn setup_end_tile(x: i32, y: i32, tile: Tile) -> (end: (ObjectiveTile, (i32, i32), PlaceTile))
    ensures
        end.0 == (ObjectiveTile { x, y }),
        end.1.0 == marker_offset(tile).0,
        end.1.1 == marker_offset(tile).1,
        end.2 == (PlaceTile { x, y, tile, silent: true }),
{
    (ObjectiveTile { x, y }, offset_of(&tile), PlaceTile::new_slient(x, y, tile))
}

} // verus!
