//! The drawings of the tiles: which drawing shows a tile, and how far it has
//! to be turned for that.

use crate::tile::Tile;
use vstd::prelude::*;

verus! {

/// The engine's hash map from the key of a tile to the number of its drawing.
/// Verus does not look inside; what it holds goes by the name `table_slots`.
#[verifier::external_body]
pub struct TextureTable {
    slots: bevy::utils::HashMap<u32, usize>,
}

/// The drawings that a table holds: each key that has one, and its number.
pub uninterp spec fn table_slots(table: TextureTable) -> Map<u32, usize>;

/// Calls `HashMap::default` of hashbrown, as bevy exports it. The new table
/// holds no drawing.
#[verifier::external_body]
fn slots_new() -> (table: TextureTable)
    ensures
        table_slots(table) == no_textures(),
{
    TextureTable { slots: bevy::utils::HashMap::default() }
}

/// Calls `HashMap::insert`. Afterwards the key leads to `slot` and every
/// other key to what it led to before; the result is the number that the key
/// led to, if it led to one.
#[verifier::external_body]
fn slots_insert(table: &mut TextureTable, key: u32, slot: usize) -> (prior: Option<usize>)
    ensures
        table_slots(*final(table)) == table_slots(*old(table)).insert(key, slot),
        prior == slot_of(table_slots(*old(table)), key),
{
    table.slots.insert(key, slot)
}

/// Calls `HashMap::get`. The result is the number that the key leads to, or
/// `None` where it leads to none.
#[verifier::external_body]
fn slots_get(table: &TextureTable, key: u32) -> (found: Option<&usize>)
    ensures
        found == match slot_of(table_slots(*table), key) {
            Some(slot) => Some(&slot),
            None => None,
        },
{
    table.slots.get(&key)
}

/// The table without any drawing.
pub open spec fn no_textures() -> Map<u32, usize> {
    Map::empty()
}

/// The number of the drawing that is filed under `key`, if there is one.
pub open spec fn slot_of(slots: Map<u32, usize>, key: u32) -> Option<usize> {
    if slots.contains_key(key) {
        Some(slots[key])
    } else {
        None
    }
}

/// The number of the drawing filed for `tile` after `turns` quarter turns,
/// if there is one.
pub open spec fn slot_after(slots: Map<u32, usize>, tile: Tile, turns: nat) -> Option<usize> {
    slot_of(slots, tile.turned_by(turns).key() as u32)
}

/// The drawing that shows `tile`, and the number of quarter turns after
/// which the tile looks like it: the fewest turns, out of none to three, that
/// lead to a drawing. `None` where no turn does.
pub open spec fn texture_of(slots: Map<u32, usize>, tile: Tile) -> Option<(usize, u8)> {
    if slot_after(slots, tile, 0) is Some {
        Some((slot_after(slots, tile, 0)->0, 0u8))
    } else if slot_after(slots, tile, 1) is Some {
        Some((slot_after(slots, tile, 1)->0, 1u8))
    } else if slot_after(slots, tile, 2) is Some {
        Some((slot_after(slots, tile, 2)->0, 2u8))
    } else if slot_after(slots, tile, 3) is Some {
        Some((slot_after(slots, tile, 3)->0, 3u8))
    } else {
        None
    }
}

/// The table after the five drawings were filed, one after the other, under
/// the numbers 0 to 4.
pub open spec fn with_drawings(slots: Map<u32, usize>) -> Map<u32, usize> {
    slots.insert(Tile::from_pattern("t"@).key() as u32, 0).insert(
        Tile::from_pattern("tr"@).key() as u32,
        1,
    ).insert(Tile::from_pattern("tb"@).key() as u32, 2).insert(
        Tile::from_pattern("trb"@).key() as u32,
        3,
    ).insert(Tile::from_pattern("trbl"@).key() as u32, 4)
}

/// The drawings of the tiles, filed under the keys of the tiles they show.
pub struct TileServer {
    table: TextureTable,
}

impl View for TileServer {
    type V = Map<u32, usize>;

    closed spec fn view(&self) -> Map<u32, usize> {
        table_slots(self.table)
    }
}

impl Default for TileServer {
    /// The server without any drawing.
    fn default() -> (server: TileServer)
        ensures
            server@ == no_textures(),
    {
        TileServer { table: slots_new() }
    }
}

impl TileServer {
    /// Files the drawing with the number `slot` under the key of `tile`.
    pub fn insert(&mut self, tile: &Tile, slot: usize)
        ensures
            final(self)@ == old(self)@.insert(tile.key() as u32, slot),
    {
        slots_insert(&mut self.table, u32::from(tile), slot);
    }

    /// The number of the drawing filed for `tile` as it lies.
    fn lookup(&self, tile: Tile) -> (found: Option<usize>)
        ensures
            found == slot_of(self@, tile.key() as u32),
    {
        match slots_get(&self.table, u32::from(tile)) {
            Some(slot) => Some(*slot),
            None => None,
        }
    }

    /// The drawing that shows `tile`, and the number of quarter turns after
    /// which the tile looks like it.
    pub fn find_texture(&self, tile: &Tile) -> (found: Option<(usize, u8)>)
        ensures
            found == texture_of(self@, *tile),
    {
        proof {
            reveal_with_fuel(Tile::turned_by, 4);
        }
        if let Some(slot) = self.lookup(*tile) {
            return Some((slot, 0));
        }
        if let Some(slot) = self.lookup(tile.rotate90()) {
            return Some((slot, 1));
        }
        if let Some(slot) = self.lookup(tile.rotate180()) {
            return Some((slot, 2));
        }
        if let Some(slot) = self.lookup(tile.rotate270()) {
            return Some((slot, 3));
        }
        None
    }

    /// Files the five drawings under the numbers 0 to 4 and returns the names
    /// of their files in that order.
    pub fn load_assets(&mut self) -> (files: Vec<&'static str>)
        ensures
            final(self)@ == with_drawings(old(self)@),
            files@.len() == 5,
            files@[0]@ == "tile_t.png"@,
            files@[1]@ == "tile_tr.png"@,
            files@[2]@ == "tile_tb.png"@,
            files@[3]@ == "tile_trb.png"@,
            files@[4]@ == "tile_trbl.png"@,
    {
        self.insert(&Tile::create("t"), 0);
        self.insert(&Tile::create("tr"), 1);
        self.insert(&Tile::create("tb"), 2);
        self.insert(&Tile::create("trb"), 3);
        self.insert(&Tile::create("trbl"), 4);
        let mut files: Vec<&'static str> = Vec::new();
        files.push("tile_t.png");
        files.push("tile_tr.png");
        files.push("tile_tb.png");
        files.push("tile_trb.png");
        files.push("tile_trbl.png");
        files
    }
}

} // verus!
