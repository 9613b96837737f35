//! The deck: a weighted catalog of tiles and the pile of tiles to come.

use crate::tile::Tile;
use std::collections::VecDeque;
use vstd::prelude::*;

verus! {

/// What `Rng::u32(..)` of fastrand returns from a generator in the state
/// `seed`, and the state in which it leaves the generator.
pub uninterp spec fn rng_u32(seed: u64) -> (u32, u64);

/// What `Rng::u8(0..bound)` of fastrand returns from a generator in the state
/// `seed`, and the state in which it leaves the generator.
pub uninterp spec fn rng_u8(seed: u64, bound: u8) -> (u8, u64);

/// Calls `Rng::u32` of fastrand, over the whole range, on a generator that
/// `Rng::with_seed` put in the state `seed`; `Rng::get_seed` reads the state
/// afterwards. Both depend on `seed` alone.
#[verifier::external_body]
fn draw_u32(seed: u64) -> (drawn: (u32, u64))
    ensures
        drawn == rng_u32(seed),
{
    let rng = fastrand::Rng::with_seed(seed);
    let value = rng.u32(..);
    (value, rng.get_seed())
}

/// Calls `Rng::u8` of fastrand, for the range from 0 up to `bound` without
/// `bound`, on a generator that `Rng::with_seed` put in the state `seed`;
/// `Rng::get_seed` reads the state afterwards. The number lies in the range;
/// it and the state depend on `seed` and `bound` alone. An empty range makes
/// the call panic.
#[verifier::external_body]
fn draw_u8(seed: u64, bound: u8) -> (drawn: (u8, u64))
    requires
        bound > 0,
    ensures
        drawn == rng_u8(seed, bound),
        drawn.0 < bound,
{
    let rng = fastrand::Rng::with_seed(seed);
    let value = rng.u8(0..bound);
    (value, rng.get_seed())
}

/// Calls `Rng::new` of fastrand, which seeds a generator from the thread's
/// own, and reads its state with `Rng::get_seed`. Nothing is known of it.
#[verifier::external_body]
fn fresh_seed() -> (seed: u64) {
    fastrand::Rng::new().get_seed()
}

/// The weight of the first `n` entries of the catalog together.
pub open spec fn weight_before(catalog: Seq<(u32, Tile)>, n: int) -> int
    decreases n,
{
    if n <= 0 {
        0
    } else {
        weight_before(catalog, n - 1) + catalog[n - 1].0
    }
}

/// The weight of all entries of the catalog together.
pub open spec fn total_weight(catalog: Seq<(u32, Tile)>) -> int {
    weight_before(catalog, catalog.len() as int)
}

/// Whether the roll falls to entry `i`: the entries before it weigh no more
/// than the roll, and with entry `i` they weigh more.
pub open spec fn is_chosen(catalog: Seq<(u32, Tile)>, roll: int, i: int) -> bool {
    0 <= i < catalog.len() && weight_before(catalog, i) <= roll < weight_before(catalog, i + 1)
}

/// The entry to which the roll falls.
pub open spec fn chosen(catalog: Seq<(u32, Tile)>, roll: int) -> int {
    choose|i: int| is_chosen(catalog, roll, i)
}

/// The number of quarter turns that a number stands for: itself below four,
/// none from four on.
pub open spec fn quarter_turns(turns: u8) -> nat {
    if turns < 4 {
        turns as nat
    } else {
        0
    }
}

/// The tile that a roll and a number of turns pick from the catalog: the
/// entry to which the roll falls, turned; nothing for a roll that is not
/// below the total weight.
pub open spec fn picked(catalog: Seq<(u32, Tile)>, roll: int, turns: u8) -> Option<Tile> {
    if 0 <= roll < total_weight(catalog) {
        Some(catalog[chosen(catalog, roll)].1.turned_by(quarter_turns(turns)))
    } else {
        None
    }
}

/// The roll that a random number makes: its upper 23 bits, read as a
/// fraction of one, times the total weight, rounded down.
pub open spec fn roll_of(raw: u32, total: int) -> int {
    (raw as int / 0x200) * total / 0x80_0000
}

/// The tile that a generator in the state `seed` draws from the catalog, and
/// the state in which the draw leaves the generator: one number makes the
/// roll, the next one says how many quarter turns the tile gets.
pub open spec fn drawn(catalog: Seq<(u32, Tile)>, seed: u64) -> (Tile, u64) {
    let first = rng_u32(seed);
    let second = rng_u8(first.1, 4);
    let entry = chosen(catalog, roll_of(first.0, total_weight(catalog)));
    (catalog[entry].1.turned_by(quarter_turns(second.0)), second.1)
}

/// The tiles that `count` draws in a row give, the generator starting in the
/// state `seed`.
pub open spec fn drawn_pile(catalog: Seq<(u32, Tile)>, seed: u64, count: nat) -> Seq<Tile>
    decreases count,
{
    if count == 0 {
        Seq::empty()
    } else {
        seq![drawn(catalog, seed).0] + drawn_pile(
            catalog,
            drawn(catalog, seed).1,
            (count - 1) as nat,
        )
    }
}

/// The state of the generator after `count` draws in a row.
pub open spec fn seed_after(catalog: Seq<(u32, Tile)>, seed: u64, count: nat) -> u64
    decreases count,
{
    if count == 0 {
        seed
    } else {
        seed_after(catalog, drawn(catalog, seed).1, (count - 1) as nat)
    }
}

/// The news that the tile on top of the pile was turned, with the tile as it
/// lies now.
#[derive(Clone, Copy, Debug, PartialEq, Eq, Structural)]
pub struct TopTileRotated(pub Tile);

/// A catalog of tiles, each with its weight, and the pile of tiles to come,
/// the next one first.
pub struct Deck {
    deck: Vec<(u32, Tile)>,
    pile: VecDeque<Tile>,
}

impl Deck {
    /// The entries of the catalog in the order in which they were added.
    pub closed spec fn catalog(&self) -> Seq<(u32, Tile)> {
        self.deck@
    }

    /// The tiles of the pile, the next one first.
    pub closed spec fn pile(&self) -> Seq<Tile> {
        self.pile@
    }

    /// The entries of the catalog in the order in which they were added.
    pub fn entries(&self) -> (entries: Vec<(u32, Tile)>)
        ensures
            entries@ == self.catalog(),
    {
        let mut entries: Vec<(u32, Tile)> = Vec::new();
        let mut i: usize = 0;
        while i < self.deck.len()
            invariant
                i <= self.deck.len(),
                entries@ == self.deck@.take(i as int),
            decreases self.deck.len() - i,
        {
            entries.push(self.deck[i]);
            i += 1;
            assert(entries@ =~= self.deck@.take(i as int));
        }
        assert(self.deck@.take(self.deck@.len() as int) =~= self.deck@);
        entries
    }

    /// The tiles of the pile, the next one first.
    pub fn tiles(&self) -> (tiles: Vec<Tile>)
        ensures
            tiles@ == self.pile(),
    {
        let mut tiles: Vec<Tile> = Vec::new();
        let mut i: usize = 0;
        while i < self.pile.len()
            invariant
                i <= self.pile.len(),
                tiles@ == self.pile@.take(i as int),
            decreases self.pile.len() - i,
        {
            tiles.push(self.pile[i]);
            i += 1;
            assert(tiles@ =~= self.pile@.take(i as int));
        }
        assert(self.pile@.take(self.pile@.len() as int) =~= self.pile@);
        tiles
    }

    /// Adds a tile to the catalog. Its weight says how often it is drawn,
    /// measured against the weights of the others.
    pub fn add_tile(&mut self, tile: Tile, prob: u32)
        ensures
            final(self).catalog() == old(self).catalog().push((prob, tile)),
            final(self).pile() == old(self).pile(),
    {
        self.deck.push((prob, tile));
    }

    /// Adds the five standard tiles to the catalog: the bend and the straight
    /// with weight 3 each, the fork with 2, the crossing and the dead end with 1.
    pub fn add_all_tiles(&mut self)
        ensures
            final(self).catalog() == old(self).catalog() + standard_tiles(),
            final(self).pile() == old(self).pile(),
    {
        self.deck.push((3, Tile::create("tr")));
        self.deck.push((3, Tile::create("tb")));
        self.deck.push((2, Tile::create("trb")));
        self.deck.push((1, Tile::create("trbl")));
        self.deck.push((1, Tile::create("t")));
        assert(self.deck@ =~= old(self).deck@ + standard_tiles());
    }

    /// The weight of all entries of the catalog together.
    pub fn total_weight(&self) -> (total: u128)
        ensures
            total == total_weight(self.catalog()),
    {
        let mut total: u128 = 0;
        let mut i: usize = 0;
        while i < self.deck.len()
            invariant
                i <= self.deck.len(),
                total == weight_before(self.deck@, i as int),
                total <= i * 0xFFFF_FFFF,
            decreases self.deck.len() - i,
        {
            assert(i * 0xFFFF_FFFF + 0xFFFF_FFFF <= 0xFFFF_FFFF_FFFF_FFFF * 0x1_0000_0000)
                by (nonlinear_arith)
                requires
                    i < 0xFFFF_FFFF_FFFF_FFFF,
            ;
            total = total + self.deck[i].0 as u128;
            i += 1;
        }
        total
    }

    /// The tile that a roll and a number of turns pick from the catalog.
    pub fn pick(&self, roll: u128, turns: u8) -> (tile: Option<Tile>)
        ensures
            tile == picked(self.catalog(), roll as int, turns),
    {
        let mut rest: u128 = roll;
        let mut i: usize = 0;
        while i < self.deck.len()
            invariant
                i <= self.deck.len(),
                rest == roll - weight_before(self.deck@, i as int),
            decreases self.deck.len() - i,
        {
            let (weight, tile) = self.deck[i];
            if rest < weight as u128 {
                proof {
                    weights_grow(self.deck@, i as int + 1, self.deck@.len() as int);
                    falls_to_one_entry(self.deck@, roll as int, i as int);
                    reveal_with_fuel(Tile::turned_by, 4);
                }
                return Some(
                    match turns {
                        1 => tile.rotate90(),
                        2 => tile.rotate180(),
                        3 => tile.rotate270(),
                        _ => tile,
                    },
                );
            }
            rest = rest - weight as u128;
            i += 1;
        }
        None
    }

    /// The roll that a random number makes on this catalog: a number below
    /// the total weight, or 0 where there is no weight.
    pub fn roll(&self, raw: u32) -> (roll: u128)
        ensures
            roll == roll_of(raw, total_weight(self.catalog())),
    {
        let total = self.total_weight();
        let unit = (raw / 0x200) as u128;
        proof {
            weights_up_to(self.deck@, self.deck@.len() as int);
            let entries = self.deck.len();
            assert(entries * 0xFFFF_FFFF <= 0x1_0000_0000_0000_0000_0000_0000)
                by (nonlinear_arith)
                requires
                    entries <= 0xFFFF_FFFF_FFFF_FFFF,
            ;
            assert(unit * total <= 0x80_0000 * 0x1_0000_0000_0000_0000_0000_0000)
                by (nonlinear_arith)
                requires
                    unit <= 0x80_0000,
                    total <= 0x1_0000_0000_0000_0000_0000_0000,
            ;
        }
        unit * total / 0x80_0000
    }

    /// Draws one tile with a generator in the state `seed` and puts it at the
    /// end of the pile. Returns the state in which the draw leaves the generator.
    pub fn add_seeded_to_pile(&mut self, seed: u64) -> (next: u64)
        requires
            total_weight(old(self).catalog()) > 0,
        ensures
            final(self).catalog() == old(self).catalog(),
            final(self).pile() == old(self).pile().push(drawn(old(self).catalog(), seed).0),
            next == drawn(old(self).catalog(), seed).1,
    {
        let (raw, seed) = draw_u32(seed);
        let (turns, seed) = draw_u8(seed, 4);
        let roll = self.roll(raw);
        proof {
            roll_is_below_total(raw, total_weight(self.catalog()));
        }
        if let Some(tile) = self.pick(roll, turns) {
            self.pile.push_back(tile);
        }
        seed
    }

    /// Puts `num` tiles at the end of the pile, drawn one after the other
    /// with a generator that starts in the state `seed`.
    pub fn fill_pile(&mut self, num: usize, seed: u64)
        requires
            num > 0 ==> total_weight(old(self).catalog()) > 0,
        ensures
            filled(*old(self), *final(self), num as nat, seed),
    {
        let mut seed = seed;
        let ghost first = seed;
        let ghost catalog = self.catalog();
        let mut i: usize = 0;
        while i < num
            invariant
                i <= num,
                num > 0 ==> total_weight(catalog) > 0,
                self.catalog() == catalog,
                self.pile() == old(self).pile() + drawn_pile(catalog, first, i as nat),
                seed == seed_after(catalog, first, i as nat),
            decreases num - i,
        {
            proof {
                one_more_draw(catalog, first, i as nat);
            }
            seed = self.add_seeded_to_pile(seed);
            i += 1;
            assert(self.pile() =~= old(self).pile() + drawn_pile(catalog, first, i as nat));
        }
    }

    /// Draws one tile with a generator of unknown state and puts it at the
    /// end of the pile.
    fn add_rnd_to_pile(&mut self)
        requires
            total_weight(old(self).catalog()) > 0,
        ensures
            final(self).catalog() == old(self).catalog(),
            exists|seed: u64|
                final(self).pile() == old(self).pile().push(
                    #[trigger] drawn(old(self).catalog(), seed).0,
                ),
    {
        let seed = fresh_seed();
        self.add_seeded_to_pile(seed);
    }

    /// Puts a tile at the end of the pile.
    pub fn add_to_pile(&mut self, tile: Tile)
        ensures
            final(self).catalog() == old(self).catalog(),
            final(self).pile() == old(self).pile().push(tile),
    {
        self.pile.push_back(tile);
    }

    /// The tile on top of the pile, which stays there. Onto an empty pile
    /// one tile is drawn first, with a generator of unknown state; with
    /// nothing to draw from, the pile stays empty and the result is `None`.
    pub fn get_top(&mut self) -> (top: Option<Tile>)
        ensures
            final(self).catalog() == old(self).catalog(),
            top.is_some() == (old(self).pile().len() > 0 || total_weight(old(self).catalog()) > 0),
            old(self).pile().len() > 0 ==> final(self).pile() == old(self).pile(),
            old(self).pile().len() == 0 ==> refilled(*old(self), *final(self)),
            top == head_of(final(self).pile()),
    {
        if self.pile.len() == 0 {
            if self.total_weight() == 0 {
                proof {
                    weights_up_to(self.deck@, self.deck@.len() as int);
                }
                return None;
            }
            self.add_rnd_to_pile();
            proof {
                let seed = choose|seed: u64|
                    self.pile() == old(self).pile().push(
                        #[trigger] drawn(old(self).catalog(), seed).0,
                    );
                assert(self.pile() =~= seq![drawn(old(self).catalog(), seed).0]);
            }
        }
        Some(self.pile[0])
    }

    /// Turns the tile on top of the pile by a quarter and reports it as it
    /// lies now. An empty pile stays empty and nothing is reported.
    pub fn rotate(&mut self) -> (news: Option<TopTileRotated>)
        ensures
            final(self).catalog() == old(self).catalog(),
            old(self).pile().len() > 0 ==> final(self).pile() == old(self).pile().update(
                0,
                old(self).pile()[0].turned(),
            ) && news == Some(TopTileRotated(old(self).pile()[0].turned())),
            old(self).pile().len() == 0 ==> final(self).pile() == old(self).pile()
                && news.is_none(),
    {
        match self.pile.pop_front() {
            Some(top) => {
                let turned = top.rotate90();
                self.pile.push_front(turned);
                assert(self.pile@ =~= old(self).pile@.update(0, turned));
                Some(TopTileRotated(turned))
            },
            None => None,
        }
    }

    /// Takes the tile on top off the pile and returns the one that lies on
    /// top then. Where none is left, one is drawn first, with a generator of
    /// unknown state.
    pub fn next(&mut self) -> (top: Tile)
        requires
            old(self).pile().len() <= 1 ==> total_weight(old(self).catalog()) > 0,
        ensures
            final(self).catalog() == old(self).catalog(),
            old(self).pile().len() > 1 ==> final(self).pile() == old(self).pile().drop_first(),
            old(self).pile().len() <= 1 ==> one_drawn(old(self).catalog(), final(self).pile()),
            Some(top) == head_of(final(self).pile()),
    {
        self.pile.pop_front();
        if self.pile.len() == 0 {
            let ghost emptied = self.pile();
            self.add_rnd_to_pile();
            proof {
                let seed = choose|seed: u64|
                    self.pile() == emptied.push(#[trigger] drawn(old(self).catalog(), seed).0);
                assert(self.pile() =~= seq![drawn(old(self).catalog(), seed).0]);
            }
        } else {
            assert(self.pile@ =~= old(self).pile@.drop_first());
        }
        self.pile[0]
    }
}

impl Default for Deck {
    /// The deck with nothing in the catalog and nothing on the pile.
    fn default() -> (deck: Deck)
        ensures
            deck.catalog() == Seq::<(u32, Tile)>::empty(),
            deck.pile() == Seq::<Tile>::empty(),
    {
        Deck { deck: Vec::new(), pile: VecDeque::new() }
    }
}

/// The first tile of a pile, if it has one.
pub open spec fn head_of(pile: Seq<Tile>) -> Option<Tile> {
    if pile.len() > 0 {
        Some(pile[0])
    } else {
        None
    }
}

/// Whether the pile holds one tile and no more, drawn from the catalog by a
/// generator in some state.
pub open spec fn one_drawn(catalog: Seq<(u32, Tile)>, pile: Seq<Tile>) -> bool {
    exists|seed: u64| pile == seq![#[trigger] drawn(catalog, seed).0]
}

/// What becomes of a deck with an empty pile when its top is asked for: one
/// tile is drawn where the catalog has weight, and nothing changes where it
/// has none.
pub open spec fn refilled(before: Deck, after: Deck) -> bool {
    if total_weight(before.catalog()) > 0 {
        one_drawn(before.catalog(), after.pile())
    } else {
        after.pile() == before.pile()
    }
}

/// The five standard tiles with their weights.
pub open spec fn standard_tiles() -> Seq<(u32, Tile)> {
    seq![
        (3u32, Tile::from_pattern("tr"@)),
        (3u32, Tile::from_pattern("tb"@)),
        (2u32, Tile::from_pattern("trb"@)),
        (1u32, Tile::from_pattern("trbl"@)),
        (1u32, Tile::from_pattern("t"@)),
    ]
}

/// What filling the pile does to a deck: the catalog stays, and the pile
/// grows at its end by the tiles that `num` draws give from `seed` on.
pub open spec fn filled(before: Deck, after: Deck, num: nat, seed: u64) -> bool {
    &&& after.catalog() == before.catalog()
    &&& after.pile() == before.pile() + drawn_pile(before.catalog(), seed, num)
}

/// More entries never weigh less.
pub proof fn weights_grow(catalog: Seq<(u32, Tile)>, n: int, m: int)
    requires
        0 <= n <= m,
    ensures
        0 <= weight_before(catalog, n) <= weight_before(catalog, m),
    decreases m,
{
    if n < m {
        weights_grow(catalog, n, m - 1);
    } else {
        weights_up_to(catalog, n);
    }
}

/// The first `n` entries weigh at most `n` times the greatest weight there is.
pub proof fn weights_up_to(catalog: Seq<(u32, Tile)>, n: int)
    requires
        0 <= n,
    ensures
        0 <= weight_before(catalog, n) <= n * 0xFFFF_FFFF,
    decreases n,
{
    if n > 0 {
        weights_up_to(catalog, n - 1);
    }
}

/// A roll falls to one entry at most.
pub proof fn falls_to_one_entry(catalog: Seq<(u32, Tile)>, roll: int, i: int)
    requires
        is_chosen(catalog, roll, i),
    ensures
        chosen(catalog, roll) == i,
{
    let j = chosen(catalog, roll);
    assert(is_chosen(catalog, roll, j));
    if j < i {
        weights_grow(catalog, j + 1, i);
    } else if i < j {
        weights_grow(catalog, i + 1, j);
    }
}

/// The entry to which a roll falls is the first with which the weight
/// passes the roll: up to any entry before it, the weight does not.
pub proof fn falls_to_first_past_roll(catalog: Seq<(u32, Tile)>, roll: int, i: int, j: int)
    requires
        is_chosen(catalog, roll, i),
        0 <= j < i,
    ensures
        weight_before(catalog, j + 1) <= roll,
{
    weights_grow(catalog, j + 1, i);
}

/// Every roll below the total weight falls to an entry.
pub proof fn falls_to_an_entry(catalog: Seq<(u32, Tile)>, roll: int)
    requires
        0 <= roll < total_weight(catalog),
    ensures
        is_chosen(catalog, roll, chosen(catalog, roll)),
{
    entry_below(catalog, roll, catalog.len() as int);
}

/// A roll below the weight of the first `n` entries falls to one of them.
proof fn entry_below(catalog: Seq<(u32, Tile)>, roll: int, n: int)
    requires
        0 <= n <= catalog.len(),
        0 <= roll < weight_before(catalog, n),
    ensures
        exists|i: int| i < n && is_chosen(catalog, roll, i),
    decreases n,
{
    if weight_before(catalog, n - 1) <= roll {
        assert(is_chosen(catalog, roll, n - 1));
    } else {
        entry_below(catalog, roll, n - 1);
    }
}

/// The roll that a random number makes is below the total weight.
pub proof fn roll_is_below_total(raw: u32, total: int)
    requires
        total > 0,
    ensures
        0 <= roll_of(raw, total) < total,
{
    let unit = raw as int / 0x200;
    assert(0 <= unit < 0x80_0000);
    assert(0 <= unit * total < 0x80_0000 * total) by (nonlinear_arith)
        requires
            0 <= unit < 0x80_0000,
            total > 0,
    ;
}

/// One draw more puts one tile more at the end and moves the generator on.
pub proof fn one_more_draw(catalog: Seq<(u32, Tile)>, seed: u64, count: nat)
    ensures
        drawn_pile(catalog, seed, count + 1) == drawn_pile(catalog, seed, count).push(
            drawn(catalog, seed_after(catalog, seed, count)).0,
        ),
        seed_after(catalog, seed, count + 1) == drawn(
            catalog,
            seed_after(catalog, seed, count),
        ).1,
    decreases count,
{
    if count == 0 {
        reveal_with_fuel(drawn_pile, 2);
        reveal_with_fuel(seed_after, 2);
        assert(drawn_pile(catalog, seed, 1) =~= Seq::<Tile>::empty().push(drawn(catalog, seed).0));
    } else {
        let next = drawn(catalog, seed).1;
        one_more_draw(catalog, next, (count - 1) as nat);
        assert(drawn_pile(catalog, seed, count + 1) =~= drawn_pile(catalog, seed, count).push(
            drawn(catalog, seed_after(catalog, seed, count)).0,
        ));
    }
}

/// Filling the pile from a seed is repeatable: decks with the same catalog
/// and the same pile, filled with the same count from the same seed, end with
/// the same pile.
pub proof fn same_seed_same_pile(
    a: Deck,
    a_filled: Deck,
    b: Deck,
    b_filled: Deck,
    num: nat,
    seed: u64,
)
    requires
        a.catalog() == b.catalog(),
        a.pile() == b.pile(),
        filled(a, a_filled, num, seed),
        filled(b, b_filled, num, seed),
    ensures
        a_filled.pile() == b_filled.pile(),
        a_filled.catalog() == b_filled.catalog(),
{
}

/// `count` draws give `count` tiles, and each of them is a tile of the
/// catalog, turned by some number of quarters below four.
pub proof fn draws_come_from_catalog(catalog: Seq<(u32, Tile)>, seed: u64, count: nat, i: int)
    requires
        total_weight(catalog) > 0,
        0 <= i < count,
    ensures
        drawn_pile(catalog, seed, count).len() == count,
        exists|entry: int, turns: nat|
            0 <= entry < catalog.len() && turns < 4 && drawn_pile(catalog, seed, count)[i]
                == #[trigger] catalog[entry].1.turned_by(turns),
    decreases count,
{
    draws_count(catalog, seed, count);
    if i == 0 {
        let first = rng_u32(seed);
        let second = rng_u8(first.1, 4);
        let roll = roll_of(first.0, total_weight(catalog));
        roll_is_below_total(first.0, total_weight(catalog));
        falls_to_an_entry(catalog, roll);
        let entry = chosen(catalog, roll);
        let turns = quarter_turns(second.0);
        assert(drawn_pile(catalog, seed, count)[0] == catalog[entry].1.turned_by(turns));
    } else {
        let next = drawn(catalog, seed).1;
        draws_come_from_catalog(catalog, next, (count - 1) as nat, i - 1);
        draws_count(catalog, next, (count - 1) as nat);
        assert(drawn_pile(catalog, seed, count)[i] == drawn_pile(
            catalog,
            next,
            (count - 1) as nat,
        )[i - 1]);
    }
}

/// `count` draws give `count` tiles.
pub proof fn draws_count(catalog: Seq<(u32, Tile)>, seed: u64, count: nat)
    ensures
        drawn_pile(catalog, seed, count).len() == count,
    decreases count,
{
    if count > 0 {
        draws_count(catalog, drawn(catalog, seed).1, (count - 1) as nat);
    }
}

} // verus!
