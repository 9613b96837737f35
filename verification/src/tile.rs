//! Tiles and the states of their four edges.

use vstd::prelude::*;

verus! {

/// What one edge of a grid cell says about the road network.
#[derive(Clone, Copy, Debug, PartialEq, Eq, Structural)]
pub enum Border {
    /// Nothing is decided about this edge.
    Any,
    /// No road crosses this edge.
    Empty,
    /// A road crosses this edge.
    Road,
}

impl Border {
    /// The number that stands for this state in a tile's key.
    pub open spec fn code(self) -> nat {
        match self {
            Border::Any => 0,
            Border::Empty => 1,
            Border::Road => 2,
        }
    }

    /// The number that stands for this state in a tile's key.
    pub fn to_code(self) -> (c: u32)
        ensures
            c == self.code(),
    {
        match self {
            Border::Any => 0,
            Border::Empty => 1,
            Border::Road => 2,
        }
    }
}

impl Default for Border {
    /// Nothing is decided.
    fn default() -> (b: Border)
        ensures
            b == Border::Any,
    {
        Border::Any
    }
}

/// The four edges of a grid cell, and whether a tile has been laid on it.
#[derive(Clone, Copy, Debug, PartialEq, Eq, Structural)]
pub struct Tile {
    pub placed: bool,
    pub top: Border,
    pub right: Border,
    pub bottom: Border,
    pub left: Border,
}

/// How the marker of an open cell is shown while the player holds a tile.
#[derive(Clone, Copy, Debug, PartialEq, Eq, Structural)]
pub enum Highlight {
    /// The tile may be laid here.
    Normal,
    /// The tile may be laid here, and the pointer is over the cell.
    Hover,
    /// The tile may not be laid here.
    Disabled,
}

/// `Road` where the letter occurs in the pattern, `Empty` where it does not.
pub open spec fn edge_for(pattern: Seq<char>, letter: char) -> Border {
    if pattern.contains(letter) {
        Border::Road
    } else {
        Border::Empty
    }
}

/// Whether an edge of a cell admits the edge that a candidate tile would put there.
pub open spec fn edge_fits(cell: Border, candidate: Border) -> bool {
    cell == Border::Any || candidate == cell
}

impl Tile {
    /// The tile of a cell on which nothing is decided yet.
    pub open spec fn blank() -> Tile {
        Tile {
            placed: false,
            top: Border::Any,
            right: Border::Any,
            bottom: Border::Any,
            left: Border::Any,
        }
    }

    /// The unplaced tile without any road.
    pub open spec fn roadless() -> Tile {
        Tile {
            placed: false,
            top: Border::Empty,
            right: Border::Empty,
            bottom: Border::Empty,
            left: Border::Empty,
        }
    }

    /// The unplaced tile whose roads are the letters of `pattern`:
    /// `t` for top, `r` for right, `b` for bottom, `l` for left.
    pub open spec fn from_pattern(pattern: Seq<char>) -> Tile {
        Tile {
            placed: false,
            top: edge_for(pattern, 't'),
            right: edge_for(pattern, 'r'),
            bottom: edge_for(pattern, 'b'),
            left: edge_for(pattern, 'l'),
        }
    }

    /// Whether a road crosses at least one edge.
    pub open spec fn carries_road(self) -> bool {
        self.top == Border::Road || self.right == Border::Road || self.bottom == Border::Road
            || self.left == Border::Road
    }

    /// The tile turned clockwise by a quarter: what was on the left is now on top.
    pub open spec fn turned(self) -> Tile {
        Tile {
            placed: self.placed,
            top: self.left,
            right: self.top,
            bottom: self.right,
            left: self.bottom,
        }
    }

    /// The tile after `quarters` clockwise quarter turns.
    pub open spec fn turned_by(self, quarters: nat) -> Tile
        decreases quarters,
    {
        if quarters == 0 {
            self
        } else {
            self.turned_by((quarters - 1) as nat).turned()
        }
    }

    /// Whether this tile may be laid on `cell`: the cell is free, and each of its
    /// edges is either undecided or equal to this tile's edge on the same side.
    pub open spec fn fits(self, cell: Tile) -> bool {
        &&& !cell.placed
        &&& edge_fits(cell.top, self.top)
        &&& edge_fits(cell.right, self.right)
        &&& edge_fits(cell.bottom, self.bottom)
        &&& edge_fits(cell.left, self.left)
    }

    /// The number under which the edges of this tile are filed: one digit per
    /// edge, `placed` left out.
    pub open spec fn key(self) -> nat {
        self.top.code() + self.right.code() * 0x10 + self.bottom.code() * 0x100 + self.left.code()
            * 0x10000
    }

    /// Whether a road crosses at least one edge.
    pub fn has_road(&self) -> (found: bool)
        ensures
            found == self.carries_road(),
    {
        self.top == Border::Road || self.right == Border::Road || self.bottom == Border::Road
            || self.left == Border::Road
    }

    /// The unplaced tile without any road: all four edges are `Empty`.
    pub fn empty() -> (tile: Tile)
        ensures
            tile == Tile::roadless(),
    {
        Tile {
            placed: false,
            top: Border::Empty,
            right: Border::Empty,
            bottom: Border::Empty,
            left: Border::Empty,
        }
    }

    /// The unplaced tile whose roads are the letters of `pattern`: `t` for
    /// top, `r` for right, `b` for bottom, `l` for left. The other edges are
    /// `Empty`; other letters say nothing.
    pub fn create(pattern: &str) -> (tile: Tile)
        ensures
            tile == Tile::from_pattern(pattern@),
    {
        let mut tile = Tile::empty();
        for c in letters: pattern.chars()
            invariant
                letters.seq() == pattern@,
                tile == Tile::from_pattern(pattern@.take(letters.index() as int)),
        {
            proof {
                let i = letters.index() as int;
                let before = pattern@.take(i);
                let after = pattern@.take(i + 1);
                assert(after == before.push(c));
                assert forall|letter: char|
                    after.contains(letter) == (before.contains(letter) || letter == c) by {
                    if letter == c {
                        assert(after[i] == c);
                    }
                    if before.contains(letter) {
                        let k = choose|k: int| 0 <= k < before.len() && before[k] == letter;
                        assert(after[k] == letter);
                    }
                }
            }
            if c == 't' {
                tile.top = Border::Road;
            } else if c == 'r' {
                tile.right = Border::Road;
            } else if c == 'b' {
                tile.bottom = Border::Road;
            } else if c == 'l' {
                tile.left = Border::Road;
            }
        }
        proof {
            assert(pattern@.take(pattern@.len() as int) == pattern@);
        }
        tile
    }

    /// The tile turned clockwise by three quarters.
    pub fn rotate270(&self) -> (tile: Tile)
        ensures
            tile == self.turned().turned().turned(),
    {
        Tile {
            placed: self.placed,
            top: self.right,
            right: self.bottom,
            bottom: self.left,
            left: self.top,
        }
    }

    /// The tile turned clockwise by a quarter.
    pub fn rotate90(&self) -> (tile: Tile)
        ensures
            tile == self.turned(),
    {
        Tile {
            placed: self.placed,
            top: self.left,
            right: self.top,
            bottom: self.right,
            left: self.bottom,
        }
    }

    /// The tile turned by a half: two quarter turns.
    pub fn rotate180(&self) -> (tile: Tile)
        ensures
            tile == self.turned().turned(),
    {
        Tile {
            placed: self.placed,
            top: self.bottom,
            right: self.left,
            bottom: self.top,
            left: self.right,
        }
    }

    /// How the marker of `cell` is shown while this tile is the one to lay.
    pub fn highlight(&self, cell: &Tile, hovered: bool) -> (shown: Highlight)
        ensures
            shown == if !self.fits(*cell) {
                Highlight::Disabled
            } else if hovered {
                Highlight::Hover
            } else {
                Highlight::Normal
            },
    {
        if self.placeable(cell) {
            if hovered {
                Highlight::Hover
            } else {
                Highlight::Normal
            }
        } else {
            Highlight::Disabled
        }
    }

    /// Whether this tile may be laid on the cell `other`.
    pub fn placeable(&self, other: &Tile) -> (ok: bool)
        ensures
            ok == self.fits(*other),
    {
        !other.placed && (other.top == Border::Any || self.top == other.top) && (other.right
            == Border::Any || self.right == other.right) && (other.bottom == Border::Any
            || self.bottom == other.bottom) && (other.left == Border::Any || self.left
            == other.left)
    }
}

impl From<Tile> for u32 {
    /// The key of the tile.
    fn from(value: Tile) -> (key: u32) {
        value.top.to_code() + value.right.to_code() * 0x10 + value.bottom.to_code() * 0x100
            + value.left.to_code() * 0x10000
    }
}

impl vstd::std_specs::convert::FromSpecImpl<Tile> for u32 {
    open spec fn obeys_from_spec() -> bool {
        true
    }

    open spec fn from_spec(value: Tile) -> u32 {
        value.key() as u32
    }
}

impl From<&Tile> for u32 {
    /// The key of the tile.
    fn from(value: &Tile) -> (key: u32) {
        value.top.to_code() + value.right.to_code() * 0x10 + value.bottom.to_code() * 0x100
            + value.left.to_code() * 0x10000
    }
}

impl vstd::std_specs::convert::FromSpecImpl<&Tile> for u32 {
    open spec fn obeys_from_spec() -> bool {
        true
    }

    open spec fn from_spec(value: &Tile) -> u32 {
        value.key() as u32
    }
}

impl Default for Tile {
    /// The tile of a cell on which nothing is decided yet.
    fn default() -> (tile: Tile)
        ensures
            tile == Tile::blank(),
    {
        Tile {
            placed: false,
            top: Border::Any,
            right: Border::Any,
            bottom: Border::Any,
            left: Border::Any,
        }
    }
}

/// Four quarter turns bring every tile back to where it was.
pub proof fn four_quarter_turns_restore(t: Tile)
    ensures
        t.turned().turned().turned().turned() == t,
{
}

/// Turning `quarters` times is the same as turning `quarters % 4` times, and
/// the first three counts are the quarter, the half and the three-quarter turn.
pub proof fn turns_repeat_after_four(t: Tile, quarters: nat)
    ensures
        t.turned_by(quarters) == t.turned_by(quarters % 4),
        t.turned_by(0) == t,
        t.turned_by(1) == t.turned(),
        t.turned_by(2) == t.turned().turned(),
        t.turned_by(3) == t.turned().turned().turned(),
    decreases quarters,
{
    reveal_with_fuel(Tile::turned_by, 5);
    if quarters >= 4 {
        let rest = (quarters - 4) as nat;
        turns_repeat_after_four(t, rest);
        four_quarter_turns_restore(t.turned_by(rest));
        assert(rest % 4 == quarters % 4) by (nonlinear_arith)
            requires
                rest + 4 == quarters,
        ;
    } else {
        assert(quarters % 4 == quarters);
    }
}

/// Turning a tile neither adds nor removes a road, and leaves `placed` as it was.
pub proof fn turning_keeps_roads(t: Tile)
    ensures
        t.turned().carries_road() == t.carries_road(),
        t.turned().placed == t.placed,
{
}

/// A tile made from a pattern carries a road exactly when one of the four
/// letters occurs in the pattern; the empty pattern gives the roadless tile.
pub proof fn pattern_roads(pattern: Seq<char>)
    ensures
        Tile::from_pattern(pattern).carries_road() <==> pattern.contains('t') || pattern.contains(
            'r',
        ) || pattern.contains('b') || pattern.contains('l'),
        Tile::from_pattern(Seq::<char>::empty()) == Tile::roadless(),
        !Tile::roadless().carries_road(),
{
}

/// A cell rejects every candidate that differs from it on an edge that the
/// cell has fixed, be it to `Road` or to `Empty`.
pub proof fn fixed_edge_rejects(cell: Tile, candidate: Tile)
    requires
        (cell.top != Border::Any && candidate.top != cell.top) || (cell.right != Border::Any
            && candidate.right != cell.right) || (cell.bottom != Border::Any && candidate.bottom
            != cell.bottom) || (cell.left != Border::Any && candidate.left != cell.left),
    ensures
        !candidate.fits(cell),
{
}

/// A free cell accepts every candidate that agrees with it on all the edges
/// that the cell has fixed; its undecided edges demand nothing.
pub proof fn matching_edges_accept(cell: Tile, candidate: Tile)
    requires
        !cell.placed,
        cell.top != Border::Any ==> candidate.top == cell.top,
        cell.right != Border::Any ==> candidate.right == cell.right,
        cell.bottom != Border::Any ==> candidate.bottom == cell.bottom,
        cell.left != Border::Any ==> candidate.left == cell.left,
    ensures
        candidate.fits(cell),
{
}

/// A cell on which a tile lies accepts no further tile.
pub proof fn placed_cell_rejects(cell: Tile, candidate: Tile)
    requires
        cell.placed,
    ensures
        !candidate.fits(cell),
{
}

} // verus!
