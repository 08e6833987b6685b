//! Components attached to individual tiles, and the storage that maps positions to tiles.
mod storage;

use crate::map::TilemapSize;
use vstd::prelude::*;

pub use storage::{drained, lemma_remove_then_get, lemma_set_then_get, TileStorage};

verus! {

/// A tile position in the tilemap grid.
#[derive(Default, Clone, Copy, Debug, Hash, PartialEq, Eq, PartialOrd, Ord, Structural)]
pub struct TilePos {
    pub x: u32,
    pub y: u32,
}

impl TilePos {
    /// Is `self` inside a map of the given size?
    pub open spec fn in_bounds(self, map_size: TilemapSize) -> bool {
        self.x < map_size.x && self.y < map_size.y
    }

    /// The index of `self` in a row-major flattening of a map of the given size.
    pub open spec fn flat_index(self, map_size: TilemapSize) -> int {
        self.y * map_size.x + self.x
    }

    /// Creates a tile position.
    pub fn new(x: u32, y: u32) -> (p: Self)
        ensures
            p.x == x && p.y == y,
    {
        Self { x, y }
    }

    /// Converts a tile position (2D) into an index in a flattened vector (1D), assuming the
    /// tile position lies in a tilemap of the specified size.
    pub fn to_index(&self, tilemap_size: &TilemapSize) -> (i: usize)
        requires
            self.flat_index(*tilemap_size) <= u32::MAX,
        ensures
            i == self.flat_index(*tilemap_size),
    {
        proof {
            lemma_flat_index_nonneg(*self, *tilemap_size);
        }
        ((self.y * tilemap_size.x) + self.x) as usize
    }

    /// Checks to see if `self` lies within a tilemap of the specified size.
    pub fn within_map_bounds(&self, map_size: &TilemapSize) -> (b: bool)
        ensures
            b == self.in_bounds(*map_size),
    {
        self.x < map_size.x && self.y < map_size.y
    }
}

proof fn lemma_flat_index_nonneg(p: TilePos, map_size: TilemapSize)
    ensures
        0 <= p.y * map_size.x <= p.flat_index(map_size),
{
    assert(p.y * map_size.x >= 0) by (nonlinear_arith);
}

/// Inside a map, the flat index of a position lies in `0..count` and no two positions share
/// one: flattening is a bijection between the positions of a map and the indices of its
/// tiles.
pub proof fn lemma_flat_index_in_range_and_injective(p: TilePos, q: TilePos, map_size: TilemapSize)
    requires
        p.in_bounds(map_size),
        q.in_bounds(map_size),
    ensures
        0 <= p.flat_index(map_size) < map_size.tile_count(),
        p.flat_index(map_size) == q.flat_index(map_size) <==> p == q,
{
    let w = map_size.x as int;
    assert(p.y * w + p.x < map_size.x * map_size.y) by (nonlinear_arith)
        requires
            p.x < w,
            p.y < map_size.y,
            w == map_size.x,
    ;
    assert(p.y * w >= 0) by (nonlinear_arith)
        requires
            w >= 0,
    ;
    if p.flat_index(map_size) == q.flat_index(map_size) {
        assert(p.y == q.y) by (nonlinear_arith)
            requires
                p.y * w + p.x == q.y * w + q.x,
                0 <= p.x < w,
                0 <= q.x < w,
        ;
    }
}

/// A texture index into the atlas or texture array for a single tile. Indices in an atlas are
/// horizontal based.
#[derive(Default, Clone, Copy, Debug, Hash, PartialEq, Eq)]
pub struct TileTextureIndex(pub u32);

/// Hides or shows a tile based on the boolean. Default: True
#[derive(Clone, Copy, Debug, Hash, PartialEq, Eq)]
pub struct TileVisible(pub bool);

impl Default for TileVisible {
    /// Tiles are visible by default.
    fn default() -> (v: Self)
        ensures
            v.0,
    {
        Self(true)
    }
}

/// Flips the tiles texture along the X, Y or diagonal axes
#[derive(Default, Clone, Copy, Debug, Hash, PartialEq, Eq)]
pub struct TileFlip {
    /// Flip tile along the x axis.
    pub x: bool,
    /// Flip tile along the Y axis.
    pub y: bool,
    /// Flip tile along the anti-diagonal.
    pub d: bool,
}

/// The position a tile had in the previous frame.
#[derive(Default, Clone, Copy, Debug)]
pub struct TilePosOld(pub TilePos);

} // verus!
