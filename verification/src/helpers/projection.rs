//! Conversions from signed coordinate pairs into tile positions.
use crate::map::TilemapSize;
use crate::tiles::TilePos;
use vstd::prelude::*;

verus! {

/// The tile position `(x, y)`, if both coordinates are non-negative and lie within the bounds
/// of a map of the given size.
pub open spec fn tile_pos_on_map(x: int, y: int, map_size: TilemapSize) -> Option<TilePos> {
    if 0 <= x < map_size.x && 0 <= y < map_size.y {
        Some(TilePos { x: x as u32, y: y as u32 })
    } else {
        None
    }
}

impl TilePos {
    /// Try converting a pair of `i32` numbers into a `TilePos`.
    ///
    /// Returns `None` if either one of `x` or `y` is negative, or lies out of the bounds of
    /// `map_size`.
    pub fn from_i32_pair(x: i32, y: i32, map_size: &TilemapSize) -> (p: Option<TilePos>)
        ensures
            p == tile_pos_on_map(x as int, y as int, *map_size),
    {
        if x < 0 || y < 0 {
            None
        } else {
            let tile_pos = TilePos { x: x as u32, y: y as u32 };
            if tile_pos.within_map_bounds(map_size) {
                Some(tile_pos)
            } else {
                None
            }
        }
    }
}

} // verus!
