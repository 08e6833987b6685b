//! Tile-map geometry: tile positions, map sizes, neighbor queries on square, isometric and
//! hexagonal grids, and conversions between the coordinate systems of those grids.
pub mod helpers;
pub mod neighbors;
pub mod map;
pub mod tiles;

pub use map::{TilemapSize, TilemapTileSize, TilemapType};
pub use tiles::{TilePos, TileStorage};

use vstd::prelude::*;

verus! {

/// Whether a tilemap is culled against the view frustum before it is rendered.
#[derive(Clone, Copy, Debug, PartialEq, Eq, Structural)]
pub struct FrustumCulling(pub bool);

impl Default for FrustumCulling {
    /// By default, `FrustumCulling` is `true`.
    fn default() -> (r: Self)
        ensures
            r.0,
    {
        FrustumCulling(true)
    }
}

impl std::ops::Deref for FrustumCulling {
    type Target = bool;

    fn deref(&self) -> (r: &bool)
        ensures
            *r == self.0,
    {
        &self.0
    }
}

} // verus!
