//! Components describing a tilemap: its size, tile and texture sizes, and its grid type.
use vstd::prelude::*;

verus! {

/// Size of the tilemap in tiles.
#[derive(Default, Clone, Copy, Debug, Hash)]
pub struct TilemapSize {
    pub x: u32,
    pub y: u32,
}

impl TilemapSize {
    /// The number of tiles that a map of this size holds.
    pub open spec fn tile_count(self) -> int {
        self.x * self.y
    }

    /// Number of tiles in a map of this size.
    pub fn count(&self) -> (n: usize)
        requires
            self.x * self.y <= u32::MAX,
        ensures
            n == self.tile_count(),
    {
        proof {
            assert(self.x * self.y >= 0) by (nonlinear_arith);
        }
        (self.x * self.y) as usize
    }
}

} // verus!

verus! {

/// Size of the tiles in pixels.
#[derive(Default, Clone, Copy, Debug, Hash, PartialEq, Eq)]
pub struct TilemapTileSize {
    pub x: u32,
    pub y: u32,
}

/// Spacing between tiles inside of the texture atlas.
#[derive(Default, Clone, Copy, Debug, Hash, PartialEq, Eq)]
pub struct TilemapSpacing {
    pub x: u32,
    pub y: u32,
}

impl TilemapSpacing {
    /// No spacing at all.
    pub fn zero() -> (s: Self)
        ensures
            s.x == 0 && s.y == 0,
    {
        Self { x: 0, y: 0 }
    }
}

/// Size of tilemap textures in pixels.
#[derive(Clone, Copy, Debug, Default, Hash, PartialEq, Eq)]
pub struct TilemapTextureSize {
    pub x: u32,
    pub y: u32,
}

impl From<TilemapTileSize> for TilemapTextureSize {
    /// A texture of exactly one tile's size.
    fn from(tile_size: TilemapTileSize) -> (s: Self) {
        TilemapTextureSize { x: tile_size.x, y: tile_size.y }
    }
}

impl vstd::std_specs::convert::FromSpecImpl<TilemapTileSize> for TilemapTextureSize {
    open spec fn obeys_from_spec() -> bool {
        true
    }

    open spec fn from_spec(tile_size: TilemapTileSize) -> Self {
        TilemapTextureSize { x: tile_size.x, y: tile_size.y }
    }
}

/// Different hex grid coordinate systems. You can find out more at this link:
/// <https://www.redblobgames.com/grids/hexagons/>
#[derive(Debug, Clone, Copy, PartialEq, Eq, Hash)]
pub enum HexCoordSystem {
    RowEven,
    RowOdd,
    ColumnEven,
    ColumnOdd,
    Row,
    Column,
}

impl HexCoordSystem {
    /// Is this one of the row-oriented ("pointy top") systems?
    pub open spec fn is_row_oriented(self) -> bool {
        self is RowEven || self is RowOdd || self is Row
    }
}

/// Different isometric coordinate systems.
#[derive(Debug, Clone, Copy, PartialEq, Eq, Hash)]
pub enum IsoCoordSystem {
    Diamond,
    Staggered,
}

/// The type of tile to be rendered, currently we support: Square, Hex, and Isometric.
#[derive(Debug, Clone, Copy, PartialEq, Eq, Hash)]
pub enum TilemapType {
    /// A tilemap with square tiles.
    ///
    /// If `diagonal_neighbors` is `true`, then given a specified tile, any tiles diagonal to it
    /// are also considered neighbors by
    /// [`get_neighboring_pos`](crate::helpers::neighbors::get_neighboring_pos).
    Square { diagonal_neighbors: bool },
    /// A tilemap of hexagons; the `HexCoordSystem` determines the coordinate system.
    Hexagon(HexCoordSystem),
    /// An isometric tilemap; the `IsoCoordSystem` determines the coordinate system.
    ///
    /// If `diagonal_neighbors` is `true`, then given a specified tile, any tiles diagonal to it
    /// are also considered neighbors.
    Isometric { diagonal_neighbors: bool, coord_system: IsoCoordSystem },
}

impl TilemapType {
    /// A square map type.
    pub fn square(neighbors_include_diagonals: bool) -> (t: TilemapType)
        ensures
            t == (TilemapType::Square { diagonal_neighbors: neighbors_include_diagonals }),
    {
        TilemapType::Square { diagonal_neighbors: neighbors_include_diagonals }
    }

    /// An isometric map type in the diamond coordinate system.
    pub fn isometric_diamond(neighbors_include_diagonals: bool) -> (t: TilemapType)
        ensures
            t == (TilemapType::Isometric {
                diagonal_neighbors: neighbors_include_diagonals,
                coord_system: IsoCoordSystem::Diamond,
            }),
    {
        TilemapType::Isometric {
            diagonal_neighbors: neighbors_include_diagonals,
            coord_system: IsoCoordSystem::Diamond,
        }
    }

    /// An isometric map type in the staggered coordinate system.
    pub fn isometric_staggered(neighbors_include_diagonals: bool) -> (t: TilemapType)
        ensures
            t == (TilemapType::Isometric {
                diagonal_neighbors: neighbors_include_diagonals,
                coord_system: IsoCoordSystem::Staggered,
            }),
    {
        TilemapType::Isometric {
            diagonal_neighbors: neighbors_include_diagonals,
            coord_system: IsoCoordSystem::Staggered,
        }
    }
}

impl Default for TilemapType {
    /// By default a map is square, without diagonal neighbors.
    fn default() -> (t: Self)
        ensures
            t == (TilemapType::Square { diagonal_neighbors: false }),
    {
        TilemapType::Square { diagonal_neighbors: false }
    }
}

} // verus!
