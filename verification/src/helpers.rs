//! Helpers for tile positions: flattening, neighbors, and the coordinate systems of the
//! different grids.
pub mod filling;
pub mod hex_grid;
pub mod iso_grid;
pub mod neighbors;
pub mod projection;
pub mod square_grid;

use crate::helpers::hex_grid::axial::{axial_of_tile, coords_in_system};
use crate::helpers::hex_grid::neighbors::{hex_neighbor_on_map, HexDirection};
use crate::helpers::neighbors::Neighbors;
use crate::map::{HexCoordSystem, TilemapSize};
use crate::tiles::TilePos;
use vstd::prelude::*;

pub use crate::helpers::neighbors::{
    diamond_neighbor_pos, diamond_neighbor_pos_with_diagonals, get_neighboring_pos,
    get_tile_neighbors, square_neighbor_pos, square_neighbor_pos_with_diagonals,
    staggered_neighbor_pos, staggered_neighbor_pos_with_diagonals, NeighborDirection,
    NeighborsIntoIterator,
};

verus! {

/// Converts a tile position into an index in a vector.
pub fn pos_2d_to_index(tile_pos: &TilePos, size: &TilemapSize) -> (i: usize)
    requires
        tile_pos.flat_index(*size) <= u32::MAX,
    ensures
        i == tile_pos.flat_index(*size),
{
    tile_pos.to_index(size)
}

/// The neighbors of a tile on a hexagonal map in row or column layout, by direct steps on the
/// tile coordinates. In the odd and even layouts the step taken may depend on whether the row
/// (or column) of the tile is even.
impl TilePos {
    /// The neighbor to the north west on a hexagonal map in row layout, if it lies on the map.
    pub(crate) fn hex_row_north_west(&self, tilemap_size: &TilemapSize) -> (p: Option<TilePos>)
        requires
            tilemap_size.y >= 1,
        ensures
            p == (self.offset_within(-1, 1, *tilemap_size)),
    {
        self.minus_x_plus_y(tilemap_size)
    }

    /// The neighbor to the north west on a hexagonal map in odd row layout, if it lies on the map.
    pub(crate) fn hex_row_odd_north_west(&self, tilemap_size: &TilemapSize) -> (p: Option<TilePos>)
        requires
            tilemap_size.y >= 1,
        ensures
            p == (if self.y % 2 == 0 {
                self.offset_within(0, 1, *tilemap_size)
            } else {
                self.offset_within(-1, 1, *tilemap_size)
            }),
    {
        if self.y % 2 == 0 {
            self.plus_y(tilemap_size)
        } else {
            self.minus_x_plus_y(tilemap_size)
        }
    }

    /// The neighbor to the north west on a hexagonal map in even row layout, if it lies on the map.
    pub(crate) fn hex_row_even_north_west(&self, tilemap_size: &TilemapSize) -> (p: Option<TilePos>)
        requires
            tilemap_size.y >= 1,
        ensures
            p == (if self.y % 2 == 0 {
                self.offset_within(-1, 1, *tilemap_size)
            } else {
                self.offset_within(0, 1, *tilemap_size)
            }),
    {
        if self.y % 2 == 0 {
            self.minus_x_plus_y(tilemap_size)
        } else {
            self.plus_y(tilemap_size)
        }
    }

    /// The neighbor to the west on a hexagonal map in row layout, if it lies on the map.
    pub(crate) fn hex_row_west(&self) -> (p: Option<TilePos>)
        ensures
            forall|map_size: TilemapSize| #![trigger self.offset_within(-1, 0, map_size)] p == (self.offset_within(-1, 0, map_size)),
    {
        self.minus_x()
    }

    /// The neighbor to the west on a hexagonal map in odd row layout, if it lies on the map.
    pub(crate) fn hex_row_odd_west(&self) -> (p: Option<TilePos>)
        ensures
            forall|map_size: TilemapSize| #![trigger self.offset_within(-1, 0, map_size)] p == (self.offset_within(-1, 0, map_size)),
    {
        self.minus_x()
    }

    /// The neighbor to the west on a hexagonal map in even row layout, if it lies on the map.
    pub(crate) fn hex_row_even_west(&self) -> (p: Option<TilePos>)
        ensures
            forall|map_size: TilemapSize| #![trigger self.offset_within(-1, 0, map_size)] p == (self.offset_within(-1, 0, map_size)),
    {
        self.minus_x()
    }

    /// The neighbor to the south west on a hexagonal map in row layout, if it lies on the map.
    pub(crate) fn hex_row_south_west(&self) -> (p: Option<TilePos>)
        ensures
            forall|map_size: TilemapSize| #![trigger self.offset_within(0, -1, map_size)] p == (self.offset_within(0, -1, map_size)),
    {
        self.minus_y()
    }

    /// The neighbor to the south west on a hexagonal map in odd row layout, if it lies on the map.
    pub(crate) fn hex_row_odd_south_west(&self) -> (p: Option<TilePos>)
        ensures
            forall|map_size: TilemapSize| #![trigger self.offset_within(0, -1, map_size)] #![trigger self.offset_within(-1, -1, map_size)] p == (if self.y % 2 == 0 {
                self.offset_within(0, -1, map_size)
            } else {
                self.offset_within(-1, -1, map_size)
            }),
    {
        if self.y % 2 == 0 {
            self.minus_y()
        } else {
            self.minus_xy()
        }
    }

    /// The neighbor to the south west on a hexagonal map in even row layout, if it lies on the map.
    pub(crate) fn hex_row_even_south_west(&self) -> (p: Option<TilePos>)
        ensures
            forall|map_size: TilemapSize| #![trigger self.offset_within(-1, -1, map_size)] #![trigger self.offset_within(0, -1, map_size)] p == (if self.y % 2 == 0 {
                self.offset_within(-1, -1, map_size)
            } else {
                self.offset_within(0, -1, map_size)
            }),
    {
        if self.y % 2 == 0 {
            self.minus_xy()
        } else {
            self.minus_y()
        }
    }

    /// The neighbor to the south east on a hexagonal map in row layout, if it lies on the map.
    pub(crate) fn hex_row_south_east(&self, tilemap_size: &TilemapSize) -> (p: Option<TilePos>)
        requires
            tilemap_size.x >= 1,
        ensures
            p == (self.offset_within(1, -1, *tilemap_size)),
    {
        self.plus_x_minus_y(tilemap_size)
    }

    /// The neighbor to the south east on a hexagonal map in odd row layout, if it lies on the map.
    pub(crate) fn hex_row_odd_south_east(&self, tilemap_size: &TilemapSize) -> (p: Option<TilePos>)
        requires
            tilemap_size.x >= 1,
        ensures
            p == (if self.y % 2 == 0 {
                self.offset_within(1, -1, *tilemap_size)
            } else {
                self.offset_within(0, -1, *tilemap_size)
            }),
    {
        if self.y % 2 == 0 {
            self.plus_x_minus_y(tilemap_size)
        } else {
            self.minus_y()
        }
    }

    /// The neighbor to the south east on a hexagonal map in even row layout, if it lies on the map.
    pub(crate) fn hex_row_even_south_east(&self, tilemap_size: &TilemapSize) -> (p: Option<TilePos>)
        requires
            tilemap_size.x >= 1,
        ensures
            p == (if self.y % 2 == 0 {
                self.offset_within(0, -1, *tilemap_size)
            } else {
                self.offset_within(1, -1, *tilemap_size)
            }),
    {
        if self.y % 2 == 0 {
            self.minus_y()
        } else {
            self.plus_x_minus_y(tilemap_size)
        }
    }

    /// The neighbor to the east on a hexagonal map in row layout, if it lies on the map.
    pub(crate) fn hex_row_east(&self, tilemap_size: &TilemapSize) -> (p: Option<TilePos>)
        requires
            tilemap_size.x >= 1,
        ensures
            p == (self.offset_within(1, 0, *tilemap_size)),
    {
        self.plus_x(tilemap_size)
    }

    /// The neighbor to the east on a hexagonal map in odd row layout, if it lies on the map.
    pub(crate) fn hex_row_odd_east(&self, tilemap_size: &TilemapSize) -> (p: Option<TilePos>)
        requires
            tilemap_size.x >= 1,
        ensures
            p == (self.offset_within(1, 0, *tilemap_size)),
    {
        self.plus_x(tilemap_size)
    }

    /// The neighbor to the east on a hexagonal map in even row layout, if it lies on the map.
    pub(crate) fn hex_row_even_east(&self, tilemap_size: &TilemapSize) -> (p: Option<TilePos>)
        requires
            tilemap_size.x >= 1,
        ensures
            p == (self.offset_within(1, 0, *tilemap_size)),
    {
        self.plus_x(tilemap_size)
    }

    /// The neighbor to the north east on a hexagonal map in row layout, if it lies on the map.
    pub(crate) fn hex_row_north_east(&self, tilemap_size: &TilemapSize) -> (p: Option<TilePos>)
        requires
            tilemap_size.y >= 1,
        ensures
            p == (self.offset_within(0, 1, *tilemap_size)),
    {
        self.plus_y(tilemap_size)
    }

    /// The neighbor to the north east on a hexagonal map in odd row layout, if it lies on the map.
    pub(crate) fn hex_row_odd_north_east(&self, tilemap_size: &TilemapSize) -> (p: Option<TilePos>)
        requires
            self.y % 2 == 0 ==> tilemap_size.x >= 1 && (self.x + 1 < tilemap_size.x
                ==> tilemap_size.y >= 1),
            self.y % 2 != 0 ==> tilemap_size.y >= 1,
        ensures
            p == (if self.y % 2 == 0 {
                self.offset_within(1, 1, *tilemap_size)
            } else {
                self.offset_within(0, 1, *tilemap_size)
            }),
    {
        if self.y % 2 == 0 {
            self.plus_xy(tilemap_size)
        } else {
            self.plus_y(tilemap_size)
        }
    }

    /// The neighbor to the north east on a hexagonal map in even row layout, if it lies on the map.
    pub(crate) fn hex_row_even_north_east(&self, tilemap_size: &TilemapSize) -> (p: Option<TilePos>)
        requires
            self.y % 2 != 0 ==> tilemap_size.x >= 1 && (self.x + 1 < tilemap_size.x
                ==> tilemap_size.y >= 1),
            self.y % 2 == 0 ==> tilemap_size.y >= 1,
        ensures
            p == (if self.y % 2 == 0 {
                self.offset_within(0, 1, *tilemap_size)
            } else {
                self.offset_within(1, 1, *tilemap_size)
            }),
    {
        if self.y % 2 == 0 {
            self.plus_y(tilemap_size)
        } else {
            self.plus_xy(tilemap_size)
        }
    }

    /// The neighbor to the north on a hexagonal map in column layout, if it lies on the map.
    pub(crate) fn hex_col_north(&self, tilemap_size: &TilemapSize) -> (p: Option<TilePos>)
        requires
            tilemap_size.y >= 1,
        ensures
            p == (self.offset_within(0, 1, *tilemap_size)),
    {
        self.plus_y(tilemap_size)
    }

    /// The neighbor to the north on a hexagonal map in odd column layout, if it lies on the map.
    pub(crate) fn hex_col_odd_north(&self, tilemap_size: &TilemapSize) -> (p: Option<TilePos>)
        requires
            tilemap_size.y >= 1,
        ensures
            p == (self.offset_within(0, 1, *tilemap_size)),
    {
        self.plus_y(tilemap_size)
    }

    /// The neighbor to the north on a hexagonal map in even column layout, if it lies on the map.
    pub(crate) fn hex_col_even_north(&self, tilemap_size: &TilemapSize) -> (p: Option<TilePos>)
        requires
            tilemap_size.y >= 1,
        ensures
            p == (self.offset_within(0, 1, *tilemap_size)),
    {
        self.plus_y(tilemap_size)
    }

    /// The neighbor to the north west on a hexagonal map in column layout, if it lies on the map.
    pub(crate) fn hex_col_north_west(&self, tilemap_size: &TilemapSize) -> (p: Option<TilePos>)
        requires
            tilemap_size.y >= 1,
        ensures
            p == (self.offset_within(-1, 1, *tilemap_size)),
    {
        self.minus_x_plus_y(tilemap_size)
    }

    /// The neighbor to the north west on a hexagonal map in odd column layout, if it lies on the map.
    pub(crate) fn hex_col_odd_north_west(&self, tilemap_size: &TilemapSize) -> (p: Option<TilePos>)
        requires
            tilemap_size.y >= 1,
        ensures
            p == (if self.x % 2 == 0 {
                self.offset_within(-1, 1, *tilemap_size)
            } else {
                self.offset_within(-1, 0, *tilemap_size)
            }),
    {
        if self.x % 2 == 0 {
            self.minus_x_plus_y(tilemap_size)
        } else {
            self.minus_x()
        }
    }

    /// The neighbor to the north west on a hexagonal map in even column layout, if it lies on the map.
    pub(crate) fn hex_col_even_north_west(&self, tilemap_size: &TilemapSize) -> (p: Option<TilePos>)
        requires
            tilemap_size.y >= 1,
        ensures
            p == (if self.x % 2 == 0 {
                self.offset_within(-1, 0, *tilemap_size)
            } else {
                self.offset_within(-1, 1, *tilemap_size)
            }),
    {
        if self.x % 2 == 0 {
            self.minus_x()
        } else {
            self.minus_x_plus_y(tilemap_size)
        }
    }

    /// The neighbor to the south west on a hexagonal map in column layout, if it lies on the map.
    pub(crate) fn hex_col_south_west(&self) -> (p: Option<TilePos>)
        ensures
            forall|map_size: TilemapSize| #![trigger self.offset_within(-1, 0, map_size)] p == (self.offset_within(-1, 0, map_size)),
    {
        self.minus_x()
    }

    /// The neighbor to the south west on a hexagonal map in odd column layout, if it lies on the map.
    pub(crate) fn hex_col_odd_south_west(&self) -> (p: Option<TilePos>)
        ensures
            forall|map_size: TilemapSize| #![trigger self.offset_within(-1, 0, map_size)] #![trigger self.offset_within(-1, -1, map_size)] p == (if self.x % 2 == 0 {
                self.offset_within(-1, 0, map_size)
            } else {
                self.offset_within(-1, -1, map_size)
            }),
    {
        if self.x % 2 == 0 {
            self.minus_x()
        } else {
            self.minus_xy()
        }
    }

    /// The neighbor to the south west on a hexagonal map in even column layout, if it lies on the map.
    pub(crate) fn hex_col_even_south_west(&self) -> (p: Option<TilePos>)
        ensures
            forall|map_size: TilemapSize| #![trigger self.offset_within(-1, -1, map_size)] #![trigger self.offset_within(-1, 0, map_size)] p == (if self.x % 2 == 0 {
                self.offset_within(-1, -1, map_size)
            } else {
                self.offset_within(-1, 0, map_size)
            }),
    {
        if self.x % 2 == 0 {
            self.minus_xy()
        } else {
            self.minus_x()
        }
    }

    /// The neighbor to the south on a hexagonal map in column layout, if it lies on the map.
    pub(crate) fn hex_col_south(&self) -> (p: Option<TilePos>)
        ensures
            forall|map_size: TilemapSize| #![trigger self.offset_within(0, -1, map_size)] p == (self.offset_within(0, -1, map_size)),
    {
        self.minus_y()
    }

    /// The neighbor to the south on a hexagonal map in odd column layout, if it lies on the map.
    pub(crate) fn hex_col_odd_south(&self) -> (p: Option<TilePos>)
        ensures
            forall|map_size: TilemapSize| #![trigger self.offset_within(0, -1, map_size)] p == (self.offset_within(0, -1, map_size)),
    {
        self.minus_y()
    }

    /// The neighbor to the south on a hexagonal map in even column layout, if it lies on the map.
    pub(crate) fn hex_col_even_south(&self) -> (p: Option<TilePos>)
        ensures
            forall|map_size: TilemapSize| #![trigger self.offset_within(0, -1, map_size)] p == (self.offset_within(0, -1, map_size)),
    {
        self.minus_y()
    }

    /// The neighbor to the south east on a hexagonal map in column layout, if it lies on the map.
    pub(crate) fn hex_col_south_east(&self, tilemap_size: &TilemapSize) -> (p: Option<TilePos>)
        requires
            tilemap_size.x >= 1,
        ensures
            p == (self.offset_within(1, -1, *tilemap_size)),
    {
        self.plus_x_minus_y(tilemap_size)
    }

    /// The neighbor to the south east on a hexagonal map in odd column layout, if it lies on the map.
    pub(crate) fn hex_col_odd_south_east(&self, tilemap_size: &TilemapSize) -> (p: Option<TilePos>)
        requires
            tilemap_size.x >= 1,
        ensures
            p == (if self.x % 2 == 0 {
                self.offset_within(1, 0, *tilemap_size)
            } else {
                self.offset_within(1, -1, *tilemap_size)
            }),
    {
        if self.x % 2 == 0 {
            self.plus_x(tilemap_size)
        } else {
            self.plus_x_minus_y(tilemap_size)
        }
    }

    /// The neighbor to the south east on a hexagonal map in even column layout, if it lies on the map.
    pub(crate) fn hex_col_even_south_east(&self, tilemap_size: &TilemapSize) -> (p: Option<TilePos>)
        requires
            tilemap_size.x >= 1,
        ensures
            p == (if self.x % 2 == 0 {
                self.offset_within(1, -1, *tilemap_size)
            } else {
                self.offset_within(1, 0, *tilemap_size)
            }),
    {
        if self.x % 2 == 0 {
            self.plus_x_minus_y(tilemap_size)
        } else {
            self.plus_x(tilemap_size)
        }
    }

    /// The neighbor to the north east on a hexagonal map in column layout, if it lies on the map.
    pub(crate) fn hex_col_north_east(&self, tilemap_size: &TilemapSize) -> (p: Option<TilePos>)
        requires
            tilemap_size.x >= 1,
        ensures
            p == (self.offset_within(1, 0, *tilemap_size)),
    {
        self.plus_x(tilemap_size)
    }

    /// The neighbor to the north east on a hexagonal map in odd column layout, if it lies on the map.
    pub(crate) fn hex_col_odd_north_east(&self, tilemap_size: &TilemapSize) -> (p: Option<TilePos>)
        requires
            self.x + 1 < tilemap_size.x ==> tilemap_size.y >= 1,
            tilemap_size.x >= 1,
        ensures
            p == (if self.x % 2 == 0 {
                self.offset_within(1, 1, *tilemap_size)
            } else {
                self.offset_within(1, 0, *tilemap_size)
            }),
    {
        if self.x % 2 == 0 {
            self.plus_xy(tilemap_size)
        } else {
            self.plus_x(tilemap_size)
        }
    }

    /// The neighbor to the north east on a hexagonal map in even column layout, if it lies on the map.
    pub(crate) fn hex_col_even_north_east(&self, tilemap_size: &TilemapSize) -> (p: Option<TilePos>)
        requires
            self.x + 1 < tilemap_size.x ==> tilemap_size.y >= 1,
            tilemap_size.x >= 1,
        ensures
            p == (if self.x % 2 == 0 {
                self.offset_within(1, 0, *tilemap_size)
            } else {
                self.offset_within(1, 1, *tilemap_size)
            }),
    {
        if self.x % 2 == 0 {
            self.plus_x(tilemap_size)
        } else {
            self.plus_xy(tilemap_size)
        }
    }
}

/// The neighborhood that [`hex_row_neighbor_pos`] returns.
pub open spec fn hex_row_neighbor_positions(tile_pos: TilePos, tilemap_size: TilemapSize) -> Neighbors<TilePos> {
    Neighbors {
        north: None,
        north_west: tile_pos.offset_within(-1, 1, tilemap_size),
        west: tile_pos.offset_within(-1, 0, tilemap_size),
        south_west: tile_pos.offset_within(0, -1, tilemap_size),
        south: None,
        south_east: tile_pos.offset_within(1, -1, tilemap_size),
        east: tile_pos.offset_within(1, 0, tilemap_size),
        north_east: tile_pos.offset_within(0, 1, tilemap_size),
    }
}

/// Retrieves the positions of neighbors of the tile with the specified position, assuming
/// the tile exists on a [`Hexagon`](crate::map::TilemapType::Hexagon) tilemap with
/// coordinate system [`HexCoordSystem::Row`](crate::map::HexCoordSystem::Row), by direct
/// steps on the tile coordinates.
///
/// Directions whose tile coordinates would lie off the map are set to `None`.
pub fn hex_row_neighbor_pos(tile_pos: &TilePos, tilemap_size: &TilemapSize) -> (n: Neighbors<TilePos>)
    requires
        tilemap_size.x >= 1,
        tilemap_size.y >= 1,
    ensures
        n == hex_row_neighbor_positions(*tile_pos, *tilemap_size),
{
    Neighbors {
        north: None,
        north_west: tile_pos.hex_row_north_west(tilemap_size),
        west: tile_pos.hex_row_west(),
        south_west: tile_pos.hex_row_south_west(),
        south: None,
        south_east: tile_pos.hex_row_south_east(tilemap_size),
        east: tile_pos.hex_row_east(tilemap_size),
        north_east: tile_pos.hex_row_north_east(tilemap_size),
    }
}

/// The neighborhood that [`hex_row_odd_neighbor_pos`] returns: even rows are shifted half a
/// tile to the east of odd rows, so the diagonal steps depend on the parity of the row.
pub open spec fn hex_row_odd_neighbor_positions(tile_pos: TilePos, tilemap_size: TilemapSize) -> Neighbors<TilePos> {
    Neighbors {
        north: None,
        north_west: if tile_pos.y % 2 == 0 {
            tile_pos.offset_within(0, 1, tilemap_size)
        } else {
            tile_pos.offset_within(-1, 1, tilemap_size)
        },
        west: tile_pos.offset_within(-1, 0, tilemap_size),
        south_west: if tile_pos.y % 2 == 0 {
            tile_pos.offset_within(0, -1, tilemap_size)
        } else {
            tile_pos.offset_within(-1, -1, tilemap_size)
        },
        south: None,
        south_east: if tile_pos.y % 2 == 0 {
            tile_pos.offset_within(1, -1, tilemap_size)
        } else {
            tile_pos.offset_within(0, -1, tilemap_size)
        },
        east: tile_pos.offset_within(1, 0, tilemap_size),
        north_east: if tile_pos.y % 2 == 0 {
            tile_pos.offset_within(1, 1, tilemap_size)
        } else {
            tile_pos.offset_within(0, 1, tilemap_size)
        },
    }
}

/// Retrieves the positions of neighbors of the tile with the specified position, assuming
/// the tile exists on a [`Hexagon`](crate::map::TilemapType::Hexagon) tilemap with
/// coordinate system [`HexCoordSystem::RowOdd`](crate::map::HexCoordSystem::RowOdd), by direct
/// steps on the tile coordinates.
///
/// Directions whose tile coordinates would lie off the map are set to `None`.
pub fn hex_row_odd_neighbor_pos(tile_pos: &TilePos, tilemap_size: &TilemapSize) -> (n: Neighbors<TilePos>)
    requires
        tilemap_size.x >= 1,
        tilemap_size.y >= 1,
    ensures
        n == hex_row_odd_neighbor_positions(*tile_pos, *tilemap_size),
{
    Neighbors {
        north: None,
        north_west: tile_pos.hex_row_odd_north_west(tilemap_size),
        west: tile_pos.hex_row_odd_west(),
        south_west: tile_pos.hex_row_odd_south_west(),
        south: None,
        south_east: tile_pos.hex_row_odd_south_east(tilemap_size),
        east: tile_pos.hex_row_odd_east(tilemap_size),
        north_east: tile_pos.hex_row_odd_north_east(tilemap_size),
    }
}

/// The neighborhood that [`hex_row_even_neighbor_pos`] returns.
pub open spec fn hex_row_even_neighbor_positions(tile_pos: TilePos, tilemap_size: TilemapSize) -> Neighbors<TilePos> {
    Neighbors {
        north: None,
        north_west: if tile_pos.y % 2 == 0 {
            tile_pos.offset_within(-1, 1, tilemap_size)
        } else {
            tile_pos.offset_within(0, 1, tilemap_size)
        },
        west: tile_pos.offset_within(-1, 0, tilemap_size),
        south_west: if tile_pos.y % 2 == 0 {
            tile_pos.offset_within(-1, -1, tilemap_size)
        } else {
            tile_pos.offset_within(0, -1, tilemap_size)
        },
        south: None,
        south_east: if tile_pos.y % 2 == 0 {
            tile_pos.offset_within(0, -1, tilemap_size)
        } else {
            tile_pos.offset_within(1, -1, tilemap_size)
        },
        east: tile_pos.offset_within(1, 0, tilemap_size),
        north_east: if tile_pos.y % 2 == 0 {
            tile_pos.offset_within(0, 1, tilemap_size)
        } else {
            tile_pos.offset_within(1, 1, tilemap_size)
        },
    }
}

/// Retrieves the positions of neighbors of the tile with the specified position, assuming
/// the tile exists on a [`Hexagon`](crate::map::TilemapType::Hexagon) tilemap with
/// coordinate system [`HexCoordSystem::RowEven`](crate::map::HexCoordSystem::RowEven), by direct
/// steps on the tile coordinates. Odd rows are shifted half a tile to the east of even rows,
/// so the diagonal steps depend on the parity of the row.
///
/// Directions whose tile coordinates would lie off the map are set to `None`.
pub fn hex_row_even_neighbor_pos(tile_pos: &TilePos, tilemap_size: &TilemapSize) -> (n: Neighbors<TilePos>)
    requires
        tilemap_size.x >= 1,
        tilemap_size.y >= 1,
    ensures
        n == hex_row_even_neighbor_positions(*tile_pos, *tilemap_size),
{
    Neighbors {
        north: None,
        north_west: tile_pos.hex_row_even_north_west(tilemap_size),
        west: tile_pos.hex_row_even_west(),
        south_west: tile_pos.hex_row_even_south_west(),
        south: None,
        south_east: tile_pos.hex_row_even_south_east(tilemap_size),
        east: tile_pos.hex_row_even_east(tilemap_size),
        north_east: tile_pos.hex_row_even_north_east(tilemap_size),
    }
}

/// The neighborhood that [`hex_col_neighbor_pos`] returns.
pub open spec fn hex_col_neighbor_positions(tile_pos: TilePos, tilemap_size: TilemapSize) -> Neighbors<TilePos> {
    Neighbors {
        north: tile_pos.offset_within(0, 1, tilemap_size),
        north_west: tile_pos.offset_within(-1, 1, tilemap_size),
        west: None,
        south_west: tile_pos.offset_within(-1, 0, tilemap_size),
        south: tile_pos.offset_within(0, -1, tilemap_size),
        south_east: tile_pos.offset_within(1, -1, tilemap_size),
        east: None,
        north_east: tile_pos.offset_within(1, 0, tilemap_size),
    }
}

/// Retrieves the positions of neighbors of the tile with the specified position, assuming
/// the tile exists on a [`Hexagon`](crate::map::TilemapType::Hexagon) tilemap with
/// coordinate system [`HexCoordSystem::Column`](crate::map::HexCoordSystem::Column), by direct
/// steps on the tile coordinates.
///
/// Directions whose tile coordinates would lie off the map are set to `None`.
pub fn hex_col_neighbor_pos(tile_pos: &TilePos, tilemap_size: &TilemapSize) -> (n: Neighbors<TilePos>)
    requires
        tilemap_size.x >= 1,
        tilemap_size.y >= 1,
    ensures
        n == hex_col_neighbor_positions(*tile_pos, *tilemap_size),
{
    Neighbors {
        north: tile_pos.hex_col_north(tilemap_size),
        north_west: tile_pos.hex_col_north_west(tilemap_size),
        west: None,
        south_west: tile_pos.hex_col_south_west(),
        south: tile_pos.hex_col_south(),
        south_east: tile_pos.hex_col_south_east(tilemap_size),
        east: None,
        north_east: tile_pos.hex_col_north_east(tilemap_size),
    }
}

/// The neighborhood that [`hex_col_odd_neighbor_pos`] returns: even columns are shifted half a
/// tile to the north of odd columns, so the diagonal steps depend on the parity of the column.
pub open spec fn hex_col_odd_neighbor_positions(tile_pos: TilePos, tilemap_size: TilemapSize) -> Neighbors<TilePos> {
    Neighbors {
        north: tile_pos.offset_within(0, 1, tilemap_size),
        north_west: if tile_pos.x % 2 == 0 {
            tile_pos.offset_within(-1, 1, tilemap_size)
        } else {
            tile_pos.offset_within(-1, 0, tilemap_size)
        },
        west: None,
        south_west: if tile_pos.x % 2 == 0 {
            tile_pos.offset_within(-1, 0, tilemap_size)
        } else {
            tile_pos.offset_within(-1, -1, tilemap_size)
        },
        south: tile_pos.offset_within(0, -1, tilemap_size),
        south_east: if tile_pos.x % 2 == 0 {
            tile_pos.offset_within(1, 0, tilemap_size)
        } else {
            tile_pos.offset_within(1, -1, tilemap_size)
        },
        east: None,
        north_east: if tile_pos.x % 2 == 0 {
            tile_pos.offset_within(1, 1, tilemap_size)
        } else {
            tile_pos.offset_within(1, 0, tilemap_size)
        },
    }
}

/// Retrieves the positions of neighbors of the tile with the specified position, assuming
/// the tile exists on a [`Hexagon`](crate::map::TilemapType::Hexagon) tilemap with
/// coordinate system [`HexCoordSystem::ColumnOdd`](crate::map::HexCoordSystem::ColumnOdd), by direct
/// steps on the tile coordinates.
///
/// Directions whose tile coordinates would lie off the map are set to `None`.
pub fn hex_col_odd_neighbor_pos(tile_pos: &TilePos, tilemap_size: &TilemapSize) -> (n: Neighbors<TilePos>)
    requires
        tilemap_size.x >= 1,
        tilemap_size.y >= 1,
    ensures
        n == hex_col_odd_neighbor_positions(*tile_pos, *tilemap_size),
{
    Neighbors {
        north: tile_pos.hex_col_odd_north(tilemap_size),
        north_west: tile_pos.hex_col_odd_north_west(tilemap_size),
        west: None,
        south_west: tile_pos.hex_col_odd_south_west(),
        south: tile_pos.hex_col_odd_south(),
        south_east: tile_pos.hex_col_odd_south_east(tilemap_size),
        east: None,
        north_east: tile_pos.hex_col_odd_north_east(tilemap_size),
    }
}

/// The neighborhood that [`hex_col_even_neighbor_pos`] returns: odd columns are shifted half a
/// tile to the north of even columns, so the diagonal steps depend on the parity of the
/// column.
pub open spec fn hex_col_even_neighbor_positions(tile_pos: TilePos, tilemap_size: TilemapSize) -> Neighbors<TilePos> {
    Neighbors {
        north: tile_pos.offset_within(0, 1, tilemap_size),
        north_west: if tile_pos.x % 2 == 0 {
            tile_pos.offset_within(-1, 0, tilemap_size)
        } else {
            tile_pos.offset_within(-1, 1, tilemap_size)
        },
        west: None,
        south_west: if tile_pos.x % 2 == 0 {
            tile_pos.offset_within(-1, -1, tilemap_size)
        } else {
            tile_pos.offset_within(-1, 0, tilemap_size)
        },
        south: tile_pos.offset_within(0, -1, tilemap_size),
        south_east: if tile_pos.x % 2 == 0 {
            tile_pos.offset_within(1, -1, tilemap_size)
        } else {
            tile_pos.offset_within(1, 0, tilemap_size)
        },
        east: None,
        north_east: if tile_pos.x % 2 == 0 {
            tile_pos.offset_within(1, 0, tilemap_size)
        } else {
            tile_pos.offset_within(1, 1, tilemap_size)
        },
    }
}

/// Retrieves the positions of neighbors of the tile with the specified position, assuming
/// the tile exists on a [`Hexagon`](crate::map::TilemapType::Hexagon) tilemap with
/// coordinate system [`HexCoordSystem::ColumnEven`](crate::map::HexCoordSystem::ColumnEven), by direct
/// steps on the tile coordinates.
///
/// Directions whose tile coordinates would lie off the map are set to `None`.
pub fn hex_col_even_neighbor_pos(tile_pos: &TilePos, tilemap_size: &TilemapSize) -> (n: Neighbors<TilePos>)
    requires
        tilemap_size.x >= 1,
        tilemap_size.y >= 1,
    ensures
        n == hex_col_even_neighbor_positions(*tile_pos, *tilemap_size),
{
    Neighbors {
        north: tile_pos.hex_col_even_north(tilemap_size),
        north_west: tile_pos.hex_col_even_north_west(tilemap_size),
        west: None,
        south_west: tile_pos.hex_col_even_south_west(),
        south: tile_pos.hex_col_even_south(),
        south_east: tile_pos.hex_col_even_south_east(tilemap_size),
        east: None,
        north_east: tile_pos.hex_col_even_north_east(tilemap_size),
    }
}

/// The neighborhood that the `hex_*_neighbor_pos` function of the given coordinate system
/// returns.
pub open spec fn tile_hex_neighbor_positions(
    tile_pos: TilePos,
    tilemap_size: TilemapSize,
    coord_sys: HexCoordSystem,
) -> Neighbors<TilePos> {
    match coord_sys {
        HexCoordSystem::Row => hex_row_neighbor_positions(tile_pos, tilemap_size),
        HexCoordSystem::RowOdd => hex_row_odd_neighbor_positions(tile_pos, tilemap_size),
        HexCoordSystem::RowEven => hex_row_even_neighbor_positions(tile_pos, tilemap_size),
        HexCoordSystem::Column => hex_col_neighbor_positions(tile_pos, tilemap_size),
        HexCoordSystem::ColumnOdd => hex_col_odd_neighbor_positions(tile_pos, tilemap_size),
        HexCoordSystem::ColumnEven => hex_col_even_neighbor_positions(tile_pos, tilemap_size),
    }
}

/// Hex neighborhood by direct tile steps is symmetric in every coordinate system: when `b` is
/// the neighbor of `a` in direction `k` (`0..8`, from north counter-clockwise), `a` is the
/// neighbor of `b` in the opposite direction `(k + 4) % 8`.
pub proof fn lemma_tile_hex_neighbors_symmetric(
    a: TilePos,
    tilemap_size: TilemapSize,
    coord_sys: HexCoordSystem,
    k: nat,
)
    requires
        k < 8,
        a.in_bounds(tilemap_size),
        tile_hex_neighbor_positions(a, tilemap_size, coord_sys).slot(k) is Some,
    ensures
        tile_hex_neighbor_positions(
            tile_hex_neighbor_positions(a, tilemap_size, coord_sys).slot(k)->0,
            tilemap_size,
            coord_sys,
        ).slot(((k + 4) % 8) as nat) == Some(a),
{
    let b = tile_hex_neighbor_positions(a, tilemap_size, coord_sys).slot(k)->0;
    let back = ((k + 4) % 8) as nat;
    assert(b.y == a.y + 1 || b.y == a.y - 1 ==> b.y % 2 != a.y % 2);
    assert(b.x == a.x + 1 || b.x == a.x - 1 ==> b.x % 2 != a.x % 2);
    if k == 0 {
        assert(back == 4);
    } else if k == 1 {
        assert(back == 5);
    } else if k == 2 {
        assert(back == 6);
    } else if k == 3 {
        assert(back == 7);
    } else if k == 4 {
        assert(back == 0);
    } else if k == 5 {
        assert(back == 1);
    } else if k == 6 {
        assert(back == 2);
    } else {
        assert(back == 3);
    }
}

/// A step of `(dx, dy)` tiles finds the same neighbor as the axial step `direction` when the
/// axial step lands on that tile, or when both land off the map on the negative side.
proof fn lemma_tile_step_is_axial_step(
    tile_pos: TilePos,
    tilemap_size: TilemapSize,
    coord_sys: HexCoordSystem,
    direction: HexDirection,
    dx: int,
    dy: int,
)
    requires
        tile_pos.in_bounds(tilemap_size),
        -1 <= dx <= 1,
        -1 <= dy <= 1,
        ({
            let c = coords_in_system(axial_of_tile(tile_pos, coord_sys).shifted(direction), coord_sys);
            &&& (tile_pos.x + dx >= 0 && tile_pos.y + dy >= 0) ==> c.0 == tile_pos.x + dx && c.1
                == tile_pos.y + dy
            &&& (tile_pos.x + dx < 0 || tile_pos.y + dy < 0) ==> (c.0 < 0 || c.1 < 0)
        }),
    ensures
        hex_neighbor_on_map(tile_pos, coord_sys, tilemap_size, direction) == tile_pos.offset_within(
            dx,
            dy,
            tilemap_size,
        ),
{
}

#[verifier::spinoff_prover]
proof fn lemma_row_layout_is_axial(tile_pos: TilePos, tilemap_size: TilemapSize)
    requires
        tile_pos.in_bounds(tilemap_size),
        tile_pos.x < i32::MAX,
        tile_pos.y < i32::MAX,
    ensures
        hex_row_neighbor_positions(tile_pos, tilemap_size).north is None,
        hex_row_neighbor_positions(tile_pos, tilemap_size).south is None,
        hex_row_neighbor_positions(tile_pos, tilemap_size).east == hex_neighbor_on_map(tile_pos, HexCoordSystem::Row, tilemap_size, HexDirection::Zero),
        hex_row_neighbor_positions(tile_pos, tilemap_size).north_east == hex_neighbor_on_map(tile_pos, HexCoordSystem::Row, tilemap_size, HexDirection::One),
        hex_row_neighbor_positions(tile_pos, tilemap_size).north_west == hex_neighbor_on_map(tile_pos, HexCoordSystem::Row, tilemap_size, HexDirection::Two),
        hex_row_neighbor_positions(tile_pos, tilemap_size).west == hex_neighbor_on_map(tile_pos, HexCoordSystem::Row, tilemap_size, HexDirection::Three),
        hex_row_neighbor_positions(tile_pos, tilemap_size).south_west == hex_neighbor_on_map(tile_pos, HexCoordSystem::Row, tilemap_size, HexDirection::Four),
        hex_row_neighbor_positions(tile_pos, tilemap_size).south_east == hex_neighbor_on_map(tile_pos, HexCoordSystem::Row, tilemap_size, HexDirection::Five),
{
    if tile_pos.y % 2 == 0 {
        lemma_tile_step_is_axial_step(tile_pos, tilemap_size, HexCoordSystem::Row, HexDirection::Zero, 1, 0);
        lemma_tile_step_is_axial_step(tile_pos, tilemap_size, HexCoordSystem::Row, HexDirection::One, 0, 1);
        lemma_tile_step_is_axial_step(tile_pos, tilemap_size, HexCoordSystem::Row, HexDirection::Two, -1, 1);
        lemma_tile_step_is_axial_step(tile_pos, tilemap_size, HexCoordSystem::Row, HexDirection::Three, -1, 0);
        lemma_tile_step_is_axial_step(tile_pos, tilemap_size, HexCoordSystem::Row, HexDirection::Four, 0, -1);
        lemma_tile_step_is_axial_step(tile_pos, tilemap_size, HexCoordSystem::Row, HexDirection::Five, 1, -1);
    } else {
        lemma_tile_step_is_axial_step(tile_pos, tilemap_size, HexCoordSystem::Row, HexDirection::Zero, 1, 0);
        lemma_tile_step_is_axial_step(tile_pos, tilemap_size, HexCoordSystem::Row, HexDirection::One, 0, 1);
        lemma_tile_step_is_axial_step(tile_pos, tilemap_size, HexCoordSystem::Row, HexDirection::Two, -1, 1);
        lemma_tile_step_is_axial_step(tile_pos, tilemap_size, HexCoordSystem::Row, HexDirection::Three, -1, 0);
        lemma_tile_step_is_axial_step(tile_pos, tilemap_size, HexCoordSystem::Row, HexDirection::Four, 0, -1);
        lemma_tile_step_is_axial_step(tile_pos, tilemap_size, HexCoordSystem::Row, HexDirection::Five, 1, -1);
    }
}

#[verifier::spinoff_prover]
proof fn lemma_row_odd_layout_is_axial(tile_pos: TilePos, tilemap_size: TilemapSize)
    requires
        tile_pos.in_bounds(tilemap_size),
        tile_pos.x < i32::MAX,
        tile_pos.y < i32::MAX,
    ensures
        hex_row_odd_neighbor_positions(tile_pos, tilemap_size).north is None,
        hex_row_odd_neighbor_positions(tile_pos, tilemap_size).south is None,
        hex_row_odd_neighbor_positions(tile_pos, tilemap_size).east == hex_neighbor_on_map(tile_pos, HexCoordSystem::RowEven, tilemap_size, HexDirection::Zero),
        hex_row_odd_neighbor_positions(tile_pos, tilemap_size).north_east == hex_neighbor_on_map(tile_pos, HexCoordSystem::RowEven, tilemap_size, HexDirection::One),
        hex_row_odd_neighbor_positions(tile_pos, tilemap_size).north_west == hex_neighbor_on_map(tile_pos, HexCoordSystem::RowEven, tilemap_size, HexDirection::Two),
        hex_row_odd_neighbor_positions(tile_pos, tilemap_size).west == hex_neighbor_on_map(tile_pos, HexCoordSystem::RowEven, tilemap_size, HexDirection::Three),
        hex_row_odd_neighbor_positions(tile_pos, tilemap_size).south_west == hex_neighbor_on_map(tile_pos, HexCoordSystem::RowEven, tilemap_size, HexDirection::Four),
        hex_row_odd_neighbor_positions(tile_pos, tilemap_size).south_east == hex_neighbor_on_map(tile_pos, HexCoordSystem::RowEven, tilemap_size, HexDirection::Five),
{
    if tile_pos.y % 2 == 0 {
        lemma_tile_step_is_axial_step(tile_pos, tilemap_size, HexCoordSystem::RowEven, HexDirection::Zero, 1, 0);
        lemma_tile_step_is_axial_step(tile_pos, tilemap_size, HexCoordSystem::RowEven, HexDirection::One, 1, 1);
        lemma_tile_step_is_axial_step(tile_pos, tilemap_size, HexCoordSystem::RowEven, HexDirection::Two, 0, 1);
        lemma_tile_step_is_axial_step(tile_pos, tilemap_size, HexCoordSystem::RowEven, HexDirection::Three, -1, 0);
        lemma_tile_step_is_axial_step(tile_pos, tilemap_size, HexCoordSystem::RowEven, HexDirection::Four, 0, -1);
        lemma_tile_step_is_axial_step(tile_pos, tilemap_size, HexCoordSystem::RowEven, HexDirection::Five, 1, -1);
    } else {
        lemma_tile_step_is_axial_step(tile_pos, tilemap_size, HexCoordSystem::RowEven, HexDirection::Zero, 1, 0);
        lemma_tile_step_is_axial_step(tile_pos, tilemap_size, HexCoordSystem::RowEven, HexDirection::One, 0, 1);
        lemma_tile_step_is_axial_step(tile_pos, tilemap_size, HexCoordSystem::RowEven, HexDirection::Two, -1, 1);
        lemma_tile_step_is_axial_step(tile_pos, tilemap_size, HexCoordSystem::RowEven, HexDirection::Three, -1, 0);
        lemma_tile_step_is_axial_step(tile_pos, tilemap_size, HexCoordSystem::RowEven, HexDirection::Four, -1, -1);
        lemma_tile_step_is_axial_step(tile_pos, tilemap_size, HexCoordSystem::RowEven, HexDirection::Five, 0, -1);
    }
}

#[verifier::spinoff_prover]
proof fn lemma_row_even_layout_is_axial(tile_pos: TilePos, tilemap_size: TilemapSize)
    requires
        tile_pos.in_bounds(tilemap_size),
        tile_pos.x < i32::MAX,
        tile_pos.y < i32::MAX,
    ensures
        hex_row_even_neighbor_positions(tile_pos, tilemap_size).north is None,
        hex_row_even_neighbor_positions(tile_pos, tilemap_size).south is None,
        hex_row_even_neighbor_positions(tile_pos, tilemap_size).east == hex_neighbor_on_map(tile_pos, HexCoordSystem::RowOdd, tilemap_size, HexDirection::Zero),
        hex_row_even_neighbor_positions(tile_pos, tilemap_size).north_east == hex_neighbor_on_map(tile_pos, HexCoordSystem::RowOdd, tilemap_size, HexDirection::One),
        hex_row_even_neighbor_positions(tile_pos, tilemap_size).north_west == hex_neighbor_on_map(tile_pos, HexCoordSystem::RowOdd, tilemap_size, HexDirection::Two),
        hex_row_even_neighbor_positions(tile_pos, tilemap_size).west == hex_neighbor_on_map(tile_pos, HexCoordSystem::RowOdd, tilemap_size, HexDirection::Three),
        hex_row_even_neighbor_positions(tile_pos, tilemap_size).south_west == hex_neighbor_on_map(tile_pos, HexCoordSystem::RowOdd, tilemap_size, HexDirection::Four),
        hex_row_even_neighbor_positions(tile_pos, tilemap_size).south_east == hex_neighbor_on_map(tile_pos, HexCoordSystem::RowOdd, tilemap_size, HexDirection::Five),
{
    if tile_pos.y % 2 == 0 {
        lemma_tile_step_is_axial_step(tile_pos, tilemap_size, HexCoordSystem::RowOdd, HexDirection::Zero, 1, 0);
        lemma_tile_step_is_axial_step(tile_pos, tilemap_size, HexCoordSystem::RowOdd, HexDirection::One, 0, 1);
        lemma_tile_step_is_axial_step(tile_pos, tilemap_size, HexCoordSystem::RowOdd, HexDirection::Two, -1, 1);
        lemma_tile_step_is_axial_step(tile_pos, tilemap_size, HexCoordSystem::RowOdd, HexDirection::Three, -1, 0);
        lemma_tile_step_is_axial_step(tile_pos, tilemap_size, HexCoordSystem::RowOdd, HexDirection::Four, -1, -1);
        lemma_tile_step_is_axial_step(tile_pos, tilemap_size, HexCoordSystem::RowOdd, HexDirection::Five, 0, -1);
    } else {
        lemma_tile_step_is_axial_step(tile_pos, tilemap_size, HexCoordSystem::RowOdd, HexDirection::Zero, 1, 0);
        lemma_tile_step_is_axial_step(tile_pos, tilemap_size, HexCoordSystem::RowOdd, HexDirection::One, 1, 1);
        lemma_tile_step_is_axial_step(tile_pos, tilemap_size, HexCoordSystem::RowOdd, HexDirection::Two, 0, 1);
        lemma_tile_step_is_axial_step(tile_pos, tilemap_size, HexCoordSystem::RowOdd, HexDirection::Three, -1, 0);
        lemma_tile_step_is_axial_step(tile_pos, tilemap_size, HexCoordSystem::RowOdd, HexDirection::Four, 0, -1);
        lemma_tile_step_is_axial_step(tile_pos, tilemap_size, HexCoordSystem::RowOdd, HexDirection::Five, 1, -1);
    }
}

#[verifier::spinoff_prover]
proof fn lemma_col_layout_is_axial(tile_pos: TilePos, tilemap_size: TilemapSize)
    requires
        tile_pos.in_bounds(tilemap_size),
        tile_pos.x < i32::MAX,
        tile_pos.y < i32::MAX,
    ensures
        hex_col_neighbor_positions(tile_pos, tilemap_size).west is None,
        hex_col_neighbor_positions(tile_pos, tilemap_size).east is None,
        hex_col_neighbor_positions(tile_pos, tilemap_size).north_east == hex_neighbor_on_map(tile_pos, HexCoordSystem::Column, tilemap_size, HexDirection::Zero),
        hex_col_neighbor_positions(tile_pos, tilemap_size).north == hex_neighbor_on_map(tile_pos, HexCoordSystem::Column, tilemap_size, HexDirection::One),
        hex_col_neighbor_positions(tile_pos, tilemap_size).north_west == hex_neighbor_on_map(tile_pos, HexCoordSystem::Column, tilemap_size, HexDirection::Two),
        hex_col_neighbor_positions(tile_pos, tilemap_size).south_west == hex_neighbor_on_map(tile_pos, HexCoordSystem::Column, tilemap_size, HexDirection::Three),
        hex_col_neighbor_positions(tile_pos, tilemap_size).south == hex_neighbor_on_map(tile_pos, HexCoordSystem::Column, tilemap_size, HexDirection::Four),
        hex_col_neighbor_positions(tile_pos, tilemap_size).south_east == hex_neighbor_on_map(tile_pos, HexCoordSystem::Column, tilemap_size, HexDirection::Five),
{
    if tile_pos.x % 2 == 0 {
        lemma_tile_step_is_axial_step(tile_pos, tilemap_size, HexCoordSystem::Column, HexDirection::Zero, 1, 0);
        lemma_tile_step_is_axial_step(tile_pos, tilemap_size, HexCoordSystem::Column, HexDirection::One, 0, 1);
        lemma_tile_step_is_axial_step(tile_pos, tilemap_size, HexCoordSystem::Column, HexDirection::Two, -1, 1);
        lemma_tile_step_is_axial_step(tile_pos, tilemap_size, HexCoordSystem::Column, HexDirection::Three, -1, 0);
        lemma_tile_step_is_axial_step(tile_pos, tilemap_size, HexCoordSystem::Column, HexDirection::Four, 0, -1);
        lemma_tile_step_is_axial_step(tile_pos, tilemap_size, HexCoordSystem::Column, HexDirection::Five, 1, -1);
    } else {
        lemma_tile_step_is_axial_step(tile_pos, tilemap_size, HexCoordSystem::Column, HexDirection::Zero, 1, 0);
        lemma_tile_step_is_axial_step(tile_pos, tilemap_size, HexCoordSystem::Column, HexDirection::One, 0, 1);
        lemma_tile_step_is_axial_step(tile_pos, tilemap_size, HexCoordSystem::Column, HexDirection::Two, -1, 1);
        lemma_tile_step_is_axial_step(tile_pos, tilemap_size, HexCoordSystem::Column, HexDirection::Three, -1, 0);
        lemma_tile_step_is_axial_step(tile_pos, tilemap_size, HexCoordSystem::Column, HexDirection::Four, 0, -1);
        lemma_tile_step_is_axial_step(tile_pos, tilemap_size, HexCoordSystem::Column, HexDirection::Five, 1, -1);
    }
}

#[verifier::spinoff_prover]
proof fn lemma_col_odd_layout_is_axial(tile_pos: TilePos, tilemap_size: TilemapSize)
    requires
        tile_pos.in_bounds(tilemap_size),
        tile_pos.x < i32::MAX,
        tile_pos.y < i32::MAX,
    ensures
        hex_col_odd_neighbor_positions(tile_pos, tilemap_size).west is None,
        hex_col_odd_neighbor_positions(tile_pos, tilemap_size).east is None,
        hex_col_odd_neighbor_positions(tile_pos, tilemap_size).north_east == hex_neighbor_on_map(tile_pos, HexCoordSystem::ColumnEven, tilemap_size, HexDirection::Zero),
        hex_col_odd_neighbor_positions(tile_pos, tilemap_size).north == hex_neighbor_on_map(tile_pos, HexCoordSystem::ColumnEven, tilemap_size, HexDirection::One),
        hex_col_odd_neighbor_positions(tile_pos, tilemap_size).north_west == hex_neighbor_on_map(tile_pos, HexCoordSystem::ColumnEven, tilemap_size, HexDirection::Two),
        hex_col_odd_neighbor_positions(tile_pos, tilemap_size).south_west == hex_neighbor_on_map(tile_pos, HexCoordSystem::ColumnEven, tilemap_size, HexDirection::Three),
        hex_col_odd_neighbor_positions(tile_pos, tilemap_size).south == hex_neighbor_on_map(tile_pos, HexCoordSystem::ColumnEven, tilemap_size, HexDirection::Four),
        hex_col_odd_neighbor_positions(tile_pos, tilemap_size).south_east == hex_neighbor_on_map(tile_pos, HexCoordSystem::ColumnEven, tilemap_size, HexDirection::Five),
{
    if tile_pos.x % 2 == 0 {
        lemma_tile_step_is_axial_step(tile_pos, tilemap_size, HexCoordSystem::ColumnEven, HexDirection::Zero, 1, 1);
        lemma_tile_step_is_axial_step(tile_pos, tilemap_size, HexCoordSystem::ColumnEven, HexDirection::One, 0, 1);
        lemma_tile_step_is_axial_step(tile_pos, tilemap_size, HexCoordSystem::ColumnEven, HexDirection::Two, -1, 1);
        lemma_tile_step_is_axial_step(tile_pos, tilemap_size, HexCoordSystem::ColumnEven, HexDirection::Three, -1, 0);
        lemma_tile_step_is_axial_step(tile_pos, tilemap_size, HexCoordSystem::ColumnEven, HexDirection::Four, 0, -1);
        lemma_tile_step_is_axial_step(tile_pos, tilemap_size, HexCoordSystem::ColumnEven, HexDirection::Five, 1, 0);
    } else {
        lemma_tile_step_is_axial_step(tile_pos, tilemap_size, HexCoordSystem::ColumnEven, HexDirection::Zero, 1, 0);
        lemma_tile_step_is_axial_step(tile_pos, tilemap_size, HexCoordSystem::ColumnEven, HexDirection::One, 0, 1);
        lemma_tile_step_is_axial_step(tile_pos, tilemap_size, HexCoordSystem::ColumnEven, HexDirection::Two, -1, 0);
        lemma_tile_step_is_axial_step(tile_pos, tilemap_size, HexCoordSystem::ColumnEven, HexDirection::Three, -1, -1);
        lemma_tile_step_is_axial_step(tile_pos, tilemap_size, HexCoordSystem::ColumnEven, HexDirection::Four, 0, -1);
        lemma_tile_step_is_axial_step(tile_pos, tilemap_size, HexCoordSystem::ColumnEven, HexDirection::Five, 1, -1);
    }
}

#[verifier::spinoff_prover]
proof fn lemma_col_even_layout_is_axial(tile_pos: TilePos, tilemap_size: TilemapSize)
    requires
        tile_pos.in_bounds(tilemap_size),
        tile_pos.x < i32::MAX,
        tile_pos.y < i32::MAX,
    ensures
        hex_col_even_neighbor_positions(tile_pos, tilemap_size).west is None,
        hex_col_even_neighbor_positions(tile_pos, tilemap_size).east is None,
        hex_col_even_neighbor_positions(tile_pos, tilemap_size).north_east == hex_neighbor_on_map(tile_pos, HexCoordSystem::ColumnOdd, tilemap_size, HexDirection::Zero),
        hex_col_even_neighbor_positions(tile_pos, tilemap_size).north == hex_neighbor_on_map(tile_pos, HexCoordSystem::ColumnOdd, tilemap_size, HexDirection::One),
        hex_col_even_neighbor_positions(tile_pos, tilemap_size).north_west == hex_neighbor_on_map(tile_pos, HexCoordSystem::ColumnOdd, tilemap_size, HexDirection::Two),
        hex_col_even_neighbor_positions(tile_pos, tilemap_size).south_west == hex_neighbor_on_map(tile_pos, HexCoordSystem::ColumnOdd, tilemap_size, HexDirection::Three),
        hex_col_even_neighbor_positions(tile_pos, tilemap_size).south == hex_neighbor_on_map(tile_pos, HexCoordSystem::ColumnOdd, tilemap_size, HexDirection::Four),
        hex_col_even_neighbor_positions(tile_pos, tilemap_size).south_east == hex_neighbor_on_map(tile_pos, HexCoordSystem::ColumnOdd, tilemap_size, HexDirection::Five),
{
    if tile_pos.x % 2 == 0 {
        lemma_tile_step_is_axial_step(tile_pos, tilemap_size, HexCoordSystem::ColumnOdd, HexDirection::Zero, 1, 0);
        lemma_tile_step_is_axial_step(tile_pos, tilemap_size, HexCoordSystem::ColumnOdd, HexDirection::One, 0, 1);
        lemma_tile_step_is_axial_step(tile_pos, tilemap_size, HexCoordSystem::ColumnOdd, HexDirection::Two, -1, 0);
        lemma_tile_step_is_axial_step(tile_pos, tilemap_size, HexCoordSystem::ColumnOdd, HexDirection::Three, -1, -1);
        lemma_tile_step_is_axial_step(tile_pos, tilemap_size, HexCoordSystem::ColumnOdd, HexDirection::Four, 0, -1);
        lemma_tile_step_is_axial_step(tile_pos, tilemap_size, HexCoordSystem::ColumnOdd, HexDirection::Five, 1, -1);
    } else {
        lemma_tile_step_is_axial_step(tile_pos, tilemap_size, HexCoordSystem::ColumnOdd, HexDirection::Zero, 1, 1);
        lemma_tile_step_is_axial_step(tile_pos, tilemap_size, HexCoordSystem::ColumnOdd, HexDirection::One, 0, 1);
        lemma_tile_step_is_axial_step(tile_pos, tilemap_size, HexCoordSystem::ColumnOdd, HexDirection::Two, -1, 1);
        lemma_tile_step_is_axial_step(tile_pos, tilemap_size, HexCoordSystem::ColumnOdd, HexDirection::Three, -1, 0);
        lemma_tile_step_is_axial_step(tile_pos, tilemap_size, HexCoordSystem::ColumnOdd, HexDirection::Four, 0, -1);
        lemma_tile_step_is_axial_step(tile_pos, tilemap_size, HexCoordSystem::ColumnOdd, HexDirection::Five, 1, 0);
    }
}

/// The direct tile steps of each hexagonal layout find the same neighbors as the axial steps of
/// [`HexNeighbors::get_neighboring_positions`](crate::helpers::hex_grid::neighbors::HexNeighbors::get_neighboring_positions)
/// for the coordinate system with the same shape: `Row` and `Column` match `Row` and `Column`;
/// the odd-row layout, whose even rows lie half a tile east of its odd rows, matches `RowEven`;
/// the even-row layout matches `RowOdd`; the odd-column layout, whose even columns lie half a
/// tile north of its odd columns, matches `ColumnEven`; and the even-column layout matches
/// `ColumnOdd`. A row layout has no north or south neighbor and holds the steps `Zero` to
/// `Five` from east counter-clockwise; a column layout has no east or west neighbor and holds
/// them from north-east counter-clockwise.
pub proof fn lemma_tile_hex_layouts_are_axial_layouts(tile_pos: TilePos, tilemap_size: TilemapSize)
    requires
        tile_pos.in_bounds(tilemap_size),
        tile_pos.x < i32::MAX,
        tile_pos.y < i32::MAX,
    ensures
        hex_row_neighbor_positions(tile_pos, tilemap_size).north is None,
        hex_row_neighbor_positions(tile_pos, tilemap_size).south is None,
        hex_row_neighbor_positions(tile_pos, tilemap_size).east == hex_neighbor_on_map(
            tile_pos,
            HexCoordSystem::Row,
            tilemap_size,
            HexDirection::Zero,
        ),
        hex_row_neighbor_positions(tile_pos, tilemap_size).north_east == hex_neighbor_on_map(
            tile_pos,
            HexCoordSystem::Row,
            tilemap_size,
            HexDirection::One,
        ),
        hex_row_neighbor_positions(tile_pos, tilemap_size).north_west == hex_neighbor_on_map(
            tile_pos,
            HexCoordSystem::Row,
            tilemap_size,
            HexDirection::Two,
        ),
        hex_row_neighbor_positions(tile_pos, tilemap_size).west == hex_neighbor_on_map(
            tile_pos,
            HexCoordSystem::Row,
            tilemap_size,
            HexDirection::Three,
        ),
        hex_row_neighbor_positions(tile_pos, tilemap_size).south_west == hex_neighbor_on_map(
            tile_pos,
            HexCoordSystem::Row,
            tilemap_size,
            HexDirection::Four,
        ),
        hex_row_neighbor_positions(tile_pos, tilemap_size).south_east == hex_neighbor_on_map(
            tile_pos,
            HexCoordSystem::Row,
            tilemap_size,
            HexDirection::Five,
        ),
        hex_row_odd_neighbor_positions(tile_pos, tilemap_size).north is None,
        hex_row_odd_neighbor_positions(tile_pos, tilemap_size).south is None,
        hex_row_odd_neighbor_positions(tile_pos, tilemap_size).east == hex_neighbor_on_map(
            tile_pos,
            HexCoordSystem::RowEven,
            tilemap_size,
            HexDirection::Zero,
        ),
        hex_row_odd_neighbor_positions(tile_pos, tilemap_size).north_east == hex_neighbor_on_map(
            tile_pos,
            HexCoordSystem::RowEven,
            tilemap_size,
            HexDirection::One,
        ),
        hex_row_odd_neighbor_positions(tile_pos, tilemap_size).north_west == hex_neighbor_on_map(
            tile_pos,
            HexCoordSystem::RowEven,
            tilemap_size,
            HexDirection::Two,
        ),
        hex_row_odd_neighbor_positions(tile_pos, tilemap_size).west == hex_neighbor_on_map(
            tile_pos,
            HexCoordSystem::RowEven,
            tilemap_size,
            HexDirection::Three,
        ),
        hex_row_odd_neighbor_positions(tile_pos, tilemap_size).south_west == hex_neighbor_on_map(
            tile_pos,
            HexCoordSystem::RowEven,
            tilemap_size,
            HexDirection::Four,
        ),
        hex_row_odd_neighbor_positions(tile_pos, tilemap_size).south_east == hex_neighbor_on_map(
            tile_pos,
            HexCoordSystem::RowEven,
            tilemap_size,
            HexDirection::Five,
        ),
        hex_row_even_neighbor_positions(tile_pos, tilemap_size).north is None,
        hex_row_even_neighbor_positions(tile_pos, tilemap_size).south is None,
        hex_row_even_neighbor_positions(tile_pos, tilemap_size).east == hex_neighbor_on_map(
            tile_pos,
            HexCoordSystem::RowOdd,
            tilemap_size,
            HexDirection::Zero,
        ),
        hex_row_even_neighbor_positions(tile_pos, tilemap_size).north_east == hex_neighbor_on_map(
            tile_pos,
            HexCoordSystem::RowOdd,
            tilemap_size,
            HexDirection::One,
        ),
        hex_row_even_neighbor_positions(tile_pos, tilemap_size).north_west == hex_neighbor_on_map(
            tile_pos,
            HexCoordSystem::RowOdd,
            tilemap_size,
            HexDirection::Two,
        ),
        hex_row_even_neighbor_positions(tile_pos, tilemap_size).west == hex_neighbor_on_map(
            tile_pos,
            HexCoordSystem::RowOdd,
            tilemap_size,
            HexDirection::Three,
        ),
        hex_row_even_neighbor_positions(tile_pos, tilemap_size).south_west == hex_neighbor_on_map(
            tile_pos,
            HexCoordSystem::RowOdd,
            tilemap_size,
            HexDirection::Four,
        ),
        hex_row_even_neighbor_positions(tile_pos, tilemap_size).south_east == hex_neighbor_on_map(
            tile_pos,
            HexCoordSystem::RowOdd,
            tilemap_size,
            HexDirection::Five,
        ),
        hex_col_neighbor_positions(tile_pos, tilemap_size).west is None,
        hex_col_neighbor_positions(tile_pos, tilemap_size).east is None,
        hex_col_neighbor_positions(tile_pos, tilemap_size).north_east == hex_neighbor_on_map(
            tile_pos,
            HexCoordSystem::Column,
            tilemap_size,
            HexDirection::Zero,
        ),
        hex_col_neighbor_positions(tile_pos, tilemap_size).north == hex_neighbor_on_map(
            tile_pos,
            HexCoordSystem::Column,
            tilemap_size,
            HexDirection::One,
        ),
        hex_col_neighbor_positions(tile_pos, tilemap_size).north_west == hex_neighbor_on_map(
            tile_pos,
            HexCoordSystem::Column,
            tilemap_size,
            HexDirection::Two,
        ),
        hex_col_neighbor_positions(tile_pos, tilemap_size).south_west == hex_neighbor_on_map(
            tile_pos,
            HexCoordSystem::Column,
            tilemap_size,
            HexDirection::Three,
        ),
        hex_col_neighbor_positions(tile_pos, tilemap_size).south == hex_neighbor_on_map(
            tile_pos,
            HexCoordSystem::Column,
            tilemap_size,
            HexDirection::Four,
        ),
        hex_col_neighbor_positions(tile_pos, tilemap_size).south_east == hex_neighbor_on_map(
            tile_pos,
            HexCoordSystem::Column,
            tilemap_size,
            HexDirection::Five,
        ),
        hex_col_odd_neighbor_positions(tile_pos, tilemap_size).west is None,
        hex_col_odd_neighbor_positions(tile_pos, tilemap_size).east is None,
        hex_col_odd_neighbor_positions(tile_pos, tilemap_size).north_east == hex_neighbor_on_map(
            tile_pos,
            HexCoordSystem::ColumnEven,
            tilemap_size,
            HexDirection::Zero,
        ),
        hex_col_odd_neighbor_positions(tile_pos, tilemap_size).north == hex_neighbor_on_map(
            tile_pos,
            HexCoordSystem::ColumnEven,
            tilemap_size,
            HexDirection::One,
        ),
        hex_col_odd_neighbor_positions(tile_pos, tilemap_size).north_west == hex_neighbor_on_map(
            tile_pos,
            HexCoordSystem::ColumnEven,
            tilemap_size,
            HexDirection::Two,
        ),
        hex_col_odd_neighbor_positions(tile_pos, tilemap_size).south_west == hex_neighbor_on_map(
            tile_pos,
            HexCoordSystem::ColumnEven,
            tilemap_size,
            HexDirection::Three,
        ),
        hex_col_odd_neighbor_positions(tile_pos, tilemap_size).south == hex_neighbor_on_map(
            tile_pos,
            HexCoordSystem::ColumnEven,
            tilemap_size,
            HexDirection::Four,
        ),
        hex_col_odd_neighbor_positions(tile_pos, tilemap_size).south_east == hex_neighbor_on_map(
            tile_pos,
            HexCoordSystem::ColumnEven,
            tilemap_size,
            HexDirection::Five,
        ),
        hex_col_even_neighbor_positions(tile_pos, tilemap_size).west is None,
        hex_col_even_neighbor_positions(tile_pos, tilemap_size).east is None,
        hex_col_even_neighbor_positions(tile_pos, tilemap_size).north_east == hex_neighbor_on_map(
            tile_pos,
            HexCoordSystem::ColumnOdd,
            tilemap_size,
            HexDirection::Zero,
        ),
        hex_col_even_neighbor_positions(tile_pos, tilemap_size).north == hex_neighbor_on_map(
            tile_pos,
            HexCoordSystem::ColumnOdd,
            tilemap_size,
            HexDirection::One,
        ),
        hex_col_even_neighbor_positions(tile_pos, tilemap_size).north_west == hex_neighbor_on_map(
            tile_pos,
            HexCoordSystem::ColumnOdd,
            tilemap_size,
            HexDirection::Two,
        ),
        hex_col_even_neighbor_positions(tile_pos, tilemap_size).south_west == hex_neighbor_on_map(
            tile_pos,
            HexCoordSystem::ColumnOdd,
            tilemap_size,
            HexDirection::Three,
        ),
        hex_col_even_neighbor_positions(tile_pos, tilemap_size).south == hex_neighbor_on_map(
            tile_pos,
            HexCoordSystem::ColumnOdd,
            tilemap_size,
            HexDirection::Four,
        ),
        hex_col_even_neighbor_positions(tile_pos, tilemap_size).south_east == hex_neighbor_on_map(
            tile_pos,
            HexCoordSystem::ColumnOdd,
            tilemap_size,
            HexDirection::Five,
        ),
{
    lemma_row_layout_is_axial(tile_pos, tilemap_size);
    lemma_row_odd_layout_is_axial(tile_pos, tilemap_size);
    lemma_row_even_layout_is_axial(tile_pos, tilemap_size);
    lemma_col_layout_is_axial(tile_pos, tilemap_size);
    lemma_col_odd_layout_is_axial(tile_pos, tilemap_size);
    lemma_col_even_layout_is_axial(tile_pos, tilemap_size);
}

} // verus!
