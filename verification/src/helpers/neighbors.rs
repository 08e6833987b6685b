//! Neighbors of a tile on square, isometric and hexagonal maps, as tile positions.
use crate::map::{HexCoordSystem, IsoCoordSystem, TilemapSize, TilemapType};
use crate::helpers::hex_grid::axial::AxialPos;
use crate::helpers::hex_grid::neighbors::{
    hex_neighbor_on_map, hex_steps_defined, HexColDirection, HexDirection, HexRowDirection,
};
use crate::helpers::projection::tile_pos_on_map;
use crate::helpers::square_grid::staggered::{staggered_of_square, staggered_of_tile};
use crate::helpers::square_grid::square_of_staggered;
use crate::helpers::square_grid::neighbors::{
    square_offset_of, square_step_on_map, staggered_step_on_map, staggered_steps_defined, RectangularDirection,
};
use crate::tiles::{TilePos, TileStorage};
use bevy::prelude::Entity;
use vstd::prelude::*;

verus! {

/// The eight compass directions in which a neighbor may lie.
#[derive(Clone, Copy, Debug)]
pub enum NeighborDirection {
    North,
    NorthWest,
    West,
    SouthWest,
    South,
    SouthEast,
    East,
    NorthEast,
}

impl NeighborDirection {
    /// The position of the direction in the counter-clockwise cycle that starts at `North`.
    pub open spec fn ordinal(self) -> nat {
        match self {
            NeighborDirection::North => 0,
            NeighborDirection::NorthWest => 1,
            NeighborDirection::West => 2,
            NeighborDirection::SouthWest => 3,
            NeighborDirection::South => 4,
            NeighborDirection::SouthEast => 5,
            NeighborDirection::East => 6,
            NeighborDirection::NorthEast => 7,
        }
    }

    /// The direction that follows `self`, turning counter-clockwise; `NorthEast` is followed by
    /// `North`.
    fn next_direction(&self) -> (d: NeighborDirection)
        ensures
            d.ordinal() == (self.ordinal() + 1) % 8,
    {
        match self {
            NeighborDirection::North => NeighborDirection::NorthWest,
            NeighborDirection::NorthWest => NeighborDirection::West,
            NeighborDirection::West => NeighborDirection::SouthWest,
            NeighborDirection::SouthWest => NeighborDirection::South,
            NeighborDirection::South => NeighborDirection::SouthEast,
            NeighborDirection::SouthEast => NeighborDirection::East,
            NeighborDirection::East => NeighborDirection::NorthEast,
            NeighborDirection::NorthEast => NeighborDirection::North,
        }
    }
}

/// Some data `T` for each of the eight neighbors of a tile, where present.
#[derive(Clone, Copy)]
pub struct Neighbors<T: Copy> {
    pub north: Option<T>,
    pub north_west: Option<T>,
    pub west: Option<T>,
    pub south_west: Option<T>,
    pub south: Option<T>,
    pub south_east: Option<T>,
    pub east: Option<T>,
    pub north_east: Option<T>,
}

impl<T: Copy> Neighbors<T> {
    /// The slot for the direction with the given ordinal (see [`NeighborDirection::ordinal`]).
    pub open spec fn slot(self, k: nat) -> Option<T> {
        if k == 0 {
            self.north
        } else if k == 1 {
            self.north_west
        } else if k == 2 {
            self.west
        } else if k == 3 {
            self.south_west
        } else if k == 4 {
            self.south
        } else if k == 5 {
            self.south_east
        } else if k == 6 {
            self.east
        } else if k == 7 {
            self.north_east
        } else {
            None
        }
    }

    /// The present items whose direction has ordinal `k` or later, in direction order.
    pub open spec fn present_from(self, k: nat) -> Seq<T>
        decreases 8 - k,
    {
        if k >= 8 {
            Seq::empty()
        } else {
            match self.slot(k) {
                Some(t) => seq![t] + self.present_from(k + 1),
                None => self.present_from(k + 1),
            }
        }
    }

    /// The present items, in the order North, NorthWest, West, SouthWest, South, SouthEast,
    /// East, NorthEast.
    pub open spec fn present(self) -> Seq<T> {
        self.present_from(0)
    }

    /// Iterates over the present items, in the order of [`Neighbors::present`].
    pub fn into_iter(self) -> (it: NeighborsIntoIterator<T>)
        ensures
            it.remaining() == self.present(),
    {
        NeighborsIntoIterator { neighbors: self, cursor: Some(NeighborDirection::North) }
    }

    /// The number of present items.
    pub fn count(&self) -> (n: usize)
        ensures
            n == self.present().len(),
    {
        proof {
            lemma_present_from_len(*self, 0);
        }
        let mut it = self.into_iter();
        let mut n: usize = 0;
        loop
            invariant
                n + it.remaining().len() == self.present().len(),
                self.present().len() <= 8,
            decreases it.remaining().len(),
        {
            match it.next() {
                Some(_) => n = n + 1,
                None => return n,
            }
        }
    }
}

proof fn lemma_present_from_len<T: Copy>(n: Neighbors<T>, k: nat)
    ensures
        n.present_from(k).len() <= 8 - k || k >= 8 && n.present_from(k).len() == 0,
    decreases 8 - k,
{
    if k < 8 {
        lemma_present_from_len(n, k + 1);
    }
}

/// An iterator over the present items of a [`Neighbors`].
pub struct NeighborsIntoIterator<T: Copy> {
    neighbors: Neighbors<T>,
    /// The next direction the iterator will output.
    cursor: Option<NeighborDirection>,
}

impl<T: Copy> NeighborsIntoIterator<T> {
    /// The items that the iterator has still to yield.
    pub closed spec fn remaining(self) -> Seq<T> {
        match self.cursor {
            Some(d) => self.neighbors.present_from(d.ordinal()),
            None => Seq::empty(),
        }
    }

    /// The number of directions the iterator has still to look at.
    pub closed spec fn directions_left(self) -> nat {
        match self.cursor {
            Some(d) => (8 - d.ordinal()) as nat,
            None => 0,
        }
    }

    /// The item in the direction under the cursor, if any.
    fn get_at_cursor(&self) -> (t: Option<T>)
        ensures
            t == (match self.cursor {
                Some(d) => self.neighbors.slot(d.ordinal()),
                None => None,
            }),
    {
        match self.cursor {
            Some(direction) => match direction {
                NeighborDirection::North => self.neighbors.north,
                NeighborDirection::NorthWest => self.neighbors.north_west,
                NeighborDirection::West => self.neighbors.west,
                NeighborDirection::SouthWest => self.neighbors.south_west,
                NeighborDirection::South => self.neighbors.south,
                NeighborDirection::SouthEast => self.neighbors.south_east,
                NeighborDirection::East => self.neighbors.east,
                NeighborDirection::NorthEast => self.neighbors.north_east,
            },
            None => None,
        }
    }

    /// Yields the next present item, or `None` once all have been yielded.
    pub fn next(&mut self) -> (t: Option<T>)
        ensures
            old(self).remaining().len() == 0 ==> t is None && final(self).remaining().len() == 0,
            old(self).remaining().len() > 0 ==> {
                &&& t == Some(old(self).remaining()[0])
                &&& final(self).remaining() == old(self).remaining().drop_first()
            },
        decreases old(self).directions_left(),
    {
        match self.cursor {
            None => None,
            Some(direction) => {
                let neighbor = self.get_at_cursor();
                match direction {
                    NeighborDirection::NorthEast => {
                        self.cursor = None;
                        proof {
                            reveal_with_fuel(Neighbors::present_from, 2);
                        }
                        neighbor
                    },
                    _ => {
                        let next = direction.next_direction();
                        self.cursor = Some(next);
                        match neighbor {
                            Some(t) => {
                                assert(old(self).remaining() == seq![t] + self.remaining());
                                Some(t)
                            },
                            None => self.next(),
                        }
                    },
                }
            },
        }
    }
}

impl TilePos {
    /// The position `dx, dy` away from `self`, if that step does not leave the map. Only the
    /// moving coordinates are checked, and each only on the side it moves towards: a step up
    /// must stay below the map's extent, a step down must stay at or above zero.
    pub open spec fn offset_within(self, dx: int, dy: int, map_size: TilemapSize) -> Option<
        TilePos,
    > {
        if (dx <= 0 || self.x + dx < map_size.x) && (dx >= 0 || self.x + dx >= 0) && (dy <= 0
            || self.y + dy < map_size.y) && (dy >= 0 || self.y + dy >= 0) {
            Some(TilePos { x: (self.x + dx) as u32, y: (self.y + dy) as u32 })
        } else {
            None
        }
    }

    #[inline]
    pub(crate) fn plus_x(&self, tilemap_size: &TilemapSize) -> (p: Option<TilePos>)
        requires
            tilemap_size.x >= 1,
        ensures
            p == self.offset_within(1, 0, *tilemap_size),
    {
        if self.x < tilemap_size.x - 1 {
            Some(TilePos { x: self.x + 1, y: self.y })
        } else {
            None
        }
    }

    #[inline]
    pub(crate) fn plus_y(&self, tilemap_size: &TilemapSize) -> (p: Option<TilePos>)
        requires
            tilemap_size.y >= 1,
        ensures
            p == self.offset_within(0, 1, *tilemap_size),
    {
        if self.y < tilemap_size.y - 1 {
            Some(TilePos { x: self.x, y: self.y + 1 })
        } else {
            None
        }
    }

    #[inline]
    pub(crate) fn plus_xy(&self, tilemap_size: &TilemapSize) -> (p: Option<TilePos>)
        requires
            tilemap_size.x >= 1,
            self.x + 1 < tilemap_size.x ==> tilemap_size.y >= 1,
        ensures
            p == self.offset_within(1, 1, *tilemap_size),
    {
        if self.x < tilemap_size.x - 1 && self.y < tilemap_size.y - 1 {
            Some(TilePos { x: self.x + 1, y: self.y + 1 })
        } else {
            None
        }
    }

    #[inline]
    pub(crate) fn minus_x(&self) -> (p: Option<TilePos>)
        ensures
            forall|map_size: TilemapSize| p == #[trigger] self.offset_within(-1, 0, map_size),
    {
        if self.x != 0 {
            Some(TilePos { x: self.x - 1, y: self.y })
        } else {
            None
        }
    }

    #[inline]
    pub(crate) fn minus_y(&self) -> (p: Option<TilePos>)
        ensures
            forall|map_size: TilemapSize| p == #[trigger] self.offset_within(0, -1, map_size),
    {
        if self.y != 0 {
            Some(TilePos { x: self.x, y: self.y - 1 })
        } else {
            None
        }
    }

    #[inline]
    pub(crate) fn minus_xy(&self) -> (p: Option<TilePos>)
        ensures
            forall|map_size: TilemapSize| p == #[trigger] self.offset_within(-1, -1, map_size),
    {
        if self.x != 0 && self.y != 0 {
            Some(TilePos { x: self.x - 1, y: self.y - 1 })
        } else {
            None
        }
    }

    #[inline]
    pub(crate) fn plus_x_minus_y(&self, tilemap_size: &TilemapSize) -> (p: Option<TilePos>)
        requires
            tilemap_size.x >= 1,
        ensures
            p == self.offset_within(1, -1, *tilemap_size),
    {
        if self.x < tilemap_size.x - 1 && self.y != 0 {
            Some(TilePos { x: self.x + 1, y: self.y - 1 })
        } else {
            None
        }
    }

    #[inline]
    pub(crate) fn plus_x_minus_2y(&self, tilemap_size: &TilemapSize) -> (p: Option<TilePos>)
        requires
            tilemap_size.x >= 1,
        ensures
            p == self.offset_within(1, -2, *tilemap_size),
    {
        if self.x < tilemap_size.x - 1 && self.y > 1 {
            Some(TilePos { x: self.x + 1, y: self.y - 2 })
        } else {
            None
        }
    }

    #[inline]
    pub(crate) fn minus_x_plus_y(&self, tilemap_size: &TilemapSize) -> (p: Option<TilePos>)
        requires
            tilemap_size.y >= 1,
        ensures
            p == self.offset_within(-1, 1, *tilemap_size),
    {
        if self.y < tilemap_size.y - 1 && self.x != 0 {
            Some(TilePos { x: self.x - 1, y: self.y + 1 })
        } else {
            None
        }
    }

    #[inline]
    pub(crate) fn minus_x_plus_2y(&self, tilemap_size: &TilemapSize) -> (p: Option<TilePos>)
        requires
            tilemap_size.y >= 2,
        ensures
            p == self.offset_within(-1, 2, *tilemap_size),
    {
        if self.y < tilemap_size.y - 2 && self.x != 0 {
            Some(TilePos { x: self.x - 1, y: self.y + 2 })
        } else {
            None
        }
    }
}

impl TilePos {
    /// The neighbor to the north on a square map, if it lies on the map.
    pub fn square_north(&self, tilemap_size: &TilemapSize) -> (p: Option<TilePos>)
        requires
            tilemap_size.y >= 1,
        ensures
            p == self.offset_within(0, 1, *tilemap_size),
    {
        self.plus_y(tilemap_size)
    }

    /// The neighbor to the north west on a square map, if it lies on the map.
    pub fn square_north_west(&self, tilemap_size: &TilemapSize) -> (p: Option<TilePos>)
        requires
            tilemap_size.y >= 1,
        ensures
            p == self.offset_within(-1, 1, *tilemap_size),
    {
        self.minus_x_plus_y(tilemap_size)
    }

    /// The neighbor to the west on a square map, if it lies on the map.
    pub fn square_west(&self) -> (p: Option<TilePos>)
        ensures
            forall|map_size: TilemapSize| p == #[trigger] self.offset_within(-1, 0, map_size),
    {
        self.minus_x()
    }

    /// The neighbor to the south west on a square map, if it lies on the map.
    pub fn square_south_west(&self) -> (p: Option<TilePos>)
        ensures
            forall|map_size: TilemapSize| p == #[trigger] self.offset_within(-1, -1, map_size),
    {
        self.minus_xy()
    }

    /// The neighbor to the south on a square map, if it lies on the map.
    pub fn square_south(&self) -> (p: Option<TilePos>)
        ensures
            forall|map_size: TilemapSize| p == #[trigger] self.offset_within(0, -1, map_size),
    {
        self.minus_y()
    }

    /// The neighbor to the south east on a square map, if it lies on the map.
    pub fn square_south_east(&self, tilemap_size: &TilemapSize) -> (p: Option<TilePos>)
        requires
            tilemap_size.x >= 1,
        ensures
            p == self.offset_within(1, -1, *tilemap_size),
    {
        self.plus_x_minus_y(tilemap_size)
    }

    /// The neighbor to the east on a square map, if it lies on the map.
    pub fn square_east(&self, tilemap_size: &TilemapSize) -> (p: Option<TilePos>)
        requires
            tilemap_size.x >= 1,
        ensures
            p == self.offset_within(1, 0, *tilemap_size),
    {
        self.plus_x(tilemap_size)
    }

    /// The neighbor to the north east on a square map, if it lies on the map.
    pub fn square_north_east(&self, tilemap_size: &TilemapSize) -> (p: Option<TilePos>)
        requires
            tilemap_size.x >= 1,
            self.x + 1 < tilemap_size.x ==> tilemap_size.y >= 1,
        ensures
            p == self.offset_within(1, 1, *tilemap_size),
    {
        self.plus_xy(tilemap_size)
    }

    /// The neighbor to the north on an isometric staggered map, if it lies on the map.
    pub fn iso_staggered_north(&self, tilemap_size: &TilemapSize) -> (p: Option<TilePos>)
        requires
            tilemap_size.y >= 1,
        ensures
            p == self.offset_within(0, 1, *tilemap_size),
    {
        self.plus_y(tilemap_size)
    }

    /// The neighbor to the north west on an isometric staggered map, if it lies on the map.
    pub fn iso_staggered_north_west(&self, tilemap_size: &TilemapSize) -> (p: Option<TilePos>)
        requires
            tilemap_size.y >= 2,
        ensures
            p == self.offset_within(-1, 2, *tilemap_size),
    {
        self.minus_x_plus_2y(tilemap_size)
    }

    /// The neighbor to the west on an isometric staggered map, if it lies on the map.
    pub fn iso_staggered_west(&self, tilemap_size: &TilemapSize) -> (p: Option<TilePos>)
        requires
            tilemap_size.y >= 1,
        ensures
            p == self.offset_within(-1, 1, *tilemap_size),
    {
        self.minus_x_plus_y(tilemap_size)
    }

    /// The neighbor to the south west on an isometric staggered map, if it lies on the map.
    pub fn iso_staggered_south_west(&self) -> (p: Option<TilePos>)
        ensures
            forall|map_size: TilemapSize| p == #[trigger] self.offset_within(-1, 0, map_size),
    {
        self.minus_x()
    }

    /// The neighbor to the south on an isometric staggered map, if it lies on the map.
    pub fn iso_staggered_south(&self) -> (p: Option<TilePos>)
        ensures
            forall|map_size: TilemapSize| p == #[trigger] self.offset_within(0, -1, map_size),
    {
        self.minus_y()
    }

    /// The neighbor to the south east on an isometric staggered map, if it lies on the map.
    pub fn iso_staggered_south_east(&self, tilemap_size: &TilemapSize) -> (p: Option<TilePos>)
        requires
            tilemap_size.x >= 1,
        ensures
            p == self.offset_within(1, -2, *tilemap_size),
    {
        self.plus_x_minus_2y(tilemap_size)
    }

    /// The neighbor to the east on an isometric staggered map, if it lies on the map.
    pub fn iso_staggered_east(&self, tilemap_size: &TilemapSize) -> (p: Option<TilePos>)
        requires
            tilemap_size.x >= 1,
        ensures
            p == self.offset_within(1, -1, *tilemap_size),
    {
        self.plus_x_minus_y(tilemap_size)
    }

    /// The neighbor to the north east on an isometric staggered map, if it lies on the map.
    pub fn iso_staggered_north_east(&self, tilemap_size: &TilemapSize) -> (p: Option<TilePos>)
        requires
            tilemap_size.x >= 1,
        ensures
            p == self.offset_within(1, 0, *tilemap_size),
    {
        self.plus_x(tilemap_size)
    }

}


/// The neighborhood of `p` on a square map (and on an isometric diamond map, whose grid has
/// the same connectivity): in each direction the position one step away, if it lies on the map.
/// Without diagonals, the four diagonal directions are empty.
pub open spec fn square_neighborhood(p: TilePos, map_size: TilemapSize, diagonals: bool) -> Neighbors<
    TilePos,
> {
    Neighbors {
        north: p.offset_within(0, 1, map_size),
        north_west: if diagonals {
            p.offset_within(-1, 1, map_size)
        } else {
            None
        },
        west: p.offset_within(-1, 0, map_size),
        south_west: if diagonals {
            p.offset_within(-1, -1, map_size)
        } else {
            None
        },
        south: p.offset_within(0, -1, map_size),
        south_east: if diagonals {
            p.offset_within(1, -1, map_size)
        } else {
            None
        },
        east: p.offset_within(1, 0, map_size),
        north_east: if diagonals {
            p.offset_within(1, 1, map_size)
        } else {
            None
        },
    }
}

/// The neighborhood of `p` on an isometric staggered map, whose rows are shifted by half a
/// tile: north and south are one row away, west and east one column and one row, the
/// diagonals two rows or one column away. Without diagonals, the four diagonal directions are
/// empty.
pub open spec fn staggered_neighborhood(p: TilePos, map_size: TilemapSize, diagonals: bool) -> Neighbors<
    TilePos,
> {
    Neighbors {
        north: p.offset_within(0, 1, map_size),
        north_west: if diagonals {
            p.offset_within(-1, 2, map_size)
        } else {
            None
        },
        west: p.offset_within(-1, 1, map_size),
        south_west: if diagonals {
            p.offset_within(-1, 0, map_size)
        } else {
            None
        },
        south: p.offset_within(0, -1, map_size),
        south_east: if diagonals {
            p.offset_within(1, -2, map_size)
        } else {
            None
        },
        east: p.offset_within(1, -1, map_size),
        north_east: if diagonals {
            p.offset_within(1, 0, map_size)
        } else {
            None
        },
    }
}

/// Retrieves the positions of neighbors of the tile with the specified position, assuming
/// that 1) the tile exists on a [`Square`](crate::map::TilemapType::Square) tilemap
/// and 2) neighbors **do** include tiles located diagonally across from the specified position.
///
/// Tile positions are bounded:
///     * between `0` and `tilemap_size.x` in the `x` position,
///     * between `0` and `tilemap_size.y` in the `y` position.
/// Directions in the returned [`Neighbors`] with tile coordinates that violate these
/// requirements will be set to `None`.
pub fn square_neighbor_pos_with_diagonals(tile_pos: &TilePos, tilemap_size: &TilemapSize) -> (n:
    Neighbors<TilePos>)
    requires
        tilemap_size.x >= 1,
        tilemap_size.y >= 1,
    ensures
        n == square_neighborhood(*tile_pos, *tilemap_size, true),
{
    Neighbors {
        north: tile_pos.square_north(tilemap_size),
        north_west: tile_pos.square_north_west(tilemap_size),
        west: tile_pos.square_west(),
        south_west: tile_pos.square_south_west(),
        south: tile_pos.square_south(),
        south_east: tile_pos.square_south_east(tilemap_size),
        east: tile_pos.square_east(tilemap_size),
        north_east: tile_pos.square_north_east(tilemap_size),
    }
}

/// Retrieves the positions of neighbors of the tile with the specified position, assuming
/// that 1) the tile exists on an isometric tilemap with the
/// [`Staggered`](crate::map::IsoCoordSystem::Staggered) coordinate system, and 2) neighbors
/// **do** include tiles located diagonally across from the specified position.
///
/// Directions whose tile coordinates would lie off the map are set to `None`.
pub fn staggered_neighbor_pos_with_diagonals(tile_pos: &TilePos, tilemap_size: &TilemapSize) -> (n:
    Neighbors<TilePos>)
    requires
        tilemap_size.x >= 1,
        tilemap_size.y >= 2,
    ensures
        n == staggered_neighborhood(*tile_pos, *tilemap_size, true),
{
    Neighbors {
        north: tile_pos.iso_staggered_north(tilemap_size),
        north_west: tile_pos.iso_staggered_north_west(tilemap_size),
        west: tile_pos.iso_staggered_west(tilemap_size),
        south_west: tile_pos.iso_staggered_south_west(),
        south: tile_pos.iso_staggered_south(),
        south_east: tile_pos.iso_staggered_south_east(tilemap_size),
        east: tile_pos.iso_staggered_east(tilemap_size),
        north_east: tile_pos.iso_staggered_north_east(tilemap_size),
    }
}

/// Retrieves the positions of neighbors of the tile with the specified position, assuming
/// that 1) the tile exists on an isometric tilemap with the
/// [`Diamond`](crate::map::IsoCoordSystem::Diamond) coordinate system, and 2) neighbors
/// **do** include tiles located diagonally across from the specified position.
///
/// This is the same as [`square_neighbor_pos_with_diagonals`], as the connectivity of the
/// graph underlying a square map is the same as that underlying an isometric diamond map.
pub fn diamond_neighbor_pos_with_diagonals(tile_pos: &TilePos, tilemap_size: &TilemapSize) -> (n:
    Neighbors<TilePos>)
    requires
        tilemap_size.x >= 1,
        tilemap_size.y >= 1,
    ensures
        n == square_neighborhood(*tile_pos, *tilemap_size, true),
{
    square_neighbor_pos_with_diagonals(tile_pos, tilemap_size)
}

/// Retrieves the positions of neighbors of the tile with the specified position, assuming
/// that 1) the tile exists on a [`Square`](crate::map::TilemapType::Square) tilemap
/// and 2) neighbors **do not** include tiles located diagonally across from the specified
/// position.
///
/// Directions whose tile coordinates would lie off the map are set to `None`.
pub fn square_neighbor_pos(tile_pos: &TilePos, tilemap_size: &TilemapSize) -> (n: Neighbors<
    TilePos,
>)
    requires
        tilemap_size.x >= 1,
        tilemap_size.y >= 1,
    ensures
        n == square_neighborhood(*tile_pos, *tilemap_size, false),
{
    Neighbors {
        north: tile_pos.square_north(tilemap_size),
        north_west: None,
        west: tile_pos.square_west(),
        south_west: None,
        south: tile_pos.square_south(),
        south_east: None,
        east: tile_pos.square_east(tilemap_size),
        north_east: None,
    }
}

/// Retrieves the positions of neighbors of the tile with the specified position, assuming
/// that 1) the tile exists on an isometric tilemap with the
/// [`Diamond`](crate::map::IsoCoordSystem::Diamond) coordinate system, and 2) neighbors
/// **do not** include tiles located diagonally across from the specified position.
///
/// This is the same as [`square_neighbor_pos`].
pub fn diamond_neighbor_pos(tile_pos: &TilePos, tilemap_size: &TilemapSize) -> (n: Neighbors<
    TilePos,
>)
    requires
        tilemap_size.x >= 1,
        tilemap_size.y >= 1,
    ensures
        n == square_neighborhood(*tile_pos, *tilemap_size, false),
{
    square_neighbor_pos(tile_pos, tilemap_size)
}

/// Retrieves the positions of neighbors of the tile with the specified position, assuming
/// that 1) the tile exists on an isometric tilemap with the
/// [`Staggered`](crate::map::IsoCoordSystem::Staggered) coordinate system, and 2) neighbors
/// **do not** include tiles located diagonally across from the specified position.
///
/// Directions whose tile coordinates would lie off the map are set to `None`.
pub fn staggered_neighbor_pos(tile_pos: &TilePos, tilemap_size: &TilemapSize) -> (n: Neighbors<
    TilePos,
>)
    requires
        tilemap_size.x >= 1,
        tilemap_size.y >= 1,
    ensures
        n == staggered_neighborhood(*tile_pos, *tilemap_size, false),
{
    Neighbors {
        north: tile_pos.iso_staggered_north(tilemap_size),
        north_west: None,
        west: tile_pos.iso_staggered_west(tilemap_size),
        south_west: None,
        south: tile_pos.iso_staggered_south(),
        south_east: None,
        east: tile_pos.iso_staggered_east(tilemap_size),
        north_east: None,
    }
}

/// A step from a position on the map that does not leave the map lands on the map.
pub proof fn lemma_offset_stays_on_map(p: TilePos, dx: int, dy: int, map_size: TilemapSize)
    requires
        p.in_bounds(map_size),
        p.offset_within(dx, dy, map_size) is Some,
    ensures
        p.offset_within(dx, dy, map_size).unwrap().in_bounds(map_size),
        p.offset_within(dx, dy, map_size).unwrap().x == p.x + dx,
        p.offset_within(dx, dy, map_size).unwrap().y == p.y + dy,
{
}

/// Between two positions on the map, a step one way succeeds exactly when the opposite step
/// succeeds the other way.
pub proof fn lemma_offset_symmetric(p: TilePos, q: TilePos, dx: int, dy: int, map_size: TilemapSize)
    requires
        p.in_bounds(map_size),
        q.in_bounds(map_size),
    ensures
        p.offset_within(dx, dy, map_size) == Some(q) <==> q.offset_within(-dx, -dy, map_size)
            == Some(p),
{
}

/// On a square (or isometric diamond) map, if `q` is the neighbor of `p` in some direction,
/// then `p` is the neighbor of `q` in the opposite direction: being neighbors is symmetric.
pub proof fn lemma_square_neighbors_symmetric(
    p: TilePos,
    q: TilePos,
    map_size: TilemapSize,
    diagonals: bool,
    k: nat,
)
    requires
        p.in_bounds(map_size),
        q.in_bounds(map_size),
        k < 8,
        square_neighborhood(p, map_size, diagonals).slot(k) == Some(q),
    ensures
        square_neighborhood(q, map_size, diagonals).slot((k + 4) % 8) == Some(p),
{
}

/// On an isometric staggered map, if `q` is the neighbor of `p` in some direction, then `p` is
/// the neighbor of `q` in the opposite direction: being neighbors is symmetric.
pub proof fn lemma_staggered_neighbors_symmetric(
    p: TilePos,
    q: TilePos,
    map_size: TilemapSize,
    diagonals: bool,
    k: nat,
)
    requires
        p.in_bounds(map_size),
        q.in_bounds(map_size),
        k < 8,
        staggered_neighborhood(p, map_size, diagonals).slot(k) == Some(q),
    ensures
        staggered_neighborhood(q, map_size, diagonals).slot((k + 4) % 8) == Some(p),
{
}

/// The neighborhood of `p` on a hexagonal map using the given coordinate system. On
/// row-oriented maps the six neighbors are East, NorthEast, NorthWest, West, SouthWest and
/// SouthEast, while North and South are empty; on column-oriented maps they are North,
/// NorthWest, SouthWest, South, SouthEast and NorthEast, while West and East are empty.
pub open spec fn hex_neighborhood(p: TilePos, map_size: TilemapSize, hex_coord_sys: HexCoordSystem) -> Neighbors<
    TilePos,
> {
    if hex_coord_sys.is_row_oriented() {
        Neighbors {
            north: None,
            north_west: hex_neighbor_on_map(p, hex_coord_sys, map_size, HexRowDirection::NorthWest.hex_direction()),
            west: hex_neighbor_on_map(p, hex_coord_sys, map_size, HexRowDirection::West.hex_direction()),
            south_west: hex_neighbor_on_map(p, hex_coord_sys, map_size, HexRowDirection::SouthWest.hex_direction()),
            south: None,
            south_east: hex_neighbor_on_map(p, hex_coord_sys, map_size, HexRowDirection::SouthEast.hex_direction()),
            east: hex_neighbor_on_map(p, hex_coord_sys, map_size, HexRowDirection::East.hex_direction()),
            north_east: hex_neighbor_on_map(p, hex_coord_sys, map_size, HexRowDirection::NorthEast.hex_direction()),
        }
    } else {
        Neighbors {
            north: hex_neighbor_on_map(p, hex_coord_sys, map_size, HexColDirection::North.hex_direction()),
            north_west: hex_neighbor_on_map(p, hex_coord_sys, map_size, HexColDirection::NorthWest.hex_direction()),
            west: None,
            south_west: hex_neighbor_on_map(p, hex_coord_sys, map_size, HexColDirection::SouthWest.hex_direction()),
            south: hex_neighbor_on_map(p, hex_coord_sys, map_size, HexColDirection::South.hex_direction()),
            south_east: hex_neighbor_on_map(p, hex_coord_sys, map_size, HexColDirection::SouthEast.hex_direction()),
            east: None,
            north_east: hex_neighbor_on_map(p, hex_coord_sys, map_size, HexColDirection::NorthEast.hex_direction()),
        }
    }
}

/// Retrieves the positions of neighbors of the tile with the specified position, assuming
/// the tile exists on a [`Hexagon`](crate::map::TilemapType::Hexagon) tilemap with the specified
/// [`HexCoordSystem`].
///
/// Directions whose tile coordinates would lie off the map are set to `None`.
pub fn hex_neighbor_pos(tile_pos: &TilePos, tilemap_size: &TilemapSize, coord_sys: HexCoordSystem) -> (n:
    Neighbors<TilePos>)
    requires
        hex_steps_defined(*tile_pos, coord_sys),
    ensures
        n == hex_neighborhood(*tile_pos, *tilemap_size, coord_sys),
{
    let axial_pos = AxialPos::from_tile_pos_given_coord_system(tile_pos, coord_sys);
    match coord_sys {
        HexCoordSystem::RowEven | HexCoordSystem::RowOdd | HexCoordSystem::Row => {
            Neighbors {
                north: None,
                north_west: axial_pos.offset_compass_row(
                    HexRowDirection::NorthWest,
                ).as_tile_pos_given_coord_system_and_map_size(coord_sys, tilemap_size),
                west: axial_pos.offset_compass_row(
                    HexRowDirection::West,
                ).as_tile_pos_given_coord_system_and_map_size(coord_sys, tilemap_size),
                south_west: axial_pos.offset_compass_row(
                    HexRowDirection::SouthWest,
                ).as_tile_pos_given_coord_system_and_map_size(coord_sys, tilemap_size),
                south: None,
                south_east: axial_pos.offset_compass_row(
                    HexRowDirection::SouthEast,
                ).as_tile_pos_given_coord_system_and_map_size(coord_sys, tilemap_size),
                east: axial_pos.offset_compass_row(
                    HexRowDirection::East,
                ).as_tile_pos_given_coord_system_and_map_size(coord_sys, tilemap_size),
                north_east: axial_pos.offset_compass_row(
                    HexRowDirection::NorthEast,
                ).as_tile_pos_given_coord_system_and_map_size(coord_sys, tilemap_size),
            }
        },
        _ => {
            Neighbors {
                north: axial_pos.offset_compass_col(
                    HexColDirection::North,
                ).as_tile_pos_given_coord_system_and_map_size(coord_sys, tilemap_size),
                north_west: axial_pos.offset_compass_col(
                    HexColDirection::NorthWest,
                ).as_tile_pos_given_coord_system_and_map_size(coord_sys, tilemap_size),
                west: None,
                south_west: axial_pos.offset_compass_col(
                    HexColDirection::SouthWest,
                ).as_tile_pos_given_coord_system_and_map_size(coord_sys, tilemap_size),
                south: axial_pos.offset_compass_col(
                    HexColDirection::South,
                ).as_tile_pos_given_coord_system_and_map_size(coord_sys, tilemap_size),
                south_east: axial_pos.offset_compass_col(
                    HexColDirection::SouthEast,
                ).as_tile_pos_given_coord_system_and_map_size(coord_sys, tilemap_size),
                east: None,
                north_east: axial_pos.offset_compass_col(
                    HexColDirection::NorthEast,
                ).as_tile_pos_given_coord_system_and_map_size(coord_sys, tilemap_size),
            }
        },
    }
}

/// Can the neighbors of `tile_pos` on a map of the given size and type be computed? Square
/// and isometric maps must have at least one row and column, isometric staggered maps with
/// diagonal neighbors at least two rows; on hexagonal maps the steps from the tile must stay
/// within `i32`.
pub open spec fn neighbors_defined(tile_pos: TilePos, map_size: TilemapSize, map_type: TilemapType) -> bool {
    match map_type {
        TilemapType::Square { .. } => map_size.x >= 1 && map_size.y >= 1,
        TilemapType::Isometric { diagonal_neighbors, coord_system } => {
            &&& map_size.x >= 1
            &&& map_size.y >= 1
            &&& (diagonal_neighbors && coord_system is Staggered) ==> map_size.y >= 2
        },
        TilemapType::Hexagon(coord_sys) => hex_steps_defined(tile_pos, coord_sys),
    }
}

/// The neighborhood of `tile_pos` on a map of the given size and type.
pub open spec fn neighborhood(tile_pos: TilePos, map_size: TilemapSize, map_type: TilemapType) -> Neighbors<
    TilePos,
> {
    match map_type {
        TilemapType::Square { diagonal_neighbors } => square_neighborhood(
            tile_pos,
            map_size,
            diagonal_neighbors,
        ),
        TilemapType::Isometric { diagonal_neighbors, coord_system } => match coord_system {
            IsoCoordSystem::Diamond => square_neighborhood(tile_pos, map_size, diagonal_neighbors),
            IsoCoordSystem::Staggered => staggered_neighborhood(
                tile_pos,
                map_size,
                diagonal_neighbors,
            ),
        },
        TilemapType::Hexagon(coord_sys) => hex_neighborhood(tile_pos, map_size, coord_sys),
    }
}

/// Retrieves the positions of neighbors of the tile with the specified position.
///
/// Tile positions are bounded:
///     * between `0` and `tilemap_size.x` in the `x` position,
///     * between `0` and `tilemap_size.y` in the `y` position.
/// Directions in the returned [`Neighbors`] with tile coordinates that violate these
/// requirements will be set to `None`.
pub fn get_neighboring_pos(tile_pos: &TilePos, tilemap_size: &TilemapSize, map_type: &TilemapType) -> (n:
    Neighbors<TilePos>)
    requires
        neighbors_defined(*tile_pos, *tilemap_size, *map_type),
    ensures
        n == neighborhood(*tile_pos, *tilemap_size, *map_type),
{
    match map_type {
        TilemapType::Square { diagonal_neighbors: true } => square_neighbor_pos_with_diagonals(
            tile_pos,
            tilemap_size,
        ),
        TilemapType::Square { diagonal_neighbors: false } => square_neighbor_pos(
            tile_pos,
            tilemap_size,
        ),
        TilemapType::Isometric {
            diagonal_neighbors: neighbors_include_diagonals,
            coord_system: IsoCoordSystem::Diamond,
        } => {
            if *neighbors_include_diagonals {
                diamond_neighbor_pos_with_diagonals(tile_pos, tilemap_size)
            } else {
                diamond_neighbor_pos(tile_pos, tilemap_size)
            }
        },
        TilemapType::Isometric {
            diagonal_neighbors: neighbors_include_diagonals,
            coord_system: IsoCoordSystem::Staggered,
        } => {
            if *neighbors_include_diagonals {
                staggered_neighbor_pos_with_diagonals(tile_pos, tilemap_size)
            } else {
                staggered_neighbor_pos(tile_pos, tilemap_size)
            }
        },
        TilemapType::Hexagon(coord_sys) => hex_neighbor_pos(tile_pos, tilemap_size, *coord_sys),
    }
}

impl Neighbors<Entity> {
    /// The entities stored at each of the given neighboring positions.
    ///
    /// Every position present must lie within the extents of the storage's map.
    pub fn from_neighboring_pos(neighbors: &Neighbors<TilePos>, tile_storage: &TileStorage) -> (n:
        Neighbors<Entity>)
        requires
            tile_storage.wf(),
            forall|k: nat| #[trigger]
                neighbors.slot(k) is Some ==> neighbors.slot(k).unwrap().in_bounds(
                    tile_storage.map_size(),
                ),
        ensures
            forall|k: nat|
                #[trigger] n.slot(k) == match neighbors.slot(k) {
                    Some(p) => tile_storage.entity_at(p),
                    None => None,
                },
    {
        proof {
            assert(neighbors.slot(0) == neighbors.north);
            assert(neighbors.slot(1) == neighbors.north_west);
            assert(neighbors.slot(2) == neighbors.west);
            assert(neighbors.slot(3) == neighbors.south_west);
            assert(neighbors.slot(4) == neighbors.south);
            assert(neighbors.slot(5) == neighbors.south_east);
            assert(neighbors.slot(6) == neighbors.east);
            assert(neighbors.slot(7) == neighbors.north_east);
        }
        Neighbors {
            north: stored_at(neighbors.north, tile_storage),
            south: stored_at(neighbors.south, tile_storage),
            east: stored_at(neighbors.east, tile_storage),
            west: stored_at(neighbors.west, tile_storage),
            north_east: stored_at(neighbors.north_east, tile_storage),
            north_west: stored_at(neighbors.north_west, tile_storage),
            south_east: stored_at(neighbors.south_east, tile_storage),
            south_west: stored_at(neighbors.south_west, tile_storage),
        }
    }
}

/// The entity stored at a position, if there is a position.
fn stored_at(pos: Option<TilePos>, tile_storage: &TileStorage) -> (e: Option<Entity>)
    requires
        tile_storage.wf(),
        pos is Some ==> pos.unwrap().in_bounds(tile_storage.map_size()),
    ensures
        e == match pos {
            Some(p) => tile_storage.entity_at(p),
            None => None,
        },
{
    match pos {
        Some(p) => tile_storage.get(&p),
        None => None,
    }
}

/// Retrieves a list of neighbors for the given tile position.
///
/// If a particular neighboring position does not exist in the provided storage,
/// then it will not be returned. Every neighboring position must lie within the extents of the
/// storage's map, as it does for every position on the map (see
/// [`lemma_neighborhood_on_map`]).
pub fn get_tile_neighbors(tile_pos: &TilePos, tile_storage: &TileStorage, tilemap_type: &TilemapType) -> (n:
    Neighbors<Entity>)
    requires
        tile_storage.wf(),
        neighbors_defined(*tile_pos, tile_storage.map_size(), *tilemap_type),
        forall|k: nat| #[trigger]
            neighborhood(*tile_pos, tile_storage.map_size(), *tilemap_type).slot(k) is Some
                ==> neighborhood(*tile_pos, tile_storage.map_size(), *tilemap_type).slot(k).unwrap().in_bounds(
                tile_storage.map_size(),
            ),
    ensures
        forall|k: nat|
            #[trigger] n.slot(k) == match neighborhood(*tile_pos, tile_storage.map_size(), *tilemap_type).slot(k) {
                Some(p) => tile_storage.entity_at(p),
                None => None,
            },
{
    let neighbors = get_neighboring_pos(tile_pos, &tile_storage.map_size(), tilemap_type);
    Neighbors::from_neighboring_pos(&neighbors, tile_storage)
}

/// Every neighbor of a position on the map lies on the map, whatever the map type.
pub proof fn lemma_neighborhood_on_map(tile_pos: TilePos, map_size: TilemapSize, map_type: TilemapType)
    requires
        tile_pos.in_bounds(map_size),
    ensures
        forall|k: nat| #[trigger]
            neighborhood(tile_pos, map_size, map_type).slot(k) is Some ==> neighborhood(
                tile_pos,
                map_size,
                map_type,
            ).slot(k).unwrap().in_bounds(map_size),
{
    let n = neighborhood(tile_pos, map_size, map_type);
    assert forall|k: nat| #[trigger] n.slot(k) is Some implies n.slot(k).unwrap().in_bounds(
        map_size,
    ) by {
        lemma_slot_on_map(tile_pos, map_size, map_type, k);
    }
}

/// One slot of the neighborhood of a position on the map lies on the map.
#[verifier::spinoff_prover]
proof fn lemma_slot_on_map(tile_pos: TilePos, map_size: TilemapSize, map_type: TilemapType, k: nat)
    requires
        tile_pos.in_bounds(map_size),
        neighborhood(tile_pos, map_size, map_type).slot(k) is Some,
    ensures
        neighborhood(tile_pos, map_size, map_type).slot(k).unwrap().in_bounds(map_size),
{
    let n = neighborhood(tile_pos, map_size, map_type);
    if k == 0 {
        assert(n.slot(k) == n.north);
    } else if k == 1 {
        assert(n.slot(k) == n.north_west);
    } else if k == 2 {
        assert(n.slot(k) == n.west);
    } else if k == 3 {
        assert(n.slot(k) == n.south_west);
    } else if k == 4 {
        assert(n.slot(k) == n.south);
    } else if k == 5 {
        assert(n.slot(k) == n.south_east);
    } else if k == 6 {
        assert(n.slot(k) == n.east);
    } else {
        assert(n.slot(k) == n.north_east);
    }
}

/// On an isometric diamond map a tile has the same neighbors as on a square map of the same
/// size, with or without diagonals: [`diamond_neighbor_pos`] and
/// [`diamond_neighbor_pos_with_diagonals`] return what [`square_neighbor_pos`] and
/// [`square_neighbor_pos_with_diagonals`] return.
pub proof fn lemma_diamond_neighbors_are_square_neighbors(
    tile_pos: TilePos,
    map_size: TilemapSize,
    diagonal_neighbors: bool,
)
    ensures
        neighborhood(
            tile_pos,
            map_size,
            TilemapType::Isometric { diagonal_neighbors, coord_system: IsoCoordSystem::Diamond },
        ) == neighborhood(tile_pos, map_size, TilemapType::Square { diagonal_neighbors }),
        neighborhood(tile_pos, map_size, TilemapType::Square { diagonal_neighbors })
            == square_neighborhood(tile_pos, map_size, diagonal_neighbors),
        neighborhood(
            tile_pos,
            map_size,
            TilemapType::Isometric { diagonal_neighbors, coord_system: IsoCoordSystem::Staggered },
        ) == staggered_neighborhood(tile_pos, map_size, diagonal_neighbors),
{
}

/// Without diagonals, a square or staggered neighborhood keeps exactly the four cardinal
/// neighbors (north, west, south, east) of the neighborhood with diagonals, and has no
/// diagonal neighbors.
pub proof fn lemma_cardinal_neighbors_without_diagonals(p: TilePos, map_size: TilemapSize)
    ensures
        ({
            let (a, b) = (square_neighborhood(p, map_size, false), square_neighborhood(p, map_size, true));
            &&& a.north == b.north && a.west == b.west && a.south == b.south && a.east == b.east
            &&& a.north_west is None && a.south_west is None
            &&& a.south_east is None && a.north_east is None
        }),
        ({
            let (a, b) = (
                staggered_neighborhood(p, map_size, false),
                staggered_neighborhood(p, map_size, true),
            );
            &&& a.north == b.north && a.west == b.west && a.south == b.south && a.east == b.east
            &&& a.north_west is None && a.south_west is None
            &&& a.south_east is None && a.north_east is None
        }),
{
}

/// The square neighbors of a tile on the map, found by direct steps on the tile coordinates,
/// are the tiles one step away on the square grid
/// ([`Neighbors::get_square_neighboring_positions`](crate::helpers::square_grid::neighbors::Neighbors::get_square_neighboring_positions)),
/// direction by direction.
pub proof fn lemma_square_neighbors_agree_with_square_grid(p: TilePos, map_size: TilemapSize)
    requires
        p.in_bounds(map_size),
        p.x < i32::MAX,
        p.y < i32::MAX,
    ensures
        square_neighborhood(p, map_size, true).east == square_step_on_map(
            p,
            map_size,
            RectangularDirection::East,
        ),
        square_neighborhood(p, map_size, true).north_east == square_step_on_map(
            p,
            map_size,
            RectangularDirection::NorthEast,
        ),
        square_neighborhood(p, map_size, true).north == square_step_on_map(
            p,
            map_size,
            RectangularDirection::North,
        ),
        square_neighborhood(p, map_size, true).north_west == square_step_on_map(
            p,
            map_size,
            RectangularDirection::NorthWest,
        ),
        square_neighborhood(p, map_size, true).west == square_step_on_map(
            p,
            map_size,
            RectangularDirection::West,
        ),
        square_neighborhood(p, map_size, true).south_west == square_step_on_map(
            p,
            map_size,
            RectangularDirection::SouthWest,
        ),
        square_neighborhood(p, map_size, true).south == square_step_on_map(
            p,
            map_size,
            RectangularDirection::South,
        ),
        square_neighborhood(p, map_size, true).south_east == square_step_on_map(
            p,
            map_size,
            RectangularDirection::SouthEast,
        ),
{
}

/// The staggered neighbors of a tile on the map, found by direct steps on the tile
/// coordinates, are the tiles one step away on the square grid that the staggered grid is
/// sheared from
/// ([`Neighbors::get_staggered_neighboring_positions`](crate::helpers::square_grid::neighbors::Neighbors::get_staggered_neighboring_positions)),
/// direction by direction: west is one column back and one row up, east one column on and one
/// row down.
pub proof fn lemma_staggered_neighbors_agree_with_square_grid(p: TilePos, map_size: TilemapSize)
    requires
        p.in_bounds(map_size),
        p.x + p.y + 2 <= i32::MAX,
    ensures
        staggered_steps_defined(p),
        staggered_neighborhood(p, map_size, true).east == staggered_step_on_map(
            p,
            map_size,
            RectangularDirection::East,
        ),
        staggered_neighborhood(p, map_size, true).north_east == staggered_step_on_map(
            p,
            map_size,
            RectangularDirection::NorthEast,
        ),
        staggered_neighborhood(p, map_size, true).north == staggered_step_on_map(
            p,
            map_size,
            RectangularDirection::North,
        ),
        staggered_neighborhood(p, map_size, true).north_west == staggered_step_on_map(
            p,
            map_size,
            RectangularDirection::NorthWest,
        ),
        staggered_neighborhood(p, map_size, true).west == staggered_step_on_map(
            p,
            map_size,
            RectangularDirection::West,
        ),
        staggered_neighborhood(p, map_size, true).south_west == staggered_step_on_map(
            p,
            map_size,
            RectangularDirection::SouthWest,
        ),
        staggered_neighborhood(p, map_size, true).south == staggered_step_on_map(
            p,
            map_size,
            RectangularDirection::South,
        ),
        staggered_neighborhood(p, map_size, true).south_east == staggered_step_on_map(
            p,
            map_size,
            RectangularDirection::SouthEast,
        ),
{
    let t = staggered_of_tile(p);
    let sq = square_of_staggered(t);
    assert(t.x == p.x && t.y == p.y);
    assert(sq.x == p.x && sq.y == p.x + p.y);
    assert forall|d: RectangularDirection| #[trigger] staggered_step_on_map(p, map_size, d)
        == tile_pos_on_map(
        p.x + square_offset_of(d).x,
        p.y + square_offset_of(d).y - square_offset_of(d).x,
        map_size,
    ) by {
        let sh = sq.shifted(d);
        assert(sh.x == sq.x + square_offset_of(d).x);
        assert(sh.y == sq.y + square_offset_of(d).y);
        let st = staggered_of_square(sh);
        assert(st.x == sh.x);
        assert(st.y == sh.y - sh.x);
    }
    assert(staggered_step_on_map(p, map_size, RectangularDirection::NorthEast) == tile_pos_on_map(
        p.x + 1,
        p.y + 0,
        map_size,
    ));
    assert(staggered_step_on_map(p, map_size, RectangularDirection::North) == tile_pos_on_map(
        p.x + 0,
        p.y + 1,
        map_size,
    ));
}

/// On a hexagonal map, every row-oriented coordinate system (`Row`, `RowOdd` and `RowEven`)
/// gives a tile no north or south neighbor and puts its six neighbors, from east
/// counter-clockwise, at the axial steps `Zero` to `Five`; every column-oriented system
/// (`Column`, `ColumnOdd` and `ColumnEven`) gives no east or west neighbor and puts its six
/// neighbors, from north counter-clockwise, at the steps `Zero` to `Five`. These are the tiles
/// that [`HexNeighbors::get_neighboring_positions`](crate::helpers::hex_grid::neighbors::HexNeighbors::get_neighboring_positions)
/// reports, and [`get_neighboring_pos`] returns this neighborhood for a hexagonal map.
pub proof fn lemma_hex_neighborhood_orientation(
    p: TilePos,
    map_size: TilemapSize,
    coord_sys: HexCoordSystem,
)
    ensures
        neighborhood(p, map_size, TilemapType::Hexagon(coord_sys)) == hex_neighborhood(
            p,
            map_size,
            coord_sys,
        ),
        (coord_sys is Row || coord_sys is RowOdd || coord_sys is RowEven) ==> ({
            let n = hex_neighborhood(p, map_size, coord_sys);
            &&& n.north is None
            &&& n.south is None
            &&& n.east == hex_neighbor_on_map(p, coord_sys, map_size, HexDirection::Zero)
            &&& n.north_east == hex_neighbor_on_map(p, coord_sys, map_size, HexDirection::One)
            &&& n.north_west == hex_neighbor_on_map(p, coord_sys, map_size, HexDirection::Two)
            &&& n.west == hex_neighbor_on_map(p, coord_sys, map_size, HexDirection::Three)
            &&& n.south_west == hex_neighbor_on_map(p, coord_sys, map_size, HexDirection::Four)
            &&& n.south_east == hex_neighbor_on_map(p, coord_sys, map_size, HexDirection::Five)
        }),
        (coord_sys is Column || coord_sys is ColumnOdd || coord_sys is ColumnEven) ==> ({
            let n = hex_neighborhood(p, map_size, coord_sys);
            &&& n.east is None
            &&& n.west is None
            &&& n.north == hex_neighbor_on_map(p, coord_sys, map_size, HexDirection::Zero)
            &&& n.north_west == hex_neighbor_on_map(p, coord_sys, map_size, HexDirection::One)
            &&& n.south_west == hex_neighbor_on_map(p, coord_sys, map_size, HexDirection::Two)
            &&& n.south == hex_neighbor_on_map(p, coord_sys, map_size, HexDirection::Three)
            &&& n.south_east == hex_neighbor_on_map(p, coord_sys, map_size, HexDirection::Four)
            &&& n.north_east == hex_neighbor_on_map(p, coord_sys, map_size, HexDirection::Five)
        }),
{
}

} // verus!
