//! Code for the isometric diamond coordinate system, with neighbors by compass direction.
use crate::helpers::hex_grid::axial::fits_i32;
use crate::helpers::neighbors::NeighborDirection;
use crate::helpers::projection::tile_pos_on_map;
use crate::helpers::square_grid::diamond::{diamond_of_staggered, DiamondPos as SquareDiamondPos};
use crate::helpers::square_grid::staggered::StaggeredPos;
use crate::map::TilemapSize;
use crate::tiles::TilePos;
use core::ops::{Add, Mul, Sub};
use vstd::prelude::*;
use vstd::std_specs::convert::FromSpec;

verus! {

/// Position for tiles arranged in [`Diamond`](crate::map::IsoCoordSystem::Diamond) isometric
/// coordinate system.
///
/// It is vector-like. In other words: it makes sense to add and subtract two `DiamondPos`, and
/// it makes sense to multiply a `DiamondPos` by an [`i32`] scalar.
///
/// The unit steps [`unit_x`] `(1, 0)` and [`unit_y`] `(0, -1)` correspond (respectively) with
/// [`North`](NeighborDirection::North) and [`West`](NeighborDirection::West). Since `DiamondPos`
/// is vector-like, the other directions are obtained by adding and subtracting them:
/// [`diamond_neighbor_step`] lists the step taken in each compass direction.
#[derive(Clone, Copy, Debug, Ord, PartialOrd, Eq, PartialEq, Hash, Structural)]
pub struct DiamondPos {
    pub x: i32,
    pub y: i32,
}

impl Add<DiamondPos> for DiamondPos {
    type Output = DiamondPos;

    fn add(self, rhs: DiamondPos) -> (p: Self::Output) {
        DiamondPos { x: self.x + rhs.x, y: self.y + rhs.y }
    }
}

impl vstd::std_specs::ops::AddSpecImpl<DiamondPos> for DiamondPos {
    open spec fn obeys_add_spec() -> bool {
        true
    }

    open spec fn add_req(self, rhs: DiamondPos) -> bool {
        fits_i32(self.x + rhs.x) && fits_i32(self.y + rhs.y)
    }

    open spec fn add_spec(self, rhs: DiamondPos) -> DiamondPos {
        DiamondPos { x: (self.x + rhs.x) as i32, y: (self.y + rhs.y) as i32 }
    }
}

impl Sub<DiamondPos> for DiamondPos {
    type Output = DiamondPos;

    fn sub(self, rhs: DiamondPos) -> (p: Self::Output) {
        DiamondPos { x: self.x - rhs.x, y: self.y - rhs.y }
    }
}

impl vstd::std_specs::ops::SubSpecImpl<DiamondPos> for DiamondPos {
    open spec fn obeys_sub_spec() -> bool {
        true
    }

    open spec fn sub_req(self, rhs: DiamondPos) -> bool {
        fits_i32(self.x - rhs.x) && fits_i32(self.y - rhs.y)
    }

    open spec fn sub_spec(self, rhs: DiamondPos) -> DiamondPos {
        DiamondPos { x: (self.x - rhs.x) as i32, y: (self.y - rhs.y) as i32 }
    }
}

impl Mul<DiamondPos> for i32 {
    type Output = DiamondPos;

    fn mul(self, rhs: DiamondPos) -> (p: Self::Output) {
        DiamondPos { x: self * rhs.x, y: self * rhs.y }
    }
}

impl vstd::std_specs::ops::MulSpecImpl<DiamondPos> for i32 {
    open spec fn obeys_mul_spec() -> bool {
        true
    }

    open spec fn mul_req(self, rhs: DiamondPos) -> bool {
        fits_i32(self * rhs.x) && fits_i32(self * rhs.y)
    }

    open spec fn mul_spec(self, rhs: DiamondPos) -> DiamondPos {
        DiamondPos { x: (self * rhs.x) as i32, y: (self * rhs.y) as i32 }
    }
}

impl From<&TilePos> for DiamondPos {
    /// `x` and `y` are reinterpreted as `i32`s.
    fn from(tile_pos: &TilePos) -> (p: Self) {
        Self { x: tile_pos.x as i32, y: tile_pos.y as i32 }
    }
}

impl vstd::std_specs::convert::FromSpecImpl<&TilePos> for DiamondPos {
    open spec fn obeys_from_spec() -> bool {
        true
    }

    open spec fn from_spec(tile_pos: &TilePos) -> Self {
        DiamondPos { x: tile_pos.x as i32, y: tile_pos.y as i32 }
    }
}

impl From<&StaggeredPos> for DiamondPos {
    /// The row is shifted by the column; on `i32` overflow it wraps around.
    fn from(staggered_pos: &StaggeredPos) -> (p: Self) {
        DiamondPos { x: staggered_pos.x, y: staggered_pos.y.wrapping_add(staggered_pos.x) }
    }
}

impl vstd::std_specs::convert::FromSpecImpl<&StaggeredPos> for DiamondPos {
    open spec fn obeys_from_spec() -> bool {
        true
    }

    open spec fn from_spec(staggered_pos: &StaggeredPos) -> Self {
        DiamondPos { x: staggered_pos.x, y: staggered_pos.y.wrapping_add(staggered_pos.x) }
    }
}

/// The unit step towards [`North`](NeighborDirection::North).
pub fn unit_x() -> (p: DiamondPos)
    ensures
        p == (DiamondPos { x: 1, y: 0 }),
{
    DiamondPos { x: 1, y: 0 }
}

/// The unit step towards [`West`](NeighborDirection::West).
pub fn unit_y() -> (p: DiamondPos)
    ensures
        p == (DiamondPos { x: 0, y: -1i32 }),
{
    DiamondPos { x: 0, y: -1 }
}

/// The step `(dx, dy)` that [`DiamondPos::neighbor`] takes in each compass direction: North is
/// `(1, 0)`, West `(0, -1)`, South and East their opposites, and each diagonal the sum of its
/// two compass neighbors.
pub open spec fn diamond_neighbor_step(direction: NeighborDirection) -> (int, int) {
    match direction {
        NeighborDirection::North => (1, 0),
        NeighborDirection::NorthWest => (1, -1),
        NeighborDirection::West => (0, -1),
        NeighborDirection::SouthWest => (-1, -1),
        NeighborDirection::South => (-1, 0),
        NeighborDirection::SouthEast => (-1, 1),
        NeighborDirection::East => (0, 1),
        NeighborDirection::NorthEast => (1, 1),
    }
}

impl DiamondPos {
    /// Get the position of the neighbor in the specified direction.
    pub fn neighbor(&self, direction: NeighborDirection) -> (p: DiamondPos)
        requires
            i32::MIN < self.x < i32::MAX,
            i32::MIN < self.y < i32::MAX,
        ensures
            p.x == self.x + diamond_neighbor_step(direction).0,
            p.y == self.y + diamond_neighbor_step(direction).1,
    {
        let ux = unit_x();
        let uy = unit_y();
        match direction {
            NeighborDirection::North => *self + ux,
            NeighborDirection::NorthWest => *self + ux + uy,
            NeighborDirection::West => *self + uy,
            NeighborDirection::SouthWest => *self - ux + uy,
            NeighborDirection::South => *self - ux,
            NeighborDirection::SouthEast => *self - ux - uy,
            NeighborDirection::East => *self - uy,
            NeighborDirection::NorthEast => *self + ux - uy,
        }
    }

    /// Try converting into a [`TilePos`].
    ///
    /// Returns `None` if either one of `self.x` or `self.y` is negative, or lies outside of the
    /// bounds of `map_size`.
    pub fn as_tile_pos(&self, map_size: &TilemapSize) -> (p: Option<TilePos>)
        ensures
            p == tile_pos_on_map(self.x as int, self.y as int, *map_size),
    {
        TilePos::from_i32_pair(self.x, self.y, map_size)
    }
}

/// The eight compass directions step to eight different neighbors.
pub proof fn lemma_diamond_steps_distinct(d1: NeighborDirection, d2: NeighborDirection)
    requires
        d1 != d2,
    ensures
        diamond_neighbor_step(d1) != diamond_neighbor_step(d2),
{
}

/// Converting a staggered position into diamond coordinates keeps the column and moves the
/// row forward by the column, as on the square grid: it agrees with the square grid's
/// conversion ([`crate::helpers::square_grid::diamond::DiamondPos`] from a staggered position),
/// and shifting the row back by the column gives the staggered position back.
pub proof fn lemma_diamond_of_staggered_shears_rows(s: StaggeredPos)
    requires
        i32::MIN <= s.y + s.x <= i32::MAX,
    ensures
        ({
            let d = <DiamondPos as FromSpec<&StaggeredPos>>::from_spec(&s);
            &&& <DiamondPos as FromSpec<&StaggeredPos>>::obeys_from_spec()
            &&& d.x == s.x
            &&& d.y - d.x == s.y
            &&& d.x == diamond_of_staggered(s).x && d.y == diamond_of_staggered(s).y
            &&& <StaggeredPos as FromSpec<SquareDiamondPos>>::from_spec(
                SquareDiamondPos { x: d.x, y: d.y },
            ) == s
        }),
{
}

/// The compass steps of a diamond position are built from two unit steps: North is `(1, 0)`
/// and West `(0, -1)`; South and East are their opposites; each diagonal is the sum of the two
/// compass steps it lies between.
pub proof fn lemma_diamond_steps_compose(d: NeighborDirection)
    ensures
        diamond_neighbor_step(NeighborDirection::North) == (1int, 0int),
        diamond_neighbor_step(NeighborDirection::West) == (0int, -1int),
        diamond_neighbor_step(NeighborDirection::South).0 == -diamond_neighbor_step(NeighborDirection::North).0,
        diamond_neighbor_step(NeighborDirection::South).1 == -diamond_neighbor_step(NeighborDirection::North).1,
        diamond_neighbor_step(NeighborDirection::East).0 == -diamond_neighbor_step(NeighborDirection::West).0,
        diamond_neighbor_step(NeighborDirection::East).1 == -diamond_neighbor_step(NeighborDirection::West).1,
        diamond_neighbor_step(NeighborDirection::NorthWest).0 == diamond_neighbor_step(NeighborDirection::North).0
            + diamond_neighbor_step(NeighborDirection::West).0,
        diamond_neighbor_step(NeighborDirection::NorthWest).1 == diamond_neighbor_step(NeighborDirection::North).1
            + diamond_neighbor_step(NeighborDirection::West).1,
        diamond_neighbor_step(NeighborDirection::NorthEast).0 == diamond_neighbor_step(NeighborDirection::North).0
            + diamond_neighbor_step(NeighborDirection::East).0,
        diamond_neighbor_step(NeighborDirection::NorthEast).1 == diamond_neighbor_step(NeighborDirection::North).1
            + diamond_neighbor_step(NeighborDirection::East).1,
        diamond_neighbor_step(NeighborDirection::SouthWest).0 == diamond_neighbor_step(NeighborDirection::South).0
            + diamond_neighbor_step(NeighborDirection::West).0,
        diamond_neighbor_step(NeighborDirection::SouthWest).1 == diamond_neighbor_step(NeighborDirection::South).1
            + diamond_neighbor_step(NeighborDirection::West).1,
        diamond_neighbor_step(NeighborDirection::SouthEast).0 == diamond_neighbor_step(NeighborDirection::South).0
            + diamond_neighbor_step(NeighborDirection::East).0,
        diamond_neighbor_step(NeighborDirection::SouthEast).1 == diamond_neighbor_step(NeighborDirection::South).1
            + diamond_neighbor_step(NeighborDirection::East).1,
{
}

/// A tile position read as a diamond position keeps its coordinates, as on the square grid, and
/// converting it back onto a map that holds the tile gives the tile.
pub proof fn lemma_diamond_of_tile_round_trip(t: TilePos, map_size: TilemapSize)
    requires
        t.x <= i32::MAX,
        t.y <= i32::MAX,
    ensures
        <DiamondPos as FromSpec<&TilePos>>::obeys_from_spec(),
        <DiamondPos as FromSpec<&TilePos>>::from_spec(&t).x == t.x,
        <DiamondPos as FromSpec<&TilePos>>::from_spec(&t).y == t.y,
        t.in_bounds(map_size) ==> tile_pos_on_map(
            <DiamondPos as FromSpec<&TilePos>>::from_spec(&t).x as int,
            <DiamondPos as FromSpec<&TilePos>>::from_spec(&t).y as int,
            map_size,
        ) == Some(t),
{
}

} // verus!
