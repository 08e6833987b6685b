//! Code for the isometric staggered coordinate system.
use crate::helpers::hex_grid::axial::fits_i32;
use crate::helpers::projection::tile_pos_on_map;
use crate::helpers::square_grid::diamond::DiamondPos;
use crate::helpers::square_grid::neighbors::RectangularDirection;
use crate::helpers::square_grid::{square_of_staggered, SquarePos};
use crate::map::TilemapSize;
use crate::tiles::TilePos;
use core::ops::{Add, Mul, Sub};
use vstd::prelude::*;

verus! {

/// Position for tiles arranged in [`Staggered`](crate::map::IsoCoordSystem::Staggered)
/// isometric coordinate system.
///
/// Under the hood a `StaggeredPos` is mapped to a [`SquarePos`] (or a [`DiamondPos`]) by
/// shifting its row by its column.
#[derive(Clone, Copy, Debug, Ord, PartialOrd, Eq, PartialEq, Hash, Structural)]
pub struct StaggeredPos {
    pub x: i32,
    pub y: i32,
}

/// The staggered coordinates of a square position: the column is kept, the row is shifted back
/// by the column, wrapping around on `i32` overflow.
pub open spec fn staggered_of_square(p: SquarePos) -> StaggeredPos {
    StaggeredPos { x: p.x, y: p.y.wrapping_sub(p.x) }
}

/// The staggered position of a tile of a map, each coordinate reinterpreted as an `i32`.
pub open spec fn staggered_of_tile(tile_pos: TilePos) -> StaggeredPos {
    StaggeredPos { x: tile_pos.x as i32, y: tile_pos.y as i32 }
}

impl From<&TilePos> for StaggeredPos {
    /// `x` and `y` are reinterpreted as `i32`s.
    #[inline]
    fn from(p: &TilePos) -> (q: Self) {
        StaggeredPos { x: p.x as i32, y: p.y as i32 }
    }
}

impl vstd::std_specs::convert::FromSpecImpl<&TilePos> for StaggeredPos {
    open spec fn obeys_from_spec() -> bool {
        true
    }

    open spec fn from_spec(p: &TilePos) -> Self {
        staggered_of_tile(*p)
    }
}

impl From<DiamondPos> for StaggeredPos {
    /// The row is shifted back by the column; on `i32` overflow it wraps around.
    #[inline]
    fn from(p: DiamondPos) -> (q: Self) {
        StaggeredPos { x: p.x, y: p.y.wrapping_sub(p.x) }
    }
}

impl vstd::std_specs::convert::FromSpecImpl<DiamondPos> for StaggeredPos {
    open spec fn obeys_from_spec() -> bool {
        true
    }

    open spec fn from_spec(p: DiamondPos) -> Self {
        StaggeredPos { x: p.x, y: p.y.wrapping_sub(p.x) }
    }
}

impl From<&DiamondPos> for StaggeredPos {
    /// The row is shifted back by the column; on `i32` overflow it wraps around.
    #[inline]
    fn from(p: &DiamondPos) -> (q: Self) {
        StaggeredPos::from(*p)
    }
}

impl vstd::std_specs::convert::FromSpecImpl<&DiamondPos> for StaggeredPos {
    open spec fn obeys_from_spec() -> bool {
        true
    }

    open spec fn from_spec(p: &DiamondPos) -> Self {
        StaggeredPos { x: p.x, y: p.y.wrapping_sub(p.x) }
    }
}

impl From<SquarePos> for StaggeredPos {
    /// The row is shifted back by the column; on `i32` overflow it wraps around.
    #[inline]
    fn from(p: SquarePos) -> (q: Self) {
        StaggeredPos { x: p.x, y: p.y.wrapping_sub(p.x) }
    }
}

impl vstd::std_specs::convert::FromSpecImpl<SquarePos> for StaggeredPos {
    open spec fn obeys_from_spec() -> bool {
        true
    }

    open spec fn from_spec(p: SquarePos) -> Self {
        staggered_of_square(p)
    }
}

impl From<&SquarePos> for StaggeredPos {
    /// The row is shifted back by the column; on `i32` overflow it wraps around.
    #[inline]
    fn from(p: &SquarePos) -> (q: Self) {
        StaggeredPos::from(*p)
    }
}

impl vstd::std_specs::convert::FromSpecImpl<&SquarePos> for StaggeredPos {
    open spec fn obeys_from_spec() -> bool {
        true
    }

    open spec fn from_spec(p: &SquarePos) -> Self {
        staggered_of_square(*p)
    }
}

impl Add<StaggeredPos> for StaggeredPos {
    type Output = StaggeredPos;

    fn add(self, rhs: StaggeredPos) -> (p: Self::Output) {
        StaggeredPos { x: self.x + rhs.x, y: self.y + rhs.y }
    }
}

impl vstd::std_specs::ops::AddSpecImpl<StaggeredPos> for StaggeredPos {
    open spec fn obeys_add_spec() -> bool {
        true
    }

    open spec fn add_req(self, rhs: StaggeredPos) -> bool {
        fits_i32(self.x + rhs.x) && fits_i32(self.y + rhs.y)
    }

    open spec fn add_spec(self, rhs: StaggeredPos) -> StaggeredPos {
        StaggeredPos { x: (self.x + rhs.x) as i32, y: (self.y + rhs.y) as i32 }
    }
}

impl Sub<StaggeredPos> for StaggeredPos {
    type Output = StaggeredPos;

    fn sub(self, rhs: StaggeredPos) -> (p: Self::Output) {
        StaggeredPos { x: self.x - rhs.x, y: self.y - rhs.y }
    }
}

impl vstd::std_specs::ops::SubSpecImpl<StaggeredPos> for StaggeredPos {
    open spec fn obeys_sub_spec() -> bool {
        true
    }

    open spec fn sub_req(self, rhs: StaggeredPos) -> bool {
        fits_i32(self.x - rhs.x) && fits_i32(self.y - rhs.y)
    }

    open spec fn sub_spec(self, rhs: StaggeredPos) -> StaggeredPos {
        StaggeredPos { x: (self.x - rhs.x) as i32, y: (self.y - rhs.y) as i32 }
    }
}

impl Mul<StaggeredPos> for i32 {
    type Output = StaggeredPos;

    fn mul(self, rhs: StaggeredPos) -> (p: Self::Output) {
        StaggeredPos { x: self * rhs.x, y: self * rhs.y }
    }
}

impl vstd::std_specs::ops::MulSpecImpl<StaggeredPos> for i32 {
    open spec fn obeys_mul_spec() -> bool {
        true
    }

    open spec fn mul_req(self, rhs: StaggeredPos) -> bool {
        fits_i32(self * rhs.x) && fits_i32(self * rhs.y)
    }

    open spec fn mul_spec(self, rhs: StaggeredPos) -> StaggeredPos {
        StaggeredPos { x: (self * rhs.x) as i32, y: (self * rhs.y) as i32 }
    }
}

impl StaggeredPos {
    /// Try converting into a [`TilePos`].
    ///
    /// Returns `None` if either one of `self.x` or `self.y` is negative, or lies outside of the
    /// bounds of `map_size`.
    pub fn as_tile_pos(&self, map_size: &TilemapSize) -> (p: Option<TilePos>)
        ensures
            p == tile_pos_on_map(self.x as int, self.y as int, *map_size),
    {
        TilePos::from_i32_pair(self.x, self.y, map_size)
    }

    /// Calculate offset in the given direction: the step is taken on the square grid that the
    /// staggered grid is sheared from.
    pub fn offset(&self, direction: &RectangularDirection) -> (p: StaggeredPos)
        requires
            square_of_staggered(*self).can_shift(*direction),
        ensures
            p == staggered_of_square(square_of_staggered(*self).shifted(*direction)),
    {
        StaggeredPos::from(SquarePos::from(self) + SquarePos::from(*direction))
    }
}

/// Shearing between the square and the staggered grid is a bijection: converting a position
/// into the other grid and back gives it back, also where the coordinates wrap around.
pub proof fn lemma_staggered_square_round_trip(s: StaggeredPos, q: SquarePos)
    ensures
        staggered_of_square(square_of_staggered(s)) == s,
        square_of_staggered(staggered_of_square(q)) == q,
{
}

} // verus!
