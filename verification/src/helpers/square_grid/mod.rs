//! Positions on square grids, and on the isometric grids built on them.
pub mod diamond;
pub mod neighbors;
pub mod staggered;

use crate::helpers::hex_grid::axial::fits_i32;
use crate::helpers::projection::tile_pos_on_map;
use crate::helpers::square_grid::diamond::DiamondPos;
use crate::helpers::square_grid::neighbors::{square_offset_of, RectangularDirection};
use crate::helpers::square_grid::staggered::StaggeredPos;
use crate::map::TilemapSize;
use crate::tiles::TilePos;
use core::ops::{Add, Mul, Sub};
use vstd::prelude::*;

verus! {

/// Position for tiles arranged in a square coordinate system.
///
/// It is vector-like. In other words: it makes sense to add and subtract two `SquarePos`, and
/// it makes sense to multiply a `SquarePos` by an [`i32`] scalar.
#[derive(Clone, Copy, Debug, Ord, PartialOrd, Eq, PartialEq, Hash, Structural)]
pub struct SquarePos {
    pub x: i32,
    pub y: i32,
}

/// The square coordinates of a staggered position: the column is kept, the row is shifted by
/// the column, wrapping around on `i32` overflow.
pub open spec fn square_of_staggered(p: StaggeredPos) -> SquarePos {
    SquarePos { x: p.x, y: p.y.wrapping_add(p.x) }
}

/// The position of a tile of a map, each coordinate reinterpreted as an `i32`.
pub open spec fn square_of_tile(tile_pos: TilePos) -> SquarePos {
    SquarePos { x: tile_pos.x as i32, y: tile_pos.y as i32 }
}

impl SquarePos {
    /// The position one step away in the given direction.
    pub open spec fn shifted(self, direction: RectangularDirection) -> SquarePos {
        SquarePos {
            x: (self.x + square_offset_of(direction).x) as i32,
            y: (self.y + square_offset_of(direction).y) as i32,
        }
    }

    /// Does the step from `self` in the given direction stay within `i32`?
    pub open spec fn can_shift(self, direction: RectangularDirection) -> bool {
        fits_i32(self.x + square_offset_of(direction).x) && fits_i32(
            self.y + square_offset_of(direction).y,
        )
    }
}

impl Add<SquarePos> for SquarePos {
    type Output = SquarePos;

    fn add(self, rhs: SquarePos) -> (p: Self::Output) {
        SquarePos { x: self.x + rhs.x, y: self.y + rhs.y }
    }
}

impl vstd::std_specs::ops::AddSpecImpl<SquarePos> for SquarePos {
    open spec fn obeys_add_spec() -> bool {
        true
    }

    open spec fn add_req(self, rhs: SquarePos) -> bool {
        fits_i32(self.x + rhs.x) && fits_i32(self.y + rhs.y)
    }

    open spec fn add_spec(self, rhs: SquarePos) -> SquarePos {
        SquarePos { x: (self.x + rhs.x) as i32, y: (self.y + rhs.y) as i32 }
    }
}

impl Sub<SquarePos> for SquarePos {
    type Output = SquarePos;

    fn sub(self, rhs: SquarePos) -> (p: Self::Output) {
        SquarePos { x: self.x - rhs.x, y: self.y - rhs.y }
    }
}

impl vstd::std_specs::ops::SubSpecImpl<SquarePos> for SquarePos {
    open spec fn obeys_sub_spec() -> bool {
        true
    }

    open spec fn sub_req(self, rhs: SquarePos) -> bool {
        fits_i32(self.x - rhs.x) && fits_i32(self.y - rhs.y)
    }

    open spec fn sub_spec(self, rhs: SquarePos) -> SquarePos {
        SquarePos { x: (self.x - rhs.x) as i32, y: (self.y - rhs.y) as i32 }
    }
}

impl Mul<SquarePos> for i32 {
    type Output = SquarePos;

    fn mul(self, rhs: SquarePos) -> (p: Self::Output) {
        SquarePos { x: self * rhs.x, y: self * rhs.y }
    }
}

impl vstd::std_specs::ops::MulSpecImpl<SquarePos> for i32 {
    open spec fn obeys_mul_spec() -> bool {
        true
    }

    open spec fn mul_req(self, rhs: SquarePos) -> bool {
        fits_i32(self * rhs.x) && fits_i32(self * rhs.y)
    }

    open spec fn mul_spec(self, rhs: SquarePos) -> SquarePos {
        SquarePos { x: (self * rhs.x) as i32, y: (self * rhs.y) as i32 }
    }
}

impl From<&TilePos> for SquarePos {
    /// `x` and `y` are reinterpreted as `i32`s.
    #[inline]
    fn from(p: &TilePos) -> (q: Self) {
        SquarePos { x: p.x as i32, y: p.y as i32 }
    }
}

impl vstd::std_specs::convert::FromSpecImpl<&TilePos> for SquarePos {
    open spec fn obeys_from_spec() -> bool {
        true
    }

    open spec fn from_spec(p: &TilePos) -> Self {
        square_of_tile(*p)
    }
}

impl From<&DiamondPos> for SquarePos {
    /// The coordinates are kept as they are.
    #[inline]
    fn from(p: &DiamondPos) -> (q: Self) {
        SquarePos { x: p.x, y: p.y }
    }
}

impl vstd::std_specs::convert::FromSpecImpl<&DiamondPos> for SquarePos {
    open spec fn obeys_from_spec() -> bool {
        true
    }

    open spec fn from_spec(p: &DiamondPos) -> Self {
        SquarePos { x: p.x, y: p.y }
    }
}

impl From<DiamondPos> for SquarePos {
    /// The coordinates are kept as they are.
    #[inline]
    fn from(p: DiamondPos) -> (q: Self) {
        SquarePos { x: p.x, y: p.y }
    }
}

impl vstd::std_specs::convert::FromSpecImpl<DiamondPos> for SquarePos {
    open spec fn obeys_from_spec() -> bool {
        true
    }

    open spec fn from_spec(p: DiamondPos) -> Self {
        SquarePos { x: p.x, y: p.y }
    }
}

impl From<&StaggeredPos> for SquarePos {
    /// The row is shifted by the column; on `i32` overflow it wraps around.
    #[inline]
    fn from(p: &StaggeredPos) -> (q: Self) {
        SquarePos { x: p.x, y: p.y.wrapping_add(p.x) }
    }
}

impl vstd::std_specs::convert::FromSpecImpl<&StaggeredPos> for SquarePos {
    open spec fn obeys_from_spec() -> bool {
        true
    }

    open spec fn from_spec(p: &StaggeredPos) -> Self {
        square_of_staggered(*p)
    }
}

impl From<StaggeredPos> for SquarePos {
    /// The row is shifted by the column; on `i32` overflow it wraps around.
    #[inline]
    fn from(p: StaggeredPos) -> (q: Self) {
        SquarePos { x: p.x, y: p.y.wrapping_add(p.x) }
    }
}

impl vstd::std_specs::convert::FromSpecImpl<StaggeredPos> for SquarePos {
    open spec fn obeys_from_spec() -> bool {
        true
    }

    open spec fn from_spec(p: StaggeredPos) -> Self {
        square_of_staggered(p)
    }
}

impl SquarePos {
    /// Try converting into a [`TilePos`].
    ///
    /// Returns `None` if either one of `self.x` or `self.y` is negative, or lies outside of the
    /// bounds of `map_size`.
    #[inline]
    pub fn as_tile_pos(&self, map_size: &TilemapSize) -> (p: Option<TilePos>)
        ensures
            p == tile_pos_on_map(self.x as int, self.y as int, *map_size),
    {
        TilePos::from_i32_pair(self.x, self.y, map_size)
    }

    /// Calculate offset in the given direction.
    #[inline]
    pub fn offset(&self, direction: &RectangularDirection) -> (p: SquarePos)
        requires
            self.can_shift(*direction),
        ensures
            p == self.shifted(*direction),
    {
        *self + SquarePos::from(*direction)
    }
}

impl TilePos {
    /// Get the neighbor lying in the specified direction from this position, if it fits on the
    /// map, assuming that this is a map using the standard (non-isometric) square coordinate
    /// system.
    #[inline]
    pub fn square_offset(&self, direction: &RectangularDirection, map_size: &TilemapSize) -> (p:
        Option<TilePos>)
        requires
            square_of_tile(*self).can_shift(*direction),
        ensures
            p == ({
                let s = square_of_tile(*self).shifted(*direction);
                tile_pos_on_map(s.x as int, s.y as int, *map_size)
            }),
    {
        SquarePos::from(self).offset(direction).as_tile_pos(map_size)
    }
}

} // verus!
