//! Code for the isometric diamond coordinate system.
use crate::helpers::hex_grid::axial::fits_i32;
use crate::helpers::projection::tile_pos_on_map;
use crate::helpers::square_grid::neighbors::{square_offset_of, RectangularDirection};
use crate::helpers::square_grid::staggered::StaggeredPos;
use crate::helpers::square_grid::{square_of_tile, SquarePos};
use crate::map::TilemapSize;
use crate::tiles::TilePos;
use core::ops::{Add, Mul, Sub};
use vstd::prelude::*;

verus! {

/// Position for tiles arranged in [`Diamond`](crate::map::IsoCoordSystem::Diamond) isometric
/// coordinate system.
///
/// It is vector-like. In other words: it makes sense to add and subtract two `DiamondPos`, and
/// it makes sense to multiply a `DiamondPos` by an [`i32`] scalar.
#[derive(Clone, Copy, Debug, Ord, PartialOrd, Eq, PartialEq, Hash, Structural)]
pub struct DiamondPos {
    pub x: i32,
    pub y: i32,
}

/// The diamond coordinates of a staggered position: the column is kept, the row is shifted by
/// the column, wrapping around on `i32` overflow.
pub open spec fn diamond_of_staggered(p: StaggeredPos) -> DiamondPos {
    DiamondPos { x: p.x, y: p.y.wrapping_add(p.x) }
}

impl Add<DiamondPos> for DiamondPos {
    type Output = DiamondPos;

    fn add(self, rhs: DiamondPos) -> (p: Self::Output) {
        DiamondPos { x: self.x + rhs.x, y: self.y + rhs.y }
    }
}

impl vstd::std_specs::ops::AddSpecImpl<DiamondPos> for DiamondPos {
    open spec fn obeys_add_spec() -> bool {
        true
    }

    open spec fn add_req(self, rhs: DiamondPos) -> bool {
        fits_i32(self.x + rhs.x) && fits_i32(self.y + rhs.y)
    }

    open spec fn add_spec(self, rhs: DiamondPos) -> DiamondPos {
        DiamondPos { x: (self.x + rhs.x) as i32, y: (self.y + rhs.y) as i32 }
    }
}

impl Sub<DiamondPos> for DiamondPos {
    type Output = DiamondPos;

    fn sub(self, rhs: DiamondPos) -> (p: Self::Output) {
        DiamondPos { x: self.x - rhs.x, y: self.y - rhs.y }
    }
}

impl vstd::std_specs::ops::SubSpecImpl<DiamondPos> for DiamondPos {
    open spec fn obeys_sub_spec() -> bool {
        true
    }

    open spec fn sub_req(self, rhs: DiamondPos) -> bool {
        fits_i32(self.x - rhs.x) && fits_i32(self.y - rhs.y)
    }

    open spec fn sub_spec(self, rhs: DiamondPos) -> DiamondPos {
        DiamondPos { x: (self.x - rhs.x) as i32, y: (self.y - rhs.y) as i32 }
    }
}

impl Mul<DiamondPos> for i32 {
    type Output = DiamondPos;

    fn mul(self, rhs: DiamondPos) -> (p: Self::Output) {
        DiamondPos { x: self * rhs.x, y: self * rhs.y }
    }
}

impl vstd::std_specs::ops::MulSpecImpl<DiamondPos> for i32 {
    open spec fn obeys_mul_spec() -> bool {
        true
    }

    open spec fn mul_req(self, rhs: DiamondPos) -> bool {
        fits_i32(self * rhs.x) && fits_i32(self * rhs.y)
    }

    open spec fn mul_spec(self, rhs: DiamondPos) -> DiamondPos {
        DiamondPos { x: (self * rhs.x) as i32, y: (self * rhs.y) as i32 }
    }
}

impl From<TilePos> for DiamondPos {
    /// `x` and `y` are reinterpreted as `i32`s.
    #[inline]
    fn from(p: TilePos) -> (q: Self) {
        DiamondPos { x: p.x as i32, y: p.y as i32 }
    }
}

impl vstd::std_specs::convert::FromSpecImpl<TilePos> for DiamondPos {
    open spec fn obeys_from_spec() -> bool {
        true
    }

    open spec fn from_spec(p: TilePos) -> Self {
        DiamondPos { x: p.x as i32, y: p.y as i32 }
    }
}

impl From<&TilePos> for DiamondPos {
    /// `x` and `y` are reinterpreted as `i32`s.
    #[inline]
    fn from(p: &TilePos) -> (q: Self) {
        DiamondPos::from(*p)
    }
}

impl vstd::std_specs::convert::FromSpecImpl<&TilePos> for DiamondPos {
    open spec fn obeys_from_spec() -> bool {
        true
    }

    open spec fn from_spec(p: &TilePos) -> Self {
        DiamondPos { x: p.x as i32, y: p.y as i32 }
    }
}

impl From<StaggeredPos> for DiamondPos {
    /// The row is shifted by the column; on `i32` overflow it wraps around.
    #[inline]
    fn from(p: StaggeredPos) -> (q: Self) {
        DiamondPos { x: p.x, y: p.y.wrapping_add(p.x) }
    }
}

impl vstd::std_specs::convert::FromSpecImpl<StaggeredPos> for DiamondPos {
    open spec fn obeys_from_spec() -> bool {
        true
    }

    open spec fn from_spec(p: StaggeredPos) -> Self {
        diamond_of_staggered(p)
    }
}

impl From<&StaggeredPos> for DiamondPos {
    /// The row is shifted by the column; on `i32` overflow it wraps around.
    #[inline]
    fn from(p: &StaggeredPos) -> (q: Self) {
        DiamondPos::from(*p)
    }
}

impl vstd::std_specs::convert::FromSpecImpl<&StaggeredPos> for DiamondPos {
    open spec fn obeys_from_spec() -> bool {
        true
    }

    open spec fn from_spec(p: &StaggeredPos) -> Self {
        diamond_of_staggered(*p)
    }
}

impl From<SquarePos> for DiamondPos {
    /// The coordinates are kept as they are.
    #[inline]
    fn from(p: SquarePos) -> (q: Self) {
        DiamondPos { x: p.x, y: p.y }
    }
}

impl vstd::std_specs::convert::FromSpecImpl<SquarePos> for DiamondPos {
    open spec fn obeys_from_spec() -> bool {
        true
    }

    open spec fn from_spec(p: SquarePos) -> Self {
        DiamondPos { x: p.x, y: p.y }
    }
}

impl From<&SquarePos> for DiamondPos {
    /// The coordinates are kept as they are.
    #[inline]
    fn from(p: &SquarePos) -> (q: Self) {
        DiamondPos::from(*p)
    }
}

impl vstd::std_specs::convert::FromSpecImpl<&SquarePos> for DiamondPos {
    open spec fn obeys_from_spec() -> bool {
        true
    }

    open spec fn from_spec(p: &SquarePos) -> Self {
        DiamondPos { x: p.x, y: p.y }
    }
}

impl DiamondPos {
    /// Try converting into a [`TilePos`].
    ///
    /// Returns `None` if either one of `self.x` or `self.y` is negative, or lies outside of the
    /// bounds of `map_size`.
    #[inline]
    pub fn as_tile_pos(&self, map_size: &TilemapSize) -> (p: Option<TilePos>)
        ensures
            p == tile_pos_on_map(self.x as int, self.y as int, *map_size),
    {
        TilePos::from_i32_pair(self.x, self.y, map_size)
    }

    /// Calculate offset in the given direction: the grid of a diamond map has the connectivity
    /// of a square grid.
    #[inline]
    pub fn offset(&self, direction: &RectangularDirection) -> (p: DiamondPos)
        requires
            (SquarePos { x: self.x, y: self.y }).can_shift(*direction),
        ensures
            p == (DiamondPos {
                x: (SquarePos { x: self.x, y: self.y }).shifted(*direction).x,
                y: (SquarePos { x: self.x, y: self.y }).shifted(*direction).y,
            }),
    {
        DiamondPos::from(SquarePos::from(self) + SquarePos::from(*direction))
    }
}

impl TilePos {
    /// Get the neighbor lying in the specified direction from this position, if it fits on the
    /// map, assuming that this is a map using the isometric diamond coordinate system.
    #[inline]
    pub fn diamond_offset(&self, direction: &RectangularDirection, map_size: &TilemapSize) -> (p:
        Option<TilePos>)
        requires
            square_of_tile(*self).can_shift(*direction),
        ensures
            p == ({
                let s = square_of_tile(*self).shifted(*direction);
                tile_pos_on_map(s.x as int, s.y as int, *map_size)
            }),
    {
        DiamondPos::from(self).offset(direction).as_tile_pos(map_size)
    }
}

} // verus!
