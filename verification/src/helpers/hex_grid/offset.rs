//! Code for the offset coordinate systems.
use crate::helpers::hex_grid::axial::{
    axial_of_col_even, axial_of_col_odd, axial_of_row_even, axial_of_row_odd, col_even_of_axial,
    col_odd_of_axial, row_even_of_axial, row_odd_of_axial, AxialPos,
};
use crate::helpers::hex_grid::neighbors::{HexColDirection, HexDirection, HexRowDirection};
use crate::helpers::projection::tile_pos_on_map;
use crate::map::TilemapSize;
use crate::tiles::TilePos;
use vstd::prelude::*;

verus! {

/// A position in a hex grid labelled according to [`RowOdd`](crate::map::HexCoordSystem::RowOdd).
#[derive(Clone, Copy, Debug, Ord, PartialOrd, Eq, PartialEq, Hash, Structural)]
pub struct RowOddPos {
    pub q: i32,
    pub r: i32,
}

impl RowOddPos {
    /// Try converting into a [`TilePos`].
    ///
    /// Returns `None` if either one of `q` or `r` is negative, or lies out of the bounds of
    /// `map_size`.
    #[inline]
    pub fn as_tile_pos_given_map_size(&self, map_size: &TilemapSize) -> (p: Option<TilePos>)
        ensures
            p == tile_pos_on_map(self.q as int, self.r as int, *map_size),
    {
        TilePos::from_i32_pair(self.q, self.r, map_size)
    }

    /// Convert naively into a [`TilePos`].
    ///
    /// `q` becomes `x` and `r` becomes `y`, each reinterpreted as a `u32`.
    #[inline]
    pub fn as_tile_pos_unchecked(&self) -> (p: TilePos)
        ensures
            p == (TilePos { x: self.q as u32, y: self.r as u32 }),
    {
        TilePos { x: self.q as u32, y: self.r as u32 }
    }

    /// Get the tile offset from `self` in the given [`HexDirection`].
    #[inline]
    pub fn offset(&self, direction: HexDirection) -> (p: Self)
        requires
            axial_of_row_odd(*self).can_shift(direction),
        ensures
            p == row_odd_of_axial(axial_of_row_odd(*self).shifted(direction)),
    {
        Self::from(AxialPos::from(*self).offset(direction))
    }

    /// Get the tile offset from `self` in the given [`HexRowDirection`].
    #[inline]
    pub fn offset_compass(&self, direction: HexRowDirection) -> (p: Self)
        requires
            axial_of_row_odd(*self).can_shift(direction.hex_direction()),
        ensures
            p == row_odd_of_axial(axial_of_row_odd(*self).shifted(direction.hex_direction())),
    {
        Self::from(AxialPos::from(*self).offset(direction.into()))
    }
}

impl From<&TilePos> for RowOddPos {
    /// `x` becomes `q` and `y` becomes `r`, each reinterpreted as an `i32`.
    #[inline]
    fn from(tile_pos: &TilePos) -> (p: Self) {
        RowOddPos { q: tile_pos.x as i32, r: tile_pos.y as i32 }
    }
}

impl vstd::std_specs::convert::FromSpecImpl<&TilePos> for RowOddPos {
    open spec fn obeys_from_spec() -> bool {
        true
    }

    open spec fn from_spec(tile_pos: &TilePos) -> Self {
        RowOddPos { q: tile_pos.x as i32, r: tile_pos.y as i32 }
    }
}

/// A position in a hex grid labelled according to [`RowEven`](crate::map::HexCoordSystem::RowEven).
#[derive(Clone, Copy, Debug, Ord, PartialOrd, Eq, PartialEq, Hash, Structural)]
pub struct RowEvenPos {
    pub q: i32,
    pub r: i32,
}

impl RowEvenPos {
    /// Try converting into a [`TilePos`].
    ///
    /// Returns `None` if either one of `q` or `r` is negative, or lies out of the bounds of
    /// `map_size`.
    #[inline]
    pub fn as_tile_pos_given_map_size(&self, map_size: &TilemapSize) -> (p: Option<TilePos>)
        ensures
            p == tile_pos_on_map(self.q as int, self.r as int, *map_size),
    {
        TilePos::from_i32_pair(self.q, self.r, map_size)
    }

    /// Convert naively into a [`TilePos`].
    ///
    /// `q` becomes `x` and `r` becomes `y`, each reinterpreted as a `u32`.
    #[inline]
    pub fn as_tile_pos_unchecked(&self) -> (p: TilePos)
        ensures
            p == (TilePos { x: self.q as u32, y: self.r as u32 }),
    {
        TilePos { x: self.q as u32, y: self.r as u32 }
    }

    /// Get the tile offset from `self` in the given [`HexDirection`].
    #[inline]
    pub fn offset(&self, direction: HexDirection) -> (p: Self)
        requires
            axial_of_row_even(*self).can_shift(direction),
        ensures
            p == row_even_of_axial(axial_of_row_even(*self).shifted(direction)),
    {
        Self::from(AxialPos::from(*self).offset(direction))
    }

    /// Get the tile offset from `self` in the given [`HexRowDirection`].
    #[inline]
    pub fn offset_compass(&self, direction: HexRowDirection) -> (p: Self)
        requires
            axial_of_row_even(*self).can_shift(direction.hex_direction()),
        ensures
            p == row_even_of_axial(axial_of_row_even(*self).shifted(direction.hex_direction())),
    {
        Self::from(AxialPos::from(*self).offset(direction.into()))
    }
}

impl From<&TilePos> for RowEvenPos {
    /// `x` becomes `q` and `y` becomes `r`, each reinterpreted as an `i32`.
    #[inline]
    fn from(tile_pos: &TilePos) -> (p: Self) {
        RowEvenPos { q: tile_pos.x as i32, r: tile_pos.y as i32 }
    }
}

impl vstd::std_specs::convert::FromSpecImpl<&TilePos> for RowEvenPos {
    open spec fn obeys_from_spec() -> bool {
        true
    }

    open spec fn from_spec(tile_pos: &TilePos) -> Self {
        RowEvenPos { q: tile_pos.x as i32, r: tile_pos.y as i32 }
    }
}

/// A position in a hex grid labelled according to [`ColumnOdd`](crate::map::HexCoordSystem::ColumnOdd).
#[derive(Clone, Copy, Debug, Ord, PartialOrd, Eq, PartialEq, Hash, Structural)]
pub struct ColOddPos {
    pub q: i32,
    pub r: i32,
}

impl ColOddPos {
    /// Try converting into a [`TilePos`].
    ///
    /// Returns `None` if either one of `q` or `r` is negative, or lies out of the bounds of
    /// `map_size`.
    #[inline]
    pub fn as_tile_pos_given_map_size(&self, map_size: &TilemapSize) -> (p: Option<TilePos>)
        ensures
            p == tile_pos_on_map(self.q as int, self.r as int, *map_size),
    {
        TilePos::from_i32_pair(self.q, self.r, map_size)
    }

    /// Convert naively into a [`TilePos`].
    ///
    /// `q` becomes `x` and `r` becomes `y`, each reinterpreted as a `u32`.
    #[inline]
    pub fn as_tile_pos_unchecked(&self) -> (p: TilePos)
        ensures
            p == (TilePos { x: self.q as u32, y: self.r as u32 }),
    {
        TilePos { x: self.q as u32, y: self.r as u32 }
    }

    /// Get the tile offset from `self` in the given [`HexDirection`].
    #[inline]
    pub fn offset(&self, direction: HexDirection) -> (p: Self)
        requires
            axial_of_col_odd(*self).can_shift(direction),
        ensures
            p == col_odd_of_axial(axial_of_col_odd(*self).shifted(direction)),
    {
        Self::from(AxialPos::from(*self).offset(direction))
    }

    /// Get the tile offset from `self` in the given [`HexColDirection`].
    #[inline]
    pub fn offset_compass(&self, direction: HexColDirection) -> (p: Self)
        requires
            axial_of_col_odd(*self).can_shift(direction.hex_direction()),
        ensures
            p == col_odd_of_axial(axial_of_col_odd(*self).shifted(direction.hex_direction())),
    {
        Self::from(AxialPos::from(*self).offset(direction.into()))
    }
}

impl From<&TilePos> for ColOddPos {
    /// `x` becomes `q` and `y` becomes `r`, each reinterpreted as an `i32`.
    #[inline]
    fn from(tile_pos: &TilePos) -> (p: Self) {
        ColOddPos { q: tile_pos.x as i32, r: tile_pos.y as i32 }
    }
}

impl vstd::std_specs::convert::FromSpecImpl<&TilePos> for ColOddPos {
    open spec fn obeys_from_spec() -> bool {
        true
    }

    open spec fn from_spec(tile_pos: &TilePos) -> Self {
        ColOddPos { q: tile_pos.x as i32, r: tile_pos.y as i32 }
    }
}

/// A position in a hex grid labelled according to [`ColumnEven`](crate::map::HexCoordSystem::ColumnEven).
#[derive(Clone, Copy, Debug, Ord, PartialOrd, Eq, PartialEq, Hash, Structural)]
pub struct ColEvenPos {
    pub q: i32,
    pub r: i32,
}

impl ColEvenPos {
    /// Try converting into a [`TilePos`].
    ///
    /// Returns `None` if either one of `q` or `r` is negative, or lies out of the bounds of
    /// `map_size`.
    #[inline]
    pub fn as_tile_pos_given_map_size(&self, map_size: &TilemapSize) -> (p: Option<TilePos>)
        ensures
            p == tile_pos_on_map(self.q as int, self.r as int, *map_size),
    {
        TilePos::from_i32_pair(self.q, self.r, map_size)
    }

    /// Convert naively into a [`TilePos`].
    ///
    /// `q` becomes `x` and `r` becomes `y`, each reinterpreted as a `u32`.
    #[inline]
    pub fn as_tile_pos_unchecked(&self) -> (p: TilePos)
        ensures
            p == (TilePos { x: self.q as u32, y: self.r as u32 }),
    {
        TilePos { x: self.q as u32, y: self.r as u32 }
    }

    /// Get the tile offset from `self` in the given [`HexDirection`].
    #[inline]
    pub fn offset(&self, direction: HexDirection) -> (p: Self)
        requires
            axial_of_col_even(*self).can_shift(direction),
        ensures
            p == col_even_of_axial(axial_of_col_even(*self).shifted(direction)),
    {
        Self::from(AxialPos::from(*self).offset(direction))
    }

    /// Get the tile offset from `self` in the given [`HexColDirection`].
    #[inline]
    pub fn offset_compass(&self, direction: HexColDirection) -> (p: Self)
        requires
            axial_of_col_even(*self).can_shift(direction.hex_direction()),
        ensures
            p == col_even_of_axial(axial_of_col_even(*self).shifted(direction.hex_direction())),
    {
        Self::from(AxialPos::from(*self).offset(direction.into()))
    }
}

impl From<&TilePos> for ColEvenPos {
    /// `x` becomes `q` and `y` becomes `r`, each reinterpreted as an `i32`.
    #[inline]
    fn from(tile_pos: &TilePos) -> (p: Self) {
        ColEvenPos { q: tile_pos.x as i32, r: tile_pos.y as i32 }
    }
}

impl vstd::std_specs::convert::FromSpecImpl<&TilePos> for ColEvenPos {
    open spec fn obeys_from_spec() -> bool {
        true
    }

    open spec fn from_spec(tile_pos: &TilePos) -> Self {
        ColEvenPos { q: tile_pos.x as i32, r: tile_pos.y as i32 }
    }
}

} // verus!
