//! Code for the axial coordinate system.
use crate::helpers::hex_grid::cube::{cube_of_axial, CubePos};
use crate::helpers::hex_grid::neighbors::{hex_offset, HexColDirection, HexDirection, HexRowDirection};
use crate::helpers::projection::tile_pos_on_map;
use crate::helpers::hex_grid::offset::{ColEvenPos, ColOddPos, RowEvenPos, RowOddPos};
use crate::map::{HexCoordSystem, TilemapSize};
use crate::tiles::TilePos;
use core::ops::{Add, Mul, Sub};
use vstd::prelude::*;

verus! {

/// Does the integer fit in an `i32`?
pub open spec fn fits_i32(n: int) -> bool {
    i32::MIN <= n <= i32::MAX
}

/// Half of `n`, rounded towards zero (Rust's `/` on integers).
pub open spec fn trunc_half(n: int) -> int {
    if n >= 0 {
        n / 2
    } else {
        -((-n) / 2)
    }
}

/// Half of `n`, rounded away from zero.
pub open spec fn ceiled_half(n: int) -> int {
    if n >= 0 {
        (n + 1) / 2
    } else {
        -((1 - n) / 2)
    }
}

/// The largest absolute value among three integers.
pub open spec fn max_abs3(a: int, b: int, c: int) -> int {
    let (x, y, z) = (
        if a < 0 {
            -a
        } else {
            a
        },
        if b < 0 {
            -b
        } else {
            b
        },
        if c < 0 {
            -c
        } else {
            c
        },
    );
    if x >= y && x >= z {
        x
    } else if y >= z {
        y
    } else {
        z
    }
}

/// A position in a hex grid labelled according to [`HexCoordSystem::Row`] or
/// [`HexCoordSystem::Column`]. It is composed of a pair of `i32` digits named `q` and `r`. When
/// converting from a [`TilePos`], `TilePos.x` is mapped to `q`, while `TilePos.y` is mapped to `r`.
///
/// It is vector-like. In other words: two `AxialPos` can be added/subtracted, and it can be
/// multiplied by an `i32` scalar.
///
/// It can be converted from/into [`RowOddPos`], [`RowEvenPos`], [`ColOddPos`] and [`ColEvenPos`].
/// It can also be converted from/into [`CubePos`].
#[derive(Clone, Copy, Debug, Ord, PartialOrd, Eq, PartialEq, Hash, Structural)]
pub struct AxialPos {
    pub q: i32,
    pub r: i32,
}

impl AxialPos {
    /// The hex-grid distance of `self` from the origin: in cube coordinates `(q, r, -q-r)`,
    /// the largest absolute value of the three.
    pub open spec fn hex_norm(self) -> int {
        max_abs3(self.q as int, self.r as int, -(self.q + self.r))
    }

    /// The hex-grid distance between two positions.
    pub open spec fn hex_distance(self, other: AxialPos) -> int {
        max_abs3(self.q - other.q, self.r - other.r, -((self.q - other.q) + (self.r - other.r)))
    }

    /// Can the magnitude of `self` be computed in `i32` arithmetic?
    pub open spec fn magnitude_defined(self) -> bool {
        &&& i32::MIN < self.q + self.r <= i32::MAX
        &&& self.q != i32::MIN
        &&& self.r != i32::MIN
    }
}

impl From<&TilePos> for AxialPos {
    /// `x` becomes `q` and `y` becomes `r`, each reinterpreted as an `i32`.
    fn from(tile_pos: &TilePos) -> (a: Self) {
        AxialPos { q: tile_pos.x as i32, r: tile_pos.y as i32 }
    }
}

impl vstd::std_specs::convert::FromSpecImpl<&TilePos> for AxialPos {
    open spec fn obeys_from_spec() -> bool {
        true
    }

    open spec fn from_spec(tile_pos: &TilePos) -> Self {
        AxialPos { q: tile_pos.x as i32, r: tile_pos.y as i32 }
    }
}

impl From<CubePos> for AxialPos {
    /// Drops the `s` coordinate.
    fn from(cube_pos: CubePos) -> (a: Self) {
        AxialPos { q: cube_pos.q, r: cube_pos.r }
    }
}

impl vstd::std_specs::convert::FromSpecImpl<CubePos> for AxialPos {
    open spec fn obeys_from_spec() -> bool {
        true
    }

    open spec fn from_spec(cube_pos: CubePos) -> Self {
        AxialPos { q: cube_pos.q, r: cube_pos.r }
    }
}

impl Add<AxialPos> for AxialPos {
    type Output = AxialPos;

    fn add(self, rhs: AxialPos) -> (a: Self::Output) {
        AxialPos { q: self.q + rhs.q, r: self.r + rhs.r }
    }
}

impl vstd::std_specs::ops::AddSpecImpl<AxialPos> for AxialPos {
    open spec fn obeys_add_spec() -> bool {
        true
    }

    open spec fn add_req(self, rhs: AxialPos) -> bool {
        fits_i32(self.q + rhs.q) && fits_i32(self.r + rhs.r)
    }

    open spec fn add_spec(self, rhs: AxialPos) -> AxialPos {
        AxialPos { q: (self.q + rhs.q) as i32, r: (self.r + rhs.r) as i32 }
    }
}

impl Sub<AxialPos> for AxialPos {
    type Output = AxialPos;

    fn sub(self, rhs: AxialPos) -> (a: Self::Output) {
        AxialPos { q: self.q - rhs.q, r: self.r - rhs.r }
    }
}

impl vstd::std_specs::ops::SubSpecImpl<AxialPos> for AxialPos {
    open spec fn obeys_sub_spec() -> bool {
        true
    }

    open spec fn sub_req(self, rhs: AxialPos) -> bool {
        fits_i32(self.q - rhs.q) && fits_i32(self.r - rhs.r)
    }

    open spec fn sub_spec(self, rhs: AxialPos) -> AxialPos {
        AxialPos { q: (self.q - rhs.q) as i32, r: (self.r - rhs.r) as i32 }
    }
}

impl Mul<AxialPos> for i32 {
    type Output = AxialPos;

    fn mul(self, rhs: AxialPos) -> (a: Self::Output) {
        AxialPos { q: self * rhs.q, r: self * rhs.r }
    }
}

impl vstd::std_specs::ops::MulSpecImpl<AxialPos> for i32 {
    open spec fn obeys_mul_spec() -> bool {
        true
    }

    open spec fn mul_req(self, rhs: AxialPos) -> bool {
        fits_i32(self * rhs.q) && fits_i32(self * rhs.r)
    }

    open spec fn mul_spec(self, rhs: AxialPos) -> AxialPos {
        AxialPos { q: (self * rhs.q) as i32, r: (self * rhs.r) as i32 }
    }
}

impl Mul<AxialPos> for u32 {
    type Output = AxialPos;

    /// The scalar is reinterpreted as an `i32` before multiplying.
    fn mul(self, rhs: AxialPos) -> (a: Self::Output) {
        AxialPos { q: (self as i32) * rhs.q, r: (self as i32) * rhs.r }
    }
}

impl vstd::std_specs::ops::MulSpecImpl<AxialPos> for u32 {
    open spec fn obeys_mul_spec() -> bool {
        true
    }

    open spec fn mul_req(self, rhs: AxialPos) -> bool {
        fits_i32((self as i32) * rhs.q) && fits_i32((self as i32) * rhs.r)
    }

    open spec fn mul_spec(self, rhs: AxialPos) -> AxialPos {
        AxialPos { q: ((self as i32) * rhs.q) as i32, r: ((self as i32) * rhs.r) as i32 }
    }
}

/// The row-odd offset coordinates of an axial position.
pub open spec fn row_odd_of_axial(a: AxialPos) -> RowOddPos {
    RowOddPos { q: a.q.wrapping_add(trunc_half(a.r as int) as i32), r: a.r }
}

/// The axial coordinates of a row-odd offset position.
pub open spec fn axial_of_row_odd(p: RowOddPos) -> AxialPos {
    AxialPos { q: p.q.wrapping_sub(trunc_half(p.r as int) as i32), r: p.r }
}

/// The row-even offset coordinates of an axial position.
pub open spec fn row_even_of_axial(a: AxialPos) -> RowEvenPos {
    RowEvenPos { q: a.q.wrapping_add(ceiled_half(a.r as int) as i32), r: a.r }
}

/// The axial coordinates of a row-even offset position.
pub open spec fn axial_of_row_even(p: RowEvenPos) -> AxialPos {
    AxialPos { q: p.q.wrapping_sub(ceiled_half(p.r as int) as i32), r: p.r }
}

/// The column-odd offset coordinates of an axial position.
pub open spec fn col_odd_of_axial(a: AxialPos) -> ColOddPos {
    ColOddPos { q: a.q, r: a.r.wrapping_add(trunc_half(a.q as int) as i32) }
}

/// The axial coordinates of a column-odd offset position.
pub open spec fn axial_of_col_odd(p: ColOddPos) -> AxialPos {
    AxialPos { q: p.q, r: p.r.wrapping_sub(trunc_half(p.q as int) as i32) }
}

/// The column-even offset coordinates of an axial position.
pub open spec fn col_even_of_axial(a: AxialPos) -> ColEvenPos {
    ColEvenPos { q: a.q, r: a.r.wrapping_add(ceiled_half(a.q as int) as i32) }
}

/// The axial coordinates of a column-even offset position.
pub open spec fn axial_of_col_even(p: ColEvenPos) -> AxialPos {
    AxialPos { q: p.q, r: p.r.wrapping_sub(ceiled_half(p.q as int) as i32) }
}

/// Half of `x`, rounded away from zero.
#[inline]
fn ceiled_division_by_2(x: i32) -> (h: i32)
    ensures
        h == ceiled_half(x as int),
{
    x / 2 + x % 2
}

/// Half of `x`, rounded towards zero.
#[inline]
fn trunc_division_by_2(x: i32) -> (h: i32)
    ensures
        h == trunc_half(x as int),
{
    x / 2
}

impl From<AxialPos> for RowOddPos {
    /// Odd rows are shifted by half a tile: `q` moves by half of `r`, rounded towards zero.
    /// On `i32` overflow the coordinate wraps around.
    #[inline]
    fn from(axial_pos: AxialPos) -> (p: Self) {
        let delta = trunc_division_by_2(axial_pos.r);
        RowOddPos { q: axial_pos.q.wrapping_add(delta), r: axial_pos.r }
    }
}

impl vstd::std_specs::convert::FromSpecImpl<AxialPos> for RowOddPos {
    open spec fn obeys_from_spec() -> bool {
        true
    }

    open spec fn from_spec(a: AxialPos) -> Self {
        row_odd_of_axial(a)
    }
}

impl From<RowOddPos> for AxialPos {
    /// The inverse of the conversion from [`AxialPos`] into [`RowOddPos`].
    /// On `i32` overflow the coordinate wraps around.
    #[inline]
    fn from(offset_pos: RowOddPos) -> (a: Self) {
        let delta = trunc_division_by_2(offset_pos.r);
        AxialPos { q: offset_pos.q.wrapping_sub(delta), r: offset_pos.r }
    }
}

impl vstd::std_specs::convert::FromSpecImpl<RowOddPos> for AxialPos {
    open spec fn obeys_from_spec() -> bool {
        true
    }

    open spec fn from_spec(p: RowOddPos) -> Self {
        axial_of_row_odd(p)
    }
}

impl From<AxialPos> for RowEvenPos {
    /// Even rows are shifted by half a tile: `q` moves by half of `r`, rounded away from zero.
    /// On `i32` overflow the coordinate wraps around.
    #[inline]
    fn from(axial_pos: AxialPos) -> (p: Self) {
        let delta = ceiled_division_by_2(axial_pos.r);
        RowEvenPos { q: axial_pos.q.wrapping_add(delta), r: axial_pos.r }
    }
}

impl vstd::std_specs::convert::FromSpecImpl<AxialPos> for RowEvenPos {
    open spec fn obeys_from_spec() -> bool {
        true
    }

    open spec fn from_spec(a: AxialPos) -> Self {
        row_even_of_axial(a)
    }
}

impl From<RowEvenPos> for AxialPos {
    /// The inverse of the conversion from [`AxialPos`] into [`RowEvenPos`].
    /// On `i32` overflow the coordinate wraps around.
    #[inline]
    fn from(offset_pos: RowEvenPos) -> (a: Self) {
        let delta = ceiled_division_by_2(offset_pos.r);
        AxialPos { q: offset_pos.q.wrapping_sub(delta), r: offset_pos.r }
    }
}

impl vstd::std_specs::convert::FromSpecImpl<RowEvenPos> for AxialPos {
    open spec fn obeys_from_spec() -> bool {
        true
    }

    open spec fn from_spec(p: RowEvenPos) -> Self {
        axial_of_row_even(p)
    }
}

impl From<AxialPos> for ColOddPos {
    /// Odd columns are shifted by half a tile: `r` moves by half of `q`, rounded towards zero.
    /// On `i32` overflow the coordinate wraps around.
    #[inline]
    fn from(axial_pos: AxialPos) -> (p: Self) {
        let delta = trunc_division_by_2(axial_pos.q);
        ColOddPos { q: axial_pos.q, r: axial_pos.r.wrapping_add(delta) }
    }
}

impl vstd::std_specs::convert::FromSpecImpl<AxialPos> for ColOddPos {
    open spec fn obeys_from_spec() -> bool {
        true
    }

    open spec fn from_spec(a: AxialPos) -> Self {
        col_odd_of_axial(a)
    }
}

impl From<ColOddPos> for AxialPos {
    /// The inverse of the conversion from [`AxialPos`] into [`ColOddPos`].
    /// On `i32` overflow the coordinate wraps around.
    #[inline]
    fn from(offset_pos: ColOddPos) -> (a: Self) {
        let delta = trunc_division_by_2(offset_pos.q);
        AxialPos { q: offset_pos.q, r: offset_pos.r.wrapping_sub(delta) }
    }
}

impl vstd::std_specs::convert::FromSpecImpl<ColOddPos> for AxialPos {
    open spec fn obeys_from_spec() -> bool {
        true
    }

    open spec fn from_spec(p: ColOddPos) -> Self {
        axial_of_col_odd(p)
    }
}

impl From<AxialPos> for ColEvenPos {
    /// Even columns are shifted by half a tile: `r` moves by half of `q`, rounded away from
    /// zero. On `i32` overflow the coordinate wraps around.
    #[inline]
    fn from(axial_pos: AxialPos) -> (p: Self) {
        let delta = ceiled_division_by_2(axial_pos.q);
        ColEvenPos { q: axial_pos.q, r: axial_pos.r.wrapping_add(delta) }
    }
}

impl vstd::std_specs::convert::FromSpecImpl<AxialPos> for ColEvenPos {
    open spec fn obeys_from_spec() -> bool {
        true
    }

    open spec fn from_spec(a: AxialPos) -> Self {
        col_even_of_axial(a)
    }
}

impl From<ColEvenPos> for AxialPos {
    /// The inverse of the conversion from [`AxialPos`] into [`ColEvenPos`].
    /// On `i32` overflow the coordinate wraps around.
    #[inline]
    fn from(offset_pos: ColEvenPos) -> (a: Self) {
        let delta = ceiled_division_by_2(offset_pos.q);
        AxialPos { q: offset_pos.q, r: offset_pos.r.wrapping_sub(delta) }
    }
}

impl vstd::std_specs::convert::FromSpecImpl<ColEvenPos> for AxialPos {
    open spec fn obeys_from_spec() -> bool {
        true
    }

    open spec fn from_spec(p: ColEvenPos) -> Self {
        axial_of_col_even(p)
    }
}

/// Converting an axial position into any of the four offset coordinate systems and back gives
/// the position back, and so does converting an offset position into axial coordinates and
/// back: each conversion is a bijection, also where the coordinates wrap around.
pub proof fn lemma_offset_conversions_round_trip(a: AxialPos, ro: RowOddPos, re: RowEvenPos, co: ColOddPos, ce: ColEvenPos)
    ensures
        axial_of_row_odd(row_odd_of_axial(a)) == a,
        axial_of_row_even(row_even_of_axial(a)) == a,
        axial_of_col_odd(col_odd_of_axial(a)) == a,
        axial_of_col_even(col_even_of_axial(a)) == a,
        row_odd_of_axial(axial_of_row_odd(ro)) == ro,
        row_even_of_axial(axial_of_row_even(re)) == re,
        col_odd_of_axial(axial_of_col_odd(co)) == co,
        col_even_of_axial(axial_of_col_even(ce)) == ce,
{
}

/// The coordinates of an axial position in the given hex coordinate system: for the four offset
/// systems the offset coordinates, for `Row` and `Column` the axial coordinates themselves.
pub open spec fn coords_in_system(a: AxialPos, hex_coord_sys: HexCoordSystem) -> (i32, i32) {
    match hex_coord_sys {
        HexCoordSystem::RowEven => (row_even_of_axial(a).q, row_even_of_axial(a).r),
        HexCoordSystem::RowOdd => (row_odd_of_axial(a).q, row_odd_of_axial(a).r),
        HexCoordSystem::ColumnEven => (col_even_of_axial(a).q, col_even_of_axial(a).r),
        HexCoordSystem::ColumnOdd => (col_odd_of_axial(a).q, col_odd_of_axial(a).r),
        HexCoordSystem::Row | HexCoordSystem::Column => (a.q, a.r),
    }
}

/// The axial position whose coordinates in the given hex coordinate system are `(x, y)`.
pub open spec fn axial_of_coords(x: i32, y: i32, hex_coord_sys: HexCoordSystem) -> AxialPos {
    match hex_coord_sys {
        HexCoordSystem::RowEven => axial_of_row_even(RowEvenPos { q: x, r: y }),
        HexCoordSystem::RowOdd => axial_of_row_odd(RowOddPos { q: x, r: y }),
        HexCoordSystem::ColumnEven => axial_of_col_even(ColEvenPos { q: x, r: y }),
        HexCoordSystem::ColumnOdd => axial_of_col_odd(ColOddPos { q: x, r: y }),
        HexCoordSystem::Row | HexCoordSystem::Column => AxialPos { q: x, r: y },
    }
}

/// The axial position of a tile of a map in the given hex coordinate system; each coordinate
/// of the tile is reinterpreted as an `i32`.
pub open spec fn axial_of_tile(tile_pos: TilePos, hex_coord_sys: HexCoordSystem) -> AxialPos {
    axial_of_coords(tile_pos.x as i32, tile_pos.y as i32, hex_coord_sys)
}

/// The tile of a map in the given hex coordinate system at an axial position, each coordinate
/// reinterpreted as a `u32`.
pub open spec fn tile_of_axial(a: AxialPos, hex_coord_sys: HexCoordSystem) -> TilePos {
    TilePos {
        x: coords_in_system(a, hex_coord_sys).0 as u32,
        y: coords_in_system(a, hex_coord_sys).1 as u32,
    }
}

/// The tile of a map in the given hex coordinate system at an axial position, if it lies on a
/// map of the given size.
pub open spec fn tile_on_map_of_axial(
    a: AxialPos,
    hex_coord_sys: HexCoordSystem,
    map_size: TilemapSize,
) -> Option<TilePos> {
    tile_pos_on_map(
        coords_in_system(a, hex_coord_sys).0 as int,
        coords_in_system(a, hex_coord_sys).1 as int,
        map_size,
    )
}

impl AxialPos {
    /// The position one step away from `self` in the given direction.
    pub open spec fn shifted(self, direction: HexDirection) -> AxialPos {
        AxialPos {
            q: (self.q + hex_offset(direction).q) as i32,
            r: (self.r + hex_offset(direction).r) as i32,
        }
    }

    /// Does the step from `self` in the given direction stay within `i32`?
    pub open spec fn can_shift(self, direction: HexDirection) -> bool {
        fits_i32(self.q + hex_offset(direction).q) && fits_i32(self.r + hex_offset(direction).r)
    }

    /// The magnitude of an axial position is its distance away from `(0, 0)` in the hex grid.
    #[inline]
    pub fn magnitude(&self) -> (m: i32)
        requires
            self.magnitude_defined(),
        ensures
            m == self.hex_norm(),
    {
        let cube_pos = CubePos::from(*self);
        assert(cube_pos == cube_of_axial(*self));
        cube_pos.magnitude()
    }

    /// Returns the distance between `self` and `other` on the hex grid.
    #[inline]
    pub fn distance_from(&self, other: &AxialPos) -> (d: i32)
        requires
            fits_i32(self.q - other.q),
            fits_i32(self.r - other.r),
            (AxialPos {
                q: (self.q - other.q) as i32,
                r: (self.r - other.r) as i32,
            }).magnitude_defined(),
        ensures
            d == self.hex_distance(*other),
    {
        (*self - *other).magnitude()
    }

    /// Try converting into a [`TilePos`].
    ///
    /// Returns `None` if either one of `q` or `r` is negative, or lies out of the bounds of
    /// `map_size`.
    #[inline]
    pub fn as_tile_pos_given_map_size(&self, map_size: &TilemapSize) -> (p: Option<TilePos>)
        ensures
            p == tile_pos_on_map(self.q as int, self.r as int, *map_size),
    {
        TilePos::from_i32_pair(self.q, self.r, map_size)
    }

    /// Convert naively into a [`TilePos`].
    ///
    /// `q` becomes `x` and `r` becomes `y`, each reinterpreted as a `u32`.
    #[inline]
    pub fn as_tile_pos_unchecked(&self) -> (p: TilePos)
        ensures
            p == (TilePos { x: self.q as u32, y: self.r as u32 }),
    {
        TilePos { x: self.q as u32, y: self.r as u32 }
    }

    /// Converts an axial position into a tile position in the given hex coordinate system.
    ///
    /// If `hex_coord_sys` is [`RowEven`](HexCoordSystem::RowEven),
    /// [`RowOdd`](HexCoordSystem::RowOdd), [`ColumnEven`](HexCoordSystem::ColumnEven) or
    /// [`ColumnOdd`](HexCoordSystem::ColumnOdd), `self` will be converted into the appropriate
    /// coordinate system before being returned as a `TilePos`.
    #[inline]
    pub fn as_tile_pos_given_coord_system(&self, hex_coord_sys: HexCoordSystem) -> (p: TilePos)
        ensures
            p == tile_of_axial(*self, hex_coord_sys),
    {
        match hex_coord_sys {
            HexCoordSystem::RowEven => RowEvenPos::from(*self).as_tile_pos_unchecked(),
            HexCoordSystem::RowOdd => RowOddPos::from(*self).as_tile_pos_unchecked(),
            HexCoordSystem::ColumnEven => ColEvenPos::from(*self).as_tile_pos_unchecked(),
            HexCoordSystem::ColumnOdd => ColOddPos::from(*self).as_tile_pos_unchecked(),
            HexCoordSystem::Row | HexCoordSystem::Column => self.as_tile_pos_unchecked(),
        }
    }

    /// Converts an axial position into a tile position in the given hex coordinate system, if
    /// it fits within the extents of the map.
    #[inline]
    pub fn as_tile_pos_given_coord_system_and_map_size(
        &self,
        hex_coord_sys: HexCoordSystem,
        map_size: &TilemapSize,
    ) -> (p: Option<TilePos>)
        ensures
            p == tile_on_map_of_axial(*self, hex_coord_sys, *map_size),
    {
        match hex_coord_sys {
            HexCoordSystem::RowEven => RowEvenPos::from(*self).as_tile_pos_given_map_size(map_size),
            HexCoordSystem::RowOdd => RowOddPos::from(*self).as_tile_pos_given_map_size(map_size),
            HexCoordSystem::ColumnEven => ColEvenPos::from(*self).as_tile_pos_given_map_size(
                map_size,
            ),
            HexCoordSystem::ColumnOdd => ColOddPos::from(*self).as_tile_pos_given_map_size(
                map_size,
            ),
            HexCoordSystem::Row | HexCoordSystem::Column => self.as_tile_pos_given_map_size(
                map_size,
            ),
        }
    }

    /// Converts a tile position of a map in the given hex coordinate system into an axial
    /// position.
    #[inline]
    pub fn from_tile_pos_given_coord_system(
        tile_pos: &TilePos,
        hex_coord_sys: HexCoordSystem,
    ) -> (a: AxialPos)
        ensures
            a == axial_of_tile(*tile_pos, hex_coord_sys),
    {
        match hex_coord_sys {
            HexCoordSystem::RowEven => AxialPos::from(RowEvenPos::from(tile_pos)),
            HexCoordSystem::RowOdd => AxialPos::from(RowOddPos::from(tile_pos)),
            HexCoordSystem::ColumnEven => AxialPos::from(ColEvenPos::from(tile_pos)),
            HexCoordSystem::ColumnOdd => AxialPos::from(ColOddPos::from(tile_pos)),
            HexCoordSystem::Row | HexCoordSystem::Column => AxialPos::from(tile_pos),
        }
    }

    /// The position one step away in the given [`HexDirection`].
    #[inline]
    pub fn offset(&self, direction: HexDirection) -> (a: AxialPos)
        requires
            self.can_shift(direction),
        ensures
            a == self.shifted(direction),
    {
        *self + AxialPos::from(direction)
    }

    /// The position one step away in the given [`HexRowDirection`].
    #[inline]
    pub fn offset_compass_row(&self, direction: HexRowDirection) -> (a: AxialPos)
        requires
            self.can_shift(direction.hex_direction()),
        ensures
            a == self.shifted(direction.hex_direction()),
    {
        *self + AxialPos::from(HexDirection::from(direction))
    }

    /// The position one step away in the given [`HexColDirection`].
    #[inline]
    pub fn offset_compass_col(&self, direction: HexColDirection) -> (a: AxialPos)
        requires
            self.can_shift(direction.hex_direction()),
        ensures
            a == self.shifted(direction.hex_direction()),
    {
        *self + AxialPos::from(HexDirection::from(direction))
    }
}

/// Hex distance is a metric on axial positions: it is zero exactly between equal positions,
/// symmetric, obeys the triangle inequality, and the distance from the origin is the
/// magnitude.
pub proof fn lemma_hex_distance_is_metric(a: AxialPos, b: AxialPos, c: AxialPos)
    ensures
        a.hex_distance(b) >= 0,
        a.hex_distance(b) == 0 <==> a == b,
        a.hex_distance(b) == b.hex_distance(a),
        a.hex_distance(c) <= a.hex_distance(b) + b.hex_distance(c),
        a.hex_distance(AxialPos { q: 0, r: 0 }) == a.hex_norm(),
{
}

/// The unit vector along the `q` axis.
pub fn unit_q() -> (a: AxialPos)
    ensures
        a == (AxialPos { q: 1, r: 0 }),
{
    AxialPos { q: 1, r: 0 }
}

/// The unit vector along the `r` axis, pointing towards decreasing `r`.
pub fn unit_r() -> (a: AxialPos)
    ensures
        a == (AxialPos { q: 0, r: -1i32 }),
{
    AxialPos { q: 0, r: -1 }
}

/// The unit vector along the `s` axis: `(1, -1)` in axial coordinates.
pub fn unit_s() -> (a: AxialPos)
    ensures
        a == (AxialPos { q: 1, r: -1i32 }),
{
    AxialPos { q: 1, r: -1 }
}

/// How the tiles of each hex coordinate system sit on the axial grid. Tile `(0, 0)` is the
/// axial origin in every system. In `Row` and `Column` a tile's coordinates are its axial
/// coordinates. In the offset systems, moving one tile along the non-staggered axis is one axial
/// step, and moving one tile across it is an axial step that depends on the parity of the tile:
/// - `ColumnOdd`: one tile up is `(0, 1)`; one tile east is `(1, 0)` from an even column and
///   `(1, -1)` from an odd one (the offset row shifts by half the column, rounded toward zero);
/// - `ColumnEven`: one tile up is `(0, 1)`; one tile east is `(1, -1)` from an even column and
///   `(1, 0)` from an odd one (half the column, rounded away from zero);
/// - `RowOdd`: one tile east is `(1, 0)`; one tile up is `(0, 1)` from an even row and
///   `(-1, 1)` from an odd one;
/// - `RowEven`: one tile east is `(1, 0)`; one tile up is `(-1, 1)` from an even row and
///   `(0, 1)` from an odd one.
pub proof fn lemma_offset_layout_tile_steps(x: i32, y: i32)
    requires
        0 <= x < i32::MAX,
        0 <= y < i32::MAX,
    ensures
        forall|sys: HexCoordSystem| #[trigger] axial_of_coords(0, 0, sys) == (AxialPos { q: 0, r: 0 }),
        axial_of_coords(x, y, HexCoordSystem::Row) == (AxialPos { q: x, r: y }),
        axial_of_coords(x, y, HexCoordSystem::Column) == (AxialPos { q: x, r: y }),
        ({
            let (a, b, c) = (
                axial_of_coords(x, y, HexCoordSystem::ColumnOdd),
                axial_of_coords((x + 1) as i32, y, HexCoordSystem::ColumnOdd),
                axial_of_coords(x, (y + 1) as i32, HexCoordSystem::ColumnOdd),
            );
            &&& c.q == a.q && c.r == a.r + 1
            &&& b.q == a.q + 1 && b.r == a.r + (if x % 2 == 0 { 0int } else { -1int })
        }),
        ({
            let (a, b, c) = (
                axial_of_coords(x, y, HexCoordSystem::ColumnEven),
                axial_of_coords((x + 1) as i32, y, HexCoordSystem::ColumnEven),
                axial_of_coords(x, (y + 1) as i32, HexCoordSystem::ColumnEven),
            );
            &&& c.q == a.q && c.r == a.r + 1
            &&& b.q == a.q + 1 && b.r == a.r + (if x % 2 == 0 { -1int } else { 0int })
        }),
        ({
            let (a, b, c) = (
                axial_of_coords(x, y, HexCoordSystem::RowOdd),
                axial_of_coords((x + 1) as i32, y, HexCoordSystem::RowOdd),
                axial_of_coords(x, (y + 1) as i32, HexCoordSystem::RowOdd),
            );
            &&& b.q == a.q + 1 && b.r == a.r
            &&& c.r == a.r + 1 && c.q == a.q + (if y % 2 == 0 { 0int } else { -1int })
        }),
        ({
            let (a, b, c) = (
                axial_of_coords(x, y, HexCoordSystem::RowEven),
                axial_of_coords((x + 1) as i32, y, HexCoordSystem::RowEven),
                axial_of_coords(x, (y + 1) as i32, HexCoordSystem::RowEven),
            );
            &&& b.q == a.q + 1 && b.r == a.r
            &&& c.r == a.r + 1 && c.q == a.q + (if y % 2 == 0 { -1int } else { 0int })
        }),
{
}

} // verus!
