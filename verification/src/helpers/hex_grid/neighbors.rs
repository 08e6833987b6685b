//! The six neighboring directions of a hexagonal tile, and per-direction storage.
use crate::helpers::hex_grid::axial::{
    axial_of_coords, coords_in_system, lemma_offset_conversions_round_trip, tile_on_map_of_axial, axial_of_col_even, axial_of_col_odd, axial_of_row_even, axial_of_row_odd, axial_of_tile,
    col_even_of_axial, col_odd_of_axial, fits_i32, row_even_of_axial, row_odd_of_axial,
    tile_of_axial, AxialPos,
};
use crate::helpers::hex_grid::offset::{ColEvenPos, ColOddPos, RowEvenPos, RowOddPos};
use crate::helpers::projection::tile_pos_on_map;
use crate::map::{HexCoordSystem, TilemapSize};
use crate::tiles::{TilePos, TileStorage};
use bevy::prelude::Entity;
use core::ops::{Add, Sub};
use vstd::prelude::*;

verus! {

/// Neighbors of a hexagonal tile. `Zero` corresponds with `East` for row-oriented tiles, and
/// `North` for column-oriented tiles.
///
/// Mathematically: `Zero` corresponds with "zero multiples of `pi/3`", `One` with "one multiple
/// of `pi/3`", and so on.
///
/// [`HexDirection`]s can be added, and subtracted (under the hood, it is addition/subtraction
/// modulo 6).
///
/// [`HexDirection`]s can be converted from/into `usize`, `u32`, `isize`, `i32`.
#[derive(Clone, Copy, Debug, Ord, PartialOrd, Eq, PartialEq, Hash, Structural)]
pub enum HexDirection {
    Zero,
    One,
    Two,
    Three,
    Four,
    Five,
}

impl HexDirection {
    /// The number of multiples of `pi/3` that the direction stands for.
    pub open spec fn index(self) -> nat {
        match self {
            HexDirection::Zero => 0,
            HexDirection::One => 1,
            HexDirection::Two => 2,
            HexDirection::Three => 3,
            HexDirection::Four => 4,
            HexDirection::Five => 5,
        }
    }

    /// The direction standing for `i` multiples of `pi/3`, for `i` in `0..6`.
    pub open spec fn of_index(i: int) -> HexDirection {
        if i == 0 {
            HexDirection::Zero
        } else if i == 1 {
            HexDirection::One
        } else if i == 2 {
            HexDirection::Two
        } else if i == 3 {
            HexDirection::Three
        } else if i == 4 {
            HexDirection::Four
        } else {
            HexDirection::Five
        }
    }

    /// The direction with the given index.
    pub(crate) fn from_index(i: usize) -> (d: HexDirection)
        requires
            i < 6,
        ensures
            d == HexDirection::of_index(i as int),
            d.index() == i,
    {
        if i == 0 {
            HexDirection::Zero
        } else if i == 1 {
            HexDirection::One
        } else if i == 2 {
            HexDirection::Two
        } else if i == 3 {
            HexDirection::Three
        } else if i == 4 {
            HexDirection::Four
        } else {
            HexDirection::Five
        }
    }

    /// The index of the direction, as a `usize`.
    fn to_usize(&self) -> (i: usize)
        ensures
            i == self.index(),
    {
        match self {
            HexDirection::Zero => 0,
            HexDirection::One => 1,
            HexDirection::Two => 2,
            HexDirection::Three => 3,
            HexDirection::Four => 4,
            HexDirection::Five => 5,
        }
    }

    /// The index of the direction, as an `isize`.
    fn to_isize(&self) -> (i: isize)
        ensures
            i == self.index(),
    {
        match self {
            HexDirection::Zero => 0,
            HexDirection::One => 1,
            HexDirection::Two => 2,
            HexDirection::Three => 3,
            HexDirection::Four => 4,
            HexDirection::Five => 5,
        }
    }
}

/// The axial offset of the tile that lies in each [`HexDirection`]: `(1, 0)`, `(0, 1)`,
/// `(-1, 1)`, `(-1, 0)`, `(0, -1)`, `(1, -1)` for `Zero` to `Five`.
pub open spec fn hex_offset(direction: HexDirection) -> AxialPos {
    match direction {
        HexDirection::Zero => AxialPos { q: 1, r: 0 },
        HexDirection::One => AxialPos { q: 0, r: 1 },
        HexDirection::Two => AxialPos { q: -1i32, r: 1 },
        HexDirection::Three => AxialPos { q: -1i32, r: 0 },
        HexDirection::Four => AxialPos { q: 0, r: -1i32 },
        HexDirection::Five => AxialPos { q: 1, r: -1i32 },
    }
}

impl From<HexDirection> for AxialPos {
    /// The offset of the tile lying in the given direction.
    fn from(direction: HexDirection) -> (a: Self) {
        match direction {
            HexDirection::Zero => AxialPos { q: 1, r: 0 },
            HexDirection::One => AxialPos { q: 0, r: 1 },
            HexDirection::Two => AxialPos { q: -1, r: 1 },
            HexDirection::Three => AxialPos { q: -1, r: 0 },
            HexDirection::Four => AxialPos { q: 0, r: -1 },
            HexDirection::Five => AxialPos { q: 1, r: -1 },
        }
    }
}

impl vstd::std_specs::convert::FromSpecImpl<HexDirection> for AxialPos {
    open spec fn obeys_from_spec() -> bool {
        true
    }

    open spec fn from_spec(direction: HexDirection) -> Self {
        hex_offset(direction)
    }
}

impl From<&HexDirection> for AxialPos {
    /// The offset of the tile lying in the given direction.
    fn from(direction: &HexDirection) -> (a: Self) {
        AxialPos::from(*direction)
    }
}

impl vstd::std_specs::convert::FromSpecImpl<&HexDirection> for AxialPos {
    open spec fn obeys_from_spec() -> bool {
        true
    }

    open spec fn from_spec(direction: &HexDirection) -> Self {
        hex_offset(*direction)
    }
}

impl From<usize> for HexDirection {
    /// The direction `choice` modulo 6.
    fn from(choice: usize) -> (d: Self) {
        HexDirection::from_index(choice % 6)
    }
}

impl vstd::std_specs::convert::FromSpecImpl<usize> for HexDirection {
    open spec fn obeys_from_spec() -> bool {
        true
    }

    open spec fn from_spec(choice: usize) -> Self {
        HexDirection::of_index(choice as int % 6)
    }
}

impl From<isize> for HexDirection {
    /// The direction `choice` modulo 6, where the remainder is taken non-negative.
    fn from(choice: isize) -> (d: Self) {
        let m = choice % 6;
        let ix: usize = if m < 0 {
            (m + 6) as usize
        } else {
            m as usize
        };
        HexDirection::from_index(ix)
    }
}

impl vstd::std_specs::convert::FromSpecImpl<isize> for HexDirection {
    open spec fn obeys_from_spec() -> bool {
        true
    }

    open spec fn from_spec(choice: isize) -> Self {
        HexDirection::of_index(choice as int % 6)
    }
}

impl From<u32> for HexDirection {
    /// The direction `choice` modulo 6.
    fn from(choice: u32) -> (d: Self) {
        HexDirection::from(choice as usize)
    }
}

impl vstd::std_specs::convert::FromSpecImpl<u32> for HexDirection {
    open spec fn obeys_from_spec() -> bool {
        true
    }

    open spec fn from_spec(choice: u32) -> Self {
        HexDirection::of_index(choice as int % 6)
    }
}

impl From<i32> for HexDirection {
    /// The direction `choice` modulo 6, where the remainder is taken non-negative.
    fn from(choice: i32) -> (d: Self) {
        HexDirection::from(choice as isize)
    }
}

impl vstd::std_specs::convert::FromSpecImpl<i32> for HexDirection {
    open spec fn obeys_from_spec() -> bool {
        true
    }

    open spec fn from_spec(choice: i32) -> Self {
        HexDirection::of_index(choice as int % 6)
    }
}

impl Add<usize> for HexDirection {
    type Output = HexDirection;

    fn add(self, rhs: usize) -> (d: Self::Output) {
        HexDirection::from(self.to_usize() + rhs)
    }
}

impl vstd::std_specs::ops::AddSpecImpl<usize> for HexDirection {
    open spec fn obeys_add_spec() -> bool {
        true
    }

    open spec fn add_req(self, rhs: usize) -> bool {
        self.index() + rhs <= usize::MAX
    }

    open spec fn add_spec(self, rhs: usize) -> HexDirection {
        HexDirection::of_index((self.index() + rhs) % 6)
    }
}

impl Add<u32> for HexDirection {
    type Output = HexDirection;

    fn add(self, rhs: u32) -> (d: Self::Output) {
        HexDirection::from(self.to_usize() + rhs as usize)
    }
}

impl vstd::std_specs::ops::AddSpecImpl<u32> for HexDirection {
    open spec fn obeys_add_spec() -> bool {
        true
    }

    open spec fn add_req(self, rhs: u32) -> bool {
        self.index() + rhs <= usize::MAX
    }

    open spec fn add_spec(self, rhs: u32) -> HexDirection {
        HexDirection::of_index((self.index() + rhs) % 6)
    }
}

impl Add<isize> for HexDirection {
    type Output = HexDirection;

    fn add(self, rhs: isize) -> (d: Self::Output) {
        HexDirection::from(self.to_isize() + rhs)
    }
}

impl vstd::std_specs::ops::AddSpecImpl<isize> for HexDirection {
    open spec fn obeys_add_spec() -> bool {
        true
    }

    open spec fn add_req(self, rhs: isize) -> bool {
        self.index() + rhs <= isize::MAX
    }

    open spec fn add_spec(self, rhs: isize) -> HexDirection {
        HexDirection::of_index((self.index() + rhs) % 6)
    }
}

impl Add<i32> for HexDirection {
    type Output = HexDirection;

    fn add(self, rhs: i32) -> (d: Self::Output) {
        HexDirection::from(self.to_isize() as i32 + rhs)
    }
}

impl vstd::std_specs::ops::AddSpecImpl<i32> for HexDirection {
    open spec fn obeys_add_spec() -> bool {
        true
    }

    open spec fn add_req(self, rhs: i32) -> bool {
        self.index() + rhs <= i32::MAX
    }

    open spec fn add_spec(self, rhs: i32) -> HexDirection {
        HexDirection::of_index((self.index() + rhs) % 6)
    }
}

impl Sub<usize> for HexDirection {
    type Output = HexDirection;

    fn sub(self, rhs: usize) -> (d: Self::Output) {
        HexDirection::from(self.to_usize() - rhs)
    }
}

impl vstd::std_specs::ops::SubSpecImpl<usize> for HexDirection {
    open spec fn obeys_sub_spec() -> bool {
        true
    }

    open spec fn sub_req(self, rhs: usize) -> bool {
        rhs <= self.index()
    }

    open spec fn sub_spec(self, rhs: usize) -> HexDirection {
        HexDirection::of_index((self.index() - rhs) % 6)
    }
}

impl Sub<u32> for HexDirection {
    type Output = HexDirection;

    fn sub(self, rhs: u32) -> (d: Self::Output) {
        HexDirection::from(self.to_usize() - rhs as usize)
    }
}

impl vstd::std_specs::ops::SubSpecImpl<u32> for HexDirection {
    open spec fn obeys_sub_spec() -> bool {
        true
    }

    open spec fn sub_req(self, rhs: u32) -> bool {
        rhs <= self.index()
    }

    open spec fn sub_spec(self, rhs: u32) -> HexDirection {
        HexDirection::of_index((self.index() - rhs) % 6)
    }
}

impl Sub<isize> for HexDirection {
    type Output = HexDirection;

    fn sub(self, rhs: isize) -> (d: Self::Output) {
        HexDirection::from(self.to_isize() - rhs)
    }
}

impl vstd::std_specs::ops::SubSpecImpl<isize> for HexDirection {
    open spec fn obeys_sub_spec() -> bool {
        true
    }

    open spec fn sub_req(self, rhs: isize) -> bool {
        isize::MIN <= self.index() - rhs <= isize::MAX
    }

    open spec fn sub_spec(self, rhs: isize) -> HexDirection {
        HexDirection::of_index((self.index() - rhs) % 6)
    }
}

impl Sub<i32> for HexDirection {
    type Output = HexDirection;

    fn sub(self, rhs: i32) -> (d: Self::Output) {
        HexDirection::from(self.to_isize() as i32 - rhs)
    }
}

impl vstd::std_specs::ops::SubSpecImpl<i32> for HexDirection {
    open spec fn obeys_sub_spec() -> bool {
        true
    }

    open spec fn sub_req(self, rhs: i32) -> bool {
        i32::MIN <= self.index() - rhs <= i32::MAX
    }

    open spec fn sub_spec(self, rhs: i32) -> HexDirection {
        HexDirection::of_index((self.index() - rhs) % 6)
    }
}

/// Compass directions of a tile in hexagonal row-oriented coordinate systems
/// ([Row](crate::map::HexCoordSystem::Row), [RowEven](crate::map::HexCoordSystem::RowEven), and
/// [RowOdd](crate::map::HexCoordSystem::RowOdd)).
#[derive(Clone, Copy, Debug, PartialOrd, Ord, Eq, PartialEq, Hash, Structural)]
pub enum HexRowDirection {
    East,
    NorthEast,
    NorthWest,
    West,
    SouthWest,
    SouthEast,
}

impl HexRowDirection {
    /// The index of the [`HexDirection`] that this direction stands for.
    pub open spec fn index(self) -> nat {
        match self {
            HexRowDirection::East => 0,
            HexRowDirection::NorthEast => 1,
            HexRowDirection::NorthWest => 2,
            HexRowDirection::West => 3,
            HexRowDirection::SouthWest => 4,
            HexRowDirection::SouthEast => 5,
        }
    }

    /// The [`HexDirection`] that this direction stands for.
    pub open spec fn hex_direction(self) -> HexDirection {
        HexDirection::of_index(self.index() as int)
    }
}

impl From<HexDirection> for HexRowDirection {
    /// The compass direction standing for the given hex direction.
    #[inline]
    fn from(direction: HexDirection) -> (d: Self) {
        match direction {
            HexDirection::Zero => HexRowDirection::East,
            HexDirection::One => HexRowDirection::NorthEast,
            HexDirection::Two => HexRowDirection::NorthWest,
            HexDirection::Three => HexRowDirection::West,
            HexDirection::Four => HexRowDirection::SouthWest,
            HexDirection::Five => HexRowDirection::SouthEast,
        }
    }
}

impl vstd::std_specs::convert::FromSpecImpl<HexDirection> for HexRowDirection {
    open spec fn obeys_from_spec() -> bool {
        true
    }

    open spec fn from_spec(direction: HexDirection) -> Self {
        match direction {
            HexDirection::Zero => HexRowDirection::East,
            HexDirection::One => HexRowDirection::NorthEast,
            HexDirection::Two => HexRowDirection::NorthWest,
            HexDirection::Three => HexRowDirection::West,
            HexDirection::Four => HexRowDirection::SouthWest,
            HexDirection::Five => HexRowDirection::SouthEast,
        }
    }
}

impl From<HexRowDirection> for HexDirection {
    /// The hex direction that the compass direction stands for.
    #[inline]
    fn from(direction: HexRowDirection) -> (d: Self) {
        match direction {
            HexRowDirection::East => HexDirection::Zero,
            HexRowDirection::NorthEast => HexDirection::One,
            HexRowDirection::NorthWest => HexDirection::Two,
            HexRowDirection::West => HexDirection::Three,
            HexRowDirection::SouthWest => HexDirection::Four,
            HexRowDirection::SouthEast => HexDirection::Five,
        }
    }
}

impl vstd::std_specs::convert::FromSpecImpl<HexRowDirection> for HexDirection {
    open spec fn obeys_from_spec() -> bool {
        true
    }

    open spec fn from_spec(direction: HexRowDirection) -> Self {
        direction.hex_direction()
    }
}

/// Compass directions of a tile in hexagonal column-oriented coordinate systems
/// ([Column](crate::map::HexCoordSystem::Column),
/// [ColumnEven](crate::map::HexCoordSystem::ColumnEven), and
/// [ColumnOdd](crate::map::HexCoordSystem::ColumnOdd)).
#[derive(Clone, Copy, Debug, PartialOrd, Ord, Eq, PartialEq, Hash, Structural)]
pub enum HexColDirection {
    North,
    NorthWest,
    SouthWest,
    South,
    SouthEast,
    NorthEast,
}

impl HexColDirection {
    /// The index of the [`HexDirection`] that this direction stands for.
    pub open spec fn index(self) -> nat {
        match self {
            HexColDirection::North => 0,
            HexColDirection::NorthWest => 1,
            HexColDirection::SouthWest => 2,
            HexColDirection::South => 3,
            HexColDirection::SouthEast => 4,
            HexColDirection::NorthEast => 5,
        }
    }

    /// The [`HexDirection`] that this direction stands for.
    pub open spec fn hex_direction(self) -> HexDirection {
        HexDirection::of_index(self.index() as int)
    }
}

impl From<HexDirection> for HexColDirection {
    /// The compass direction standing for the given hex direction.
    #[inline]
    fn from(direction: HexDirection) -> (d: Self) {
        match direction {
            HexDirection::Zero => HexColDirection::North,
            HexDirection::One => HexColDirection::NorthWest,
            HexDirection::Two => HexColDirection::SouthWest,
            HexDirection::Three => HexColDirection::South,
            HexDirection::Four => HexColDirection::SouthEast,
            HexDirection::Five => HexColDirection::NorthEast,
        }
    }
}

impl vstd::std_specs::convert::FromSpecImpl<HexDirection> for HexColDirection {
    open spec fn obeys_from_spec() -> bool {
        true
    }

    open spec fn from_spec(direction: HexDirection) -> Self {
        match direction {
            HexDirection::Zero => HexColDirection::North,
            HexDirection::One => HexColDirection::NorthWest,
            HexDirection::Two => HexColDirection::SouthWest,
            HexDirection::Three => HexColDirection::South,
            HexDirection::Four => HexColDirection::SouthEast,
            HexDirection::Five => HexColDirection::NorthEast,
        }
    }
}

impl From<HexColDirection> for HexDirection {
    /// The hex direction that the compass direction stands for.
    #[inline]
    fn from(direction: HexColDirection) -> (d: Self) {
        match direction {
            HexColDirection::North => HexDirection::Zero,
            HexColDirection::NorthWest => HexDirection::One,
            HexColDirection::SouthWest => HexDirection::Two,
            HexColDirection::South => HexDirection::Three,
            HexColDirection::SouthEast => HexDirection::Four,
            HexColDirection::NorthEast => HexDirection::Five,
        }
    }
}

impl vstd::std_specs::convert::FromSpecImpl<HexColDirection> for HexDirection {
    open spec fn obeys_from_spec() -> bool {
        true
    }

    open spec fn from_spec(direction: HexColDirection) -> Self {
        direction.hex_direction()
    }
}

impl HexDirection {
    /// The tile one step away from `tile_pos` in this direction, on a map using the given
    /// coordinate system.
    pub fn offset(&self, tile_pos: &TilePos, coord_sys: HexCoordSystem) -> (p: TilePos)
        requires
            axial_of_tile(*tile_pos, coord_sys).can_shift(*self),
        ensures
            p == tile_of_axial(axial_of_tile(*tile_pos, coord_sys).shifted(*self), coord_sys),
    {
        AxialPos::from_tile_pos_given_coord_system(tile_pos, coord_sys).offset(
            *self,
        ).as_tile_pos_given_coord_system(coord_sys)
    }
}

impl HexRowDirection {
    /// The tile one step away from `tile_pos` in this direction, on a map using the given
    /// coordinate system.
    #[inline]
    pub fn offset(&self, tile_pos: &TilePos, coord_sys: HexCoordSystem) -> (p: TilePos)
        requires
            axial_of_tile(*tile_pos, coord_sys).can_shift(self.hex_direction()),
        ensures
            p == tile_of_axial(
                axial_of_tile(*tile_pos, coord_sys).shifted(self.hex_direction()),
                coord_sys,
            ),
    {
        AxialPos::from_tile_pos_given_coord_system(tile_pos, coord_sys).offset_compass_row(
            *self,
        ).as_tile_pos_given_coord_system(coord_sys)
    }
}

impl HexColDirection {
    /// The tile one step away from `tile_pos` in this direction, on a map using the given
    /// coordinate system.
    #[inline]
    pub fn offset(&self, tile_pos: &TilePos, coord_sys: HexCoordSystem) -> (p: TilePos)
        requires
            axial_of_tile(*tile_pos, coord_sys).can_shift(self.hex_direction()),
        ensures
            p == tile_of_axial(
                axial_of_tile(*tile_pos, coord_sys).shifted(self.hex_direction()),
                coord_sys,
            ),
    {
        AxialPos::from_tile_pos_given_coord_system(tile_pos, coord_sys).offset_compass_col(
            *self,
        ).as_tile_pos_given_coord_system(coord_sys)
    }
}

/// Stores some data `T` associated with each neighboring hex cell, if present.
#[derive(Debug, Default)]
pub struct HexNeighbors<T> {
    pub zero: Option<T>,
    pub one: Option<T>,
    pub two: Option<T>,
    pub three: Option<T>,
    pub four: Option<T>,
    pub five: Option<T>,
}

impl<T> HexNeighbors<T> {
    /// The item stored for the given direction.
    pub open spec fn slot(self, direction: HexDirection) -> Option<T> {
        match direction {
            HexDirection::Zero => self.zero,
            HexDirection::One => self.one,
            HexDirection::Two => self.two,
            HexDirection::Three => self.three,
            HexDirection::Four => self.four,
            HexDirection::Five => self.five,
        }
    }

    /// `self` with the item for the given direction replaced.
    pub open spec fn with_slot(self, direction: HexDirection, item: Option<T>) -> HexNeighbors<T> {
        match direction {
            HexDirection::Zero => HexNeighbors { zero: item, ..self },
            HexDirection::One => HexNeighbors { one: item, ..self },
            HexDirection::Two => HexNeighbors { two: item, ..self },
            HexDirection::Three => HexNeighbors { three: item, ..self },
            HexDirection::Four => HexNeighbors { four: item, ..self },
            HexDirection::Five => HexNeighbors { five: item, ..self },
        }
    }

    /// The present items, in the order `Zero` to `Five`.
    pub open spec fn present(self) -> Seq<T> {
        present_in(self.slot(HexDirection::Zero)) + present_in(self.slot(HexDirection::One))
            + present_in(self.slot(HexDirection::Two)) + present_in(self.slot(HexDirection::Three))
            + present_in(self.slot(HexDirection::Four)) + present_in(self.slot(HexDirection::Five))
    }

    /// Get an item that lies in a particular hex direction, specified by a [`HexDirection`].
    ///
    /// Will be `None` if no such items exists.
    #[inline]
    pub fn get(&self, direction: HexDirection) -> (t: Option<&T>)
        ensures
            t == option_ref(self.slot(direction)),
    {
        match direction {
            HexDirection::Zero => self.zero.as_ref(),
            HexDirection::One => self.one.as_ref(),
            HexDirection::Two => self.two.as_ref(),
            HexDirection::Three => self.three.as_ref(),
            HexDirection::Four => self.four.as_ref(),
            HexDirection::Five => self.five.as_ref(),
        }
    }

    /// Get a mutable reference to the optional item that lies in a particular hex direction.
    #[inline]
    pub fn get_mut(&mut self, direction: HexDirection) -> (t: &mut Option<T>)
        ensures
            *t == old(self).slot(direction),
            *final(self) == old(self).with_slot(direction, *final(t)),
    {
        match direction {
            HexDirection::Zero => &mut self.zero,
            HexDirection::One => &mut self.one,
            HexDirection::Two => &mut self.two,
            HexDirection::Three => &mut self.three,
            HexDirection::Four => &mut self.four,
            HexDirection::Five => &mut self.five,
        }
    }

    /// Set item that lies in a particular hex direction, replacing what was there.
    #[inline]
    pub fn set(&mut self, direction: HexDirection, data: T)
        ensures
            *final(self) == old(self).with_slot(direction, Some(data)),
    {
        let slot = self.get_mut(direction);
        *slot = Some(data);
    }
}

impl<T> HexNeighbors<T> {
    /// Get a mutable reference to an item that lies in a particular hex direction.
    ///
    /// Will be `None` if no such items exists.
    #[inline]
    pub fn get_inner_mut(&mut self, direction: HexDirection) -> (t: Option<&mut T>)
        ensures
            (match old(self).slot(direction) {
                None => t is None && *final(self) == *old(self),
                Some(v) => t is Some && *t.unwrap() == v && *final(self) == old(self).with_slot(
                    direction,
                    Some(*final(t.unwrap())),
                ),
            }),
    {
        match direction {
            HexDirection::Zero => self.zero.as_mut(),
            HexDirection::One => self.one.as_mut(),
            HexDirection::Two => self.two.as_mut(),
            HexDirection::Three => self.three.as_mut(),
            HexDirection::Four => self.four.as_mut(),
            HexDirection::Five => self.five.as_mut(),
        }
    }

    /// The neighbors that are present, in the order `Zero` to `Five`; absent ones are
    /// skipped.
    #[inline]
    pub fn iter(&self) -> (v: Vec<&T>)
        ensures
            v@.map_values(|t: &T| *t) == self.present(),
    {
        let mut v: Vec<&T> = Vec::new();
        if let Some(t) = self.zero.as_ref() {
            v.push(t);
        }
        if let Some(t) = self.one.as_ref() {
            v.push(t);
        }
        if let Some(t) = self.two.as_ref() {
            v.push(t);
        }
        if let Some(t) = self.three.as_ref() {
            v.push(t);
        }
        if let Some(t) = self.four.as_ref() {
            v.push(t);
        }
        if let Some(t) = self.five.as_ref() {
            v.push(t);
        }
        assert(v@.map_values(|t: &T| *t) =~= self.present());
        v
    }

    /// Applies the supplied closure `f` with an [`and_then`](std::option::Option::and_then) to
    /// each neighbor element, where `f` takes `T` by value.
    #[inline]
    pub fn and_then<U, F>(self, f: F) -> (n: HexNeighbors<U>) where F: Fn(T) -> Option<U>
        requires
            forall|d: HexDirection| #[trigger]
                self.slot(d) is Some ==> f.requires((self.slot(d).unwrap(),)),
        ensures
            forall|d: HexDirection|
                match #[trigger] self.slot(d) {
                    Some(t) => f.ensures((t,), n.slot(d)),
                    None => n.slot(d) is None,
                },
    {
        proof {
            assert(self.slot(HexDirection::Zero) == self.zero);
            assert(self.slot(HexDirection::One) == self.one);
            assert(self.slot(HexDirection::Two) == self.two);
            assert(self.slot(HexDirection::Three) == self.three);
            assert(self.slot(HexDirection::Four) == self.four);
            assert(self.slot(HexDirection::Five) == self.five);
        }
        HexNeighbors {
            zero: match self.zero {
                Some(t) => f(t),
                None => None,
            },
            one: match self.one {
                Some(t) => f(t),
                None => None,
            },
            two: match self.two {
                Some(t) => f(t),
                None => None,
            },
            three: match self.three {
                Some(t) => f(t),
                None => None,
            },
            four: match self.four {
                Some(t) => f(t),
                None => None,
            },
            five: match self.five {
                Some(t) => f(t),
                None => None,
            },
        }
    }

    /// Applies the supplied closure `f` with an [`and_then`](std::option::Option::and_then) to
    /// each neighbor element, where `f` takes `T` by reference.
    #[inline]
    pub fn and_then_ref<'a, U, F>(&'a self, f: F) -> (n: HexNeighbors<U>) where
        F: Fn(&'a T) -> Option<U>,
        requires
            forall|d: HexDirection| #[trigger]
                self.slot(d) is Some ==> f.requires((&self.slot(d).unwrap(),)),
        ensures
            forall|d: HexDirection|
                match #[trigger] self.slot(d) {
                    Some(t) => f.ensures((&t,), n.slot(d)),
                    None => n.slot(d) is None,
                },
    {
        proof {
            assert(self.slot(HexDirection::Zero) == self.zero);
            assert(self.slot(HexDirection::One) == self.one);
            assert(self.slot(HexDirection::Two) == self.two);
            assert(self.slot(HexDirection::Three) == self.three);
            assert(self.slot(HexDirection::Four) == self.four);
            assert(self.slot(HexDirection::Five) == self.five);
        }
        HexNeighbors {
            zero: match &self.zero {
                Some(t) => f(t),
                None => None,
            },
            one: match &self.one {
                Some(t) => f(t),
                None => None,
            },
            two: match &self.two {
                Some(t) => f(t),
                None => None,
            },
            three: match &self.three {
                Some(t) => f(t),
                None => None,
            },
            four: match &self.four {
                Some(t) => f(t),
                None => None,
            },
            five: match &self.five {
                Some(t) => f(t),
                None => None,
            },
        }
    }

    /// Applies the supplied closure `f` with a [`map`](std::option::Option::map) to each
    /// neighbor element, where `f` takes `T` by reference.
    #[inline]
    pub fn map_ref<'a, U, F>(&'a self, f: F) -> (n: HexNeighbors<U>) where F: Fn(&'a T) -> U
        requires
            forall|d: HexDirection| #[trigger]
                self.slot(d) is Some ==> f.requires((&self.slot(d).unwrap(),)),
        ensures
            forall|d: HexDirection|
                match #[trigger] self.slot(d) {
                    Some(t) => n.slot(d) is Some && f.ensures((&t,), n.slot(d).unwrap()),
                    None => n.slot(d) is None,
                },
    {
        proof {
            assert(self.slot(HexDirection::Zero) == self.zero);
            assert(self.slot(HexDirection::One) == self.one);
            assert(self.slot(HexDirection::Two) == self.two);
            assert(self.slot(HexDirection::Three) == self.three);
            assert(self.slot(HexDirection::Four) == self.four);
            assert(self.slot(HexDirection::Five) == self.five);
        }
        HexNeighbors {
            zero: match &self.zero {
                Some(t) => Some(f(t)),
                None => None,
            },
            one: match &self.one {
                Some(t) => Some(f(t)),
                None => None,
            },
            two: match &self.two {
                Some(t) => Some(f(t)),
                None => None,
            },
            three: match &self.three {
                Some(t) => Some(f(t)),
                None => None,
            },
            four: match &self.four {
                Some(t) => Some(f(t)),
                None => None,
            },
            five: match &self.five {
                Some(t) => Some(f(t)),
                None => None,
            },
        }
    }

    /// Generates `HexNeighbors<T>` from a closure that takes a hex direction and outputs
    /// `Option<T>`.
    #[inline]
    pub fn from_directional_closure<F>(f: F) -> (n: HexNeighbors<T>) where
        F: Fn(HexDirection) -> Option<T>,
        requires
            forall|d: HexDirection| f.requires((d,)),
        ensures
            forall|d: HexDirection| f.ensures((d,), #[trigger] n.slot(d)),
    {
        let n = HexNeighbors {
            zero: f(HexDirection::Zero),
            one: f(HexDirection::One),
            two: f(HexDirection::Two),
            three: f(HexDirection::Three),
            four: f(HexDirection::Four),
            five: f(HexDirection::Five),
        };
        assert forall|d: HexDirection| f.ensures((d,), #[trigger] n.slot(d)) by {
            match d {
                HexDirection::Zero => {},
                HexDirection::One => {},
                HexDirection::Two => {},
                HexDirection::Three => {},
                HexDirection::Four => {},
                HexDirection::Five => {},
            }
        }
        n
    }
}

/// Can each of the six steps from the axial position of `tile_pos`, on a map using the given
/// coordinate system, be taken in `i32` arithmetic?
pub open spec fn hex_steps_defined(tile_pos: TilePos, hex_coord_sys: HexCoordSystem) -> bool {
    let a = axial_of_tile(tile_pos, hex_coord_sys);
    i32::MIN < a.q < i32::MAX && i32::MIN < a.r < i32::MAX
}

/// The tile one step away from `tile_pos` in the given direction, on a map of the given size
/// using the given coordinate system, if that tile lies on the map.
pub open spec fn hex_neighbor_on_map(
    tile_pos: TilePos,
    hex_coord_sys: HexCoordSystem,
    map_size: TilemapSize,
    direction: HexDirection,
) -> Option<TilePos> {
    tile_on_map_of_axial(
        axial_of_tile(tile_pos, hex_coord_sys).shifted(direction),
        hex_coord_sys,
        map_size,
    )
}

impl HexNeighbors<TilePos> {
    /// Returns neighboring tile positions, given a coordinate system.
    ///
    /// A tile position will be `None` for a particular direction, if that neighbor would not
    /// lie on the map.
    #[inline]
    pub fn get_neighboring_positions(
        tile_pos: &TilePos,
        map_size: &TilemapSize,
        hex_coord_sys: &HexCoordSystem,
    ) -> (n: HexNeighbors<TilePos>)
        requires
            hex_steps_defined(*tile_pos, *hex_coord_sys),
        ensures
            forall|d: HexDirection|
                #[trigger] n.slot(d) == hex_neighbor_on_map(*tile_pos, *hex_coord_sys, *map_size, d),
    {
        match hex_coord_sys {
            HexCoordSystem::RowEven => HexNeighbors::get_neighboring_positions_row_even(
                tile_pos,
                map_size,
            ),
            HexCoordSystem::RowOdd => HexNeighbors::get_neighboring_positions_row_odd(
                tile_pos,
                map_size,
            ),
            HexCoordSystem::ColumnEven => HexNeighbors::get_neighboring_positions_col_even(
                tile_pos,
                map_size,
            ),
            HexCoordSystem::ColumnOdd => HexNeighbors::get_neighboring_positions_col_odd(
                tile_pos,
                map_size,
            ),
            HexCoordSystem::Row | HexCoordSystem::Column => {
                HexNeighbors::get_neighboring_positions_standard(tile_pos, map_size)
            },
        }
    }

    /// Returns neighboring tile positions on a map using [`HexCoordSystem::Row`] and [`HexCoordSystem::Column`].
    ///
    /// A tile position will be `None` for a particular direction, if that neighbor would not
    /// lie on the map.
    #[inline]
    pub fn get_neighboring_positions_standard(tile_pos: &TilePos, map_size: &TilemapSize) -> (n:
        HexNeighbors<TilePos>)
        requires
            hex_steps_defined(*tile_pos, HexCoordSystem::Row),
        ensures
            forall|d: HexDirection|
                #[trigger] n.slot(d) == hex_neighbor_on_map(
                    *tile_pos,
                    HexCoordSystem::Row,
                    *map_size,
                    d,
                ),
    {
        let axial_pos = AxialPos::from(tile_pos);
        let f = |direction: HexDirection| -> (p: Option<TilePos>)
            requires
                axial_pos.can_shift(direction),
            ensures
                p == tile_on_map_of_axial(axial_pos.shifted(direction), HexCoordSystem::Row, *map_size),
            { axial_pos.offset(direction).as_tile_pos_given_map_size(map_size) };
        HexNeighbors::from_directional_closure(f)
    }

    /// Returns neighboring tile positions on a map using [`HexCoordSystem::RowEven`].
    ///
    /// A tile position will be `None` for a particular direction, if that neighbor would not
    /// lie on the map.
    #[inline]
    pub fn get_neighboring_positions_row_even(tile_pos: &TilePos, map_size: &TilemapSize) -> (n:
        HexNeighbors<TilePos>)
        requires
            hex_steps_defined(*tile_pos, HexCoordSystem::RowEven),
        ensures
            forall|d: HexDirection|
                #[trigger] n.slot(d) == hex_neighbor_on_map(
                    *tile_pos,
                    HexCoordSystem::RowEven,
                    *map_size,
                    d,
                ),
    {
        let axial_pos = AxialPos::from(RowEvenPos::from(tile_pos));
        let f = |direction: HexDirection| -> (p: Option<TilePos>)
            requires
                axial_pos.can_shift(direction),
            ensures
                p == tile_on_map_of_axial(axial_pos.shifted(direction), HexCoordSystem::RowEven, *map_size),
            { RowEvenPos::from(axial_pos.offset(direction)).as_tile_pos_given_map_size(map_size) };
        HexNeighbors::from_directional_closure(f)
    }

    /// Returns neighboring tile positions on a map using [`HexCoordSystem::RowOdd`].
    ///
    /// A tile position will be `None` for a particular direction, if that neighbor would not
    /// lie on the map.
    #[inline]
    pub fn get_neighboring_positions_row_odd(tile_pos: &TilePos, map_size: &TilemapSize) -> (n:
        HexNeighbors<TilePos>)
        requires
            hex_steps_defined(*tile_pos, HexCoordSystem::RowOdd),
        ensures
            forall|d: HexDirection|
                #[trigger] n.slot(d) == hex_neighbor_on_map(
                    *tile_pos,
                    HexCoordSystem::RowOdd,
                    *map_size,
                    d,
                ),
    {
        let axial_pos = AxialPos::from(RowOddPos::from(tile_pos));
        let f = |direction: HexDirection| -> (p: Option<TilePos>)
            requires
                axial_pos.can_shift(direction),
            ensures
                p == tile_on_map_of_axial(axial_pos.shifted(direction), HexCoordSystem::RowOdd, *map_size),
            { RowOddPos::from(axial_pos.offset(direction)).as_tile_pos_given_map_size(map_size) };
        HexNeighbors::from_directional_closure(f)
    }

    /// Returns neighboring tile positions on a map using [`HexCoordSystem::ColumnEven`].
    ///
    /// A tile position will be `None` for a particular direction, if that neighbor would not
    /// lie on the map.
    #[inline]
    pub fn get_neighboring_positions_col_even(tile_pos: &TilePos, map_size: &TilemapSize) -> (n:
        HexNeighbors<TilePos>)
        requires
            hex_steps_defined(*tile_pos, HexCoordSystem::ColumnEven),
        ensures
            forall|d: HexDirection|
                #[trigger] n.slot(d) == hex_neighbor_on_map(
                    *tile_pos,
                    HexCoordSystem::ColumnEven,
                    *map_size,
                    d,
                ),
    {
        let axial_pos = AxialPos::from(ColEvenPos::from(tile_pos));
        let f = |direction: HexDirection| -> (p: Option<TilePos>)
            requires
                axial_pos.can_shift(direction),
            ensures
                p == tile_on_map_of_axial(axial_pos.shifted(direction), HexCoordSystem::ColumnEven, *map_size),
            { ColEvenPos::from(axial_pos.offset(direction)).as_tile_pos_given_map_size(map_size) };
        HexNeighbors::from_directional_closure(f)
    }

    /// Returns neighboring tile positions on a map using [`HexCoordSystem::ColumnOdd`].
    ///
    /// A tile position will be `None` for a particular direction, if that neighbor would not
    /// lie on the map.
    #[inline]
    pub fn get_neighboring_positions_col_odd(tile_pos: &TilePos, map_size: &TilemapSize) -> (n:
        HexNeighbors<TilePos>)
        requires
            hex_steps_defined(*tile_pos, HexCoordSystem::ColumnOdd),
        ensures
            forall|d: HexDirection|
                #[trigger] n.slot(d) == hex_neighbor_on_map(
                    *tile_pos,
                    HexCoordSystem::ColumnOdd,
                    *map_size,
                    d,
                ),
    {
        let axial_pos = AxialPos::from(ColOddPos::from(tile_pos));
        let f = |direction: HexDirection| -> (p: Option<TilePos>)
            requires
                axial_pos.can_shift(direction),
            ensures
                p == tile_on_map_of_axial(axial_pos.shifted(direction), HexCoordSystem::ColumnOdd, *map_size),
            { ColOddPos::from(axial_pos.offset(direction)).as_tile_pos_given_map_size(map_size) };
        HexNeighbors::from_directional_closure(f)
    }
}

impl HexNeighbors<TilePos> {
    /// Returns the entities associated with each tile position.
    ///
    /// Every position present must lie within the extents of the storage's map.
    #[inline]
    pub fn entities(&self, tile_storage: &TileStorage) -> (n: HexNeighbors<Entity>)
        requires
            tile_storage.wf(),
            forall|d: HexDirection| #[trigger]
                self.slot(d) is Some ==> self.slot(d).unwrap().in_bounds(tile_storage.map_size()),
        ensures
            forall|d: HexDirection|
                #[trigger] n.slot(d) == match self.slot(d) {
                    Some(p) => tile_storage.entity_at(p),
                    None => None,
                },
    {
        let f = |tile_pos: &TilePos| -> (e: Option<Entity>)
            requires
                tile_pos.in_bounds(tile_storage.map_size()),
            ensures
                e == tile_storage.entity_at(*tile_pos),
            { tile_storage.get(tile_pos) };
        let n = self.and_then_ref(f);
        assert forall|d: HexDirection|
            #[trigger] n.slot(d) == match self.slot(d) {
                Some(p) => tile_storage.entity_at(p),
                None => None,
            } by {
            match self.slot(d) {
                Some(p) => {},
                None => {},
            }
        }
        n
    }
}

/// The item of an option, as a one- or zero-element sequence.
pub open spec fn present_in<T>(item: Option<T>) -> Seq<T> {
    match item {
        Some(t) => seq![t],
        None => Seq::empty(),
    }
}

/// An option of a reference to the item of an option.
pub open spec fn option_ref<'a, T>(item: Option<T>) -> Option<&'a T> {
    match item {
        Some(t) => Some(&t),
        None => None,
    }
}

/// The direction opposite to `direction`: three multiples of `pi/3` further.
pub open spec fn opposite(direction: HexDirection) -> HexDirection {
    HexDirection::of_index(((direction.index() + 3) % 6) as int)
}

/// Reading a tile position as coordinates of a hex coordinate system and converting those into
/// axial coordinates and back gives the coordinates back.
pub proof fn lemma_coords_round_trip(x: i32, y: i32, hex_coord_sys: HexCoordSystem)
    ensures
        coords_in_system(axial_of_coords(x, y, hex_coord_sys), hex_coord_sys) == (x, y),
{
    lemma_offset_conversions_round_trip(
        AxialPos { q: x, r: y },
        RowOddPos { q: x, r: y },
        RowEvenPos { q: x, r: y },
        ColOddPos { q: x, r: y },
        ColEvenPos { q: x, r: y },
    );
}

/// Converting a tile position into axial coordinates and back gives the tile position back,
/// for tile coordinates that fit in an `i32`.
pub proof fn lemma_tile_axial_round_trip(tile_pos: TilePos, hex_coord_sys: HexCoordSystem)
    requires
        tile_pos.x <= i32::MAX,
        tile_pos.y <= i32::MAX,
    ensures
        tile_of_axial(axial_of_tile(tile_pos, hex_coord_sys), hex_coord_sys) == tile_pos,
{
    lemma_coords_round_trip(tile_pos.x as i32, tile_pos.y as i32, hex_coord_sys);
}

/// A hex neighbor of a tile lies one step away from it in axial coordinates, so its hex
/// distance from the tile is one.
pub proof fn lemma_hex_neighbor_at_distance_one(
    tile_pos: TilePos,
    hex_coord_sys: HexCoordSystem,
    map_size: TilemapSize,
    direction: HexDirection,
)
    requires
        hex_steps_defined(tile_pos, hex_coord_sys),
        hex_neighbor_on_map(tile_pos, hex_coord_sys, map_size, direction) is Some,
    ensures
        ({
            let a = axial_of_tile(tile_pos, hex_coord_sys);
            let n = hex_neighbor_on_map(tile_pos, hex_coord_sys, map_size, direction).unwrap();
            &&& n.in_bounds(map_size)
            &&& axial_of_tile(n, hex_coord_sys) == a.shifted(direction)
            &&& a.hex_distance(axial_of_tile(n, hex_coord_sys)) == 1
        }),
{
    let a = axial_of_tile(tile_pos, hex_coord_sys);
    let b = a.shifted(direction);
    let c = coords_in_system(b, hex_coord_sys);
    lemma_offset_conversions_round_trip(
        b,
        RowOddPos { q: c.0, r: c.1 },
        RowEvenPos { q: c.0, r: c.1 },
        ColOddPos { q: c.0, r: c.1 },
        ColEvenPos { q: c.0, r: c.1 },
    );
}

/// Being hex neighbors is symmetric: if `n` is the neighbor of a tile in some direction, the
/// tile is the neighbor of `n` in the opposite direction.
#[verifier::spinoff_prover]
pub proof fn lemma_hex_neighbors_symmetric(
    tile_pos: TilePos,
    hex_coord_sys: HexCoordSystem,
    map_size: TilemapSize,
    direction: HexDirection,
)
    requires
        tile_pos.in_bounds(map_size),
        tile_pos.x <= i32::MAX,
        tile_pos.y <= i32::MAX,
        hex_steps_defined(tile_pos, hex_coord_sys),
        hex_neighbor_on_map(tile_pos, hex_coord_sys, map_size, direction) is Some,
    ensures
        hex_neighbor_on_map(
            hex_neighbor_on_map(tile_pos, hex_coord_sys, map_size, direction).unwrap(),
            hex_coord_sys,
            map_size,
            opposite(direction),
        ) == Some(tile_pos),
{
    let a = axial_of_tile(tile_pos, hex_coord_sys);
    let n = hex_neighbor_on_map(tile_pos, hex_coord_sys, map_size, direction).unwrap();
    lemma_hex_neighbor_at_distance_one(tile_pos, hex_coord_sys, map_size, direction);
    assert(axial_of_tile(n, hex_coord_sys) == a.shifted(direction));
    assert(a.shifted(direction).shifted(opposite(direction)) == a) by {
        match direction {
            HexDirection::Zero => {},
            HexDirection::One => {},
            HexDirection::Two => {},
            HexDirection::Three => {},
            HexDirection::Four => {},
            HexDirection::Five => {},
        }
    }
    lemma_coords_round_trip(tile_pos.x as i32, tile_pos.y as i32, hex_coord_sys);
    assert(coords_in_system(a, hex_coord_sys) == (tile_pos.x as i32, tile_pos.y as i32));
    assert(hex_neighbor_on_map(n, hex_coord_sys, map_size, opposite(direction))
        == tile_on_map_of_axial(a, hex_coord_sys, map_size));
}

/// The six [`HexDirection`]s, from `Zero` to `Five`.
pub fn hex_directions() -> (a: [HexDirection; 6])
    ensures
        forall|k: int| 0 <= k < 6 ==> #[trigger] a@[k] == HexDirection::of_index(k),
{
    [
        HexDirection::Zero,
        HexDirection::One,
        HexDirection::Two,
        HexDirection::Three,
        HexDirection::Four,
        HexDirection::Five,
    ]
}

/// The axial offsets of the tiles lying in each [`HexDirection`], in the order of
/// [`hex_directions`].
pub fn hex_offsets() -> (a: [AxialPos; 6])
    ensures
        forall|k: int| 0 <= k < 6 ==> #[trigger] a@[k] == hex_offset(HexDirection::of_index(k)),
{
    [
        AxialPos { q: 1, r: 0 },
        AxialPos { q: 0, r: 1 },
        AxialPos { q: -1, r: 1 },
        AxialPos { q: -1, r: 0 },
        AxialPos { q: 0, r: -1 },
        AxialPos { q: 1, r: -1 },
    ]
}

/// Stepping from a tile in a direction and then back in the opposite direction (`d + 3`)
/// returns to the tile, and the step covers hex distance one, wherever the tile's coordinates
/// and the step stay within `i32` and the tile reached has no negative coordinate (so that
/// nothing wraps around on `u32`).
#[verifier::spinoff_prover]
pub proof fn lemma_hex_offset_round_trip(
    tile_pos: TilePos,
    direction: HexDirection,
    coord_sys: HexCoordSystem,
)
    requires
        tile_pos.x <= i32::MAX,
        tile_pos.y <= i32::MAX,
        axial_of_tile(tile_pos, coord_sys).can_shift(direction),
        coords_in_system(axial_of_tile(tile_pos, coord_sys).shifted(direction), coord_sys).0 >= 0,
        coords_in_system(axial_of_tile(tile_pos, coord_sys).shifted(direction), coord_sys).1 >= 0,
    ensures
        ({
            let a = axial_of_tile(tile_pos, coord_sys);
            let b = tile_of_axial(a.shifted(direction), coord_sys);
            &&& axial_of_tile(b, coord_sys) == a.shifted(direction)
            &&& a.hex_distance(axial_of_tile(b, coord_sys)) == 1
            &&& opposite(direction) == HexDirection::of_index(((direction.index() + 3) % 6) as int)
            &&& axial_of_tile(b, coord_sys).can_shift(opposite(direction))
            &&& tile_of_axial(axial_of_tile(b, coord_sys).shifted(opposite(direction)), coord_sys)
                == tile_pos
        }),
{
    let a = axial_of_tile(tile_pos, coord_sys);
    let s = a.shifted(direction);
    let c = coords_in_system(s, coord_sys);
    let b = tile_of_axial(s, coord_sys);
    assert(axial_of_tile(b, coord_sys) == s) by {
        assert(b.x as i32 == c.0 && b.y as i32 == c.1);
        lemma_axial_coords_round_trip(s, coord_sys);
    }
    lemma_shift_back(a, direction);
    lemma_tile_axial_round_trip(tile_pos, coord_sys);
}

/// Reading an axial position's coordinates in a hex coordinate system and converting them back
/// gives the position.
proof fn lemma_axial_coords_round_trip(s: AxialPos, coord_sys: HexCoordSystem)
    ensures
        axial_of_coords(coords_in_system(s, coord_sys).0, coords_in_system(s, coord_sys).1, coord_sys)
            == s,
{
    let c = coords_in_system(s, coord_sys);
    lemma_offset_conversions_round_trip(
        s,
        RowOddPos { q: c.0, r: c.1 },
        RowEvenPos { q: c.0, r: c.1 },
        ColOddPos { q: c.0, r: c.1 },
        ColEvenPos { q: c.0, r: c.1 },
    );
}

/// A step that stays within `i32` can be undone by the opposite step, and covers hex
/// distance one.
proof fn lemma_shift_back(a: AxialPos, direction: HexDirection)
    requires
        a.can_shift(direction),
    ensures
        a.shifted(direction).can_shift(opposite(direction)),
        a.shifted(direction).shifted(opposite(direction)) == a,
        a.hex_distance(a.shifted(direction)) == 1,
{
    match direction {
        HexDirection::Zero => {},
        HexDirection::One => {},
        HexDirection::Two => {},
        HexDirection::Three => {},
        HexDirection::Four => {},
        HexDirection::Five => {},
    }
}

/// The compass directions step as the hex direction of the same index: the offset of a
/// [`HexRowDirection`] or [`HexColDirection`] is the offset of
/// `HexDirection::from(direction)`.
pub proof fn lemma_compass_directions_are_hex_directions(r: HexRowDirection, c: HexColDirection)
    ensures
        r.hex_direction() == HexDirection::of_index(r.index() as int),
        r.hex_direction().index() == r.index(),
        c.hex_direction() == HexDirection::of_index(c.index() as int),
        c.hex_direction().index() == c.index(),
{
}

/// Every neighbor that `get_neighboring_positions` reports lies on the map, and the `Row` and
/// `Column` systems, which share the standard lookup, have the same neighbors.
pub proof fn lemma_hex_neighboring_positions_on_map(
    tile_pos: TilePos,
    map_size: TilemapSize,
    hex_coord_sys: HexCoordSystem,
    direction: HexDirection,
)
    ensures
        hex_neighbor_on_map(tile_pos, hex_coord_sys, map_size, direction) is Some
            ==> hex_neighbor_on_map(tile_pos, hex_coord_sys, map_size, direction).unwrap().in_bounds(
            map_size,
        ),
        hex_neighbor_on_map(tile_pos, HexCoordSystem::Column, map_size, direction)
            == hex_neighbor_on_map(tile_pos, HexCoordSystem::Row, map_size, direction),
{
}

} // verus!
