//! Directions on rectangular grids, and per-direction storage of neighbors.
use crate::helpers::square_grid::staggered::StaggeredPos;
use crate::helpers::projection::tile_pos_on_map;
use crate::helpers::square_grid::staggered::{staggered_of_square, staggered_of_tile};
use crate::helpers::square_grid::{square_of_staggered, square_of_tile, SquarePos};
use crate::map::TilemapSize;
use crate::tiles::{TilePos, TileStorage};
use bevy::prelude::Entity;
use core::ops::{Add, Sub};
use vstd::prelude::*;

verus! {

/// The eight directions a neighbor may lie, in a rectangular grid.
///
/// Note that isometric grids are also (currently) rectangular grids. In particular, there is no
/// difference between the grid system for square and diamond-isometric grids.
#[derive(Clone, Copy, Debug, Ord, PartialOrd, Eq, PartialEq, Hash, Structural)]
pub enum RectangularDirection {
    East,
    NorthEast,
    North,
    NorthWest,
    West,
    SouthWest,
    South,
    SouthEast,
}

impl RectangularDirection {
    /// The position of the direction in the counter-clockwise order that starts at `East`.
    pub open spec fn index(self) -> nat {
        match self {
            RectangularDirection::East => 0,
            RectangularDirection::NorthEast => 1,
            RectangularDirection::North => 2,
            RectangularDirection::NorthWest => 3,
            RectangularDirection::West => 4,
            RectangularDirection::SouthWest => 5,
            RectangularDirection::South => 6,
            RectangularDirection::SouthEast => 7,
        }
    }

    /// The direction at position `i` (in `0..8`) of the counter-clockwise order.
    pub open spec fn of_index(i: int) -> RectangularDirection {
        if i == 0 {
            RectangularDirection::East
        } else if i == 1 {
            RectangularDirection::NorthEast
        } else if i == 2 {
            RectangularDirection::North
        } else if i == 3 {
            RectangularDirection::NorthWest
        } else if i == 4 {
            RectangularDirection::West
        } else if i == 5 {
            RectangularDirection::SouthWest
        } else if i == 6 {
            RectangularDirection::South
        } else {
            RectangularDirection::SouthEast
        }
    }

    /// The direction at the given position of the counter-clockwise order.
    fn from_index(i: usize) -> (d: RectangularDirection)
        requires
            i < 8,
        ensures
            d == RectangularDirection::of_index(i as int),
    {
        if i == 0 {
            RectangularDirection::East
        } else if i == 1 {
            RectangularDirection::NorthEast
        } else if i == 2 {
            RectangularDirection::North
        } else if i == 3 {
            RectangularDirection::NorthWest
        } else if i == 4 {
            RectangularDirection::West
        } else if i == 5 {
            RectangularDirection::SouthWest
        } else if i == 6 {
            RectangularDirection::South
        } else {
            RectangularDirection::SouthEast
        }
    }

    /// The position of the direction in the counter-clockwise order, as a `usize`.
    fn to_usize(&self) -> (i: usize)
        ensures
            i == self.index(),
    {
        match self {
            RectangularDirection::East => 0,
            RectangularDirection::NorthEast => 1,
            RectangularDirection::North => 2,
            RectangularDirection::NorthWest => 3,
            RectangularDirection::West => 4,
            RectangularDirection::SouthWest => 5,
            RectangularDirection::South => 6,
            RectangularDirection::SouthEast => 7,
        }
    }

    /// The position of the direction in the counter-clockwise order, as a `isize`.
    fn to_isize(&self) -> (i: isize)
        ensures
            i == self.index(),
    {
        match self {
            RectangularDirection::East => 0,
            RectangularDirection::NorthEast => 1,
            RectangularDirection::North => 2,
            RectangularDirection::NorthWest => 3,
            RectangularDirection::West => 4,
            RectangularDirection::SouthWest => 5,
            RectangularDirection::South => 6,
            RectangularDirection::SouthEast => 7,
        }
    }

    /// Is this direction a cardinal direction (i.e. North, South, East, West)?
    pub open spec fn cardinal(self) -> bool {
        self is East || self is North || self is West || self is South
    }

    /// Is this direction a cardinal direction (i.e. North, South, East, West)?
    pub fn is_cardinal(&self) -> (b: bool)
        ensures
            b == self.cardinal(),
    {
        matches!(self, RectangularDirection::East | RectangularDirection::North | RectangularDirection::West | RectangularDirection::South)
    }

    /// Is this direction a diagonal direction (i.e. NorthEast, NorthWest, SouthWest, SouthEast)?
    pub fn is_diagonal(&self) -> (b: bool)
        ensures
            b == !self.cardinal(),
    {
        !self.is_cardinal()
    }
}

/// The offset of the tile that lies in each [`RectangularDirection`]: one step along `x` for
/// East and West, along `y` for North and South, along both for the diagonals.
pub open spec fn square_offset_of(direction: RectangularDirection) -> SquarePos {
    match direction {
        RectangularDirection::East => SquarePos { x: 1, y: 0 },
        RectangularDirection::NorthEast => SquarePos { x: 1, y: 1 },
        RectangularDirection::North => SquarePos { x: 0, y: 1 },
        RectangularDirection::NorthWest => SquarePos { x: -1i32, y: 1 },
        RectangularDirection::West => SquarePos { x: -1i32, y: 0 },
        RectangularDirection::SouthWest => SquarePos { x: -1i32, y: -1i32 },
        RectangularDirection::South => SquarePos { x: 0, y: -1i32 },
        RectangularDirection::SouthEast => SquarePos { x: 1, y: -1i32 },
    }
}

impl From<RectangularDirection> for SquarePos {
    /// The offset of the tile lying in the given direction.
    fn from(direction: RectangularDirection) -> (p: Self) {
        match direction {
            RectangularDirection::East => SquarePos { x: 1, y: 0 },
            RectangularDirection::NorthEast => SquarePos { x: 1, y: 1 },
            RectangularDirection::North => SquarePos { x: 0, y: 1 },
            RectangularDirection::NorthWest => SquarePos { x: -1i32, y: 1 },
            RectangularDirection::West => SquarePos { x: -1i32, y: 0 },
            RectangularDirection::SouthWest => SquarePos { x: -1i32, y: -1i32 },
            RectangularDirection::South => SquarePos { x: 0, y: -1i32 },
            RectangularDirection::SouthEast => SquarePos { x: 1, y: -1i32 },
        }
    }
}

impl vstd::std_specs::convert::FromSpecImpl<RectangularDirection> for SquarePos {
    open spec fn obeys_from_spec() -> bool {
        true
    }

    open spec fn from_spec(direction: RectangularDirection) -> Self {
        square_offset_of(direction)
    }
}

impl From<&RectangularDirection> for SquarePos {
    /// The offset of the tile lying in the given direction.
    fn from(direction: &RectangularDirection) -> (p: Self) {
        SquarePos::from(*direction)
    }
}

impl vstd::std_specs::convert::FromSpecImpl<&RectangularDirection> for SquarePos {
    open spec fn obeys_from_spec() -> bool {
        true
    }

    open spec fn from_spec(direction: &RectangularDirection) -> Self {
        square_offset_of(*direction)
    }
}

impl From<usize> for RectangularDirection {
    /// The direction `choice` modulo 8.
    fn from(choice: usize) -> (d: Self) {
        RectangularDirection::from_index(choice % 8)
    }
}

impl vstd::std_specs::convert::FromSpecImpl<usize> for RectangularDirection {
    open spec fn obeys_from_spec() -> bool {
        true
    }

    open spec fn from_spec(choice: usize) -> Self {
        RectangularDirection::of_index(choice as int % 8)
    }
}

impl From<isize> for RectangularDirection {
    /// The direction `choice` modulo 8, where the remainder is taken non-negative.
    fn from(choice: isize) -> (d: Self) {
        let m = choice % 8;
        let ix: usize = if m < 0 {
            (m + 8) as usize
        } else {
            m as usize
        };
        RectangularDirection::from_index(ix)
    }
}

impl vstd::std_specs::convert::FromSpecImpl<isize> for RectangularDirection {
    open spec fn obeys_from_spec() -> bool {
        true
    }

    open spec fn from_spec(choice: isize) -> Self {
        RectangularDirection::of_index(choice as int % 8)
    }
}

impl From<u32> for RectangularDirection {
    /// The direction `choice` modulo 8.
    fn from(choice: u32) -> (d: Self) {
        RectangularDirection::from(choice as usize)
    }
}

impl vstd::std_specs::convert::FromSpecImpl<u32> for RectangularDirection {
    open spec fn obeys_from_spec() -> bool {
        true
    }

    open spec fn from_spec(choice: u32) -> Self {
        RectangularDirection::of_index(choice as int % 8)
    }
}

impl From<i32> for RectangularDirection {
    /// The direction `choice` modulo 8, where the remainder is taken non-negative.
    fn from(choice: i32) -> (d: Self) {
        RectangularDirection::from(choice as isize)
    }
}

impl vstd::std_specs::convert::FromSpecImpl<i32> for RectangularDirection {
    open spec fn obeys_from_spec() -> bool {
        true
    }

    open spec fn from_spec(choice: i32) -> Self {
        RectangularDirection::of_index(choice as int % 8)
    }
}

impl Add<usize> for RectangularDirection {
    type Output = RectangularDirection;

    fn add(self, rhs: usize) -> (d: Self::Output) {
        RectangularDirection::from(self.to_usize() + rhs)
    }
}

impl vstd::std_specs::ops::AddSpecImpl<usize> for RectangularDirection {
    open spec fn obeys_add_spec() -> bool {
        true
    }

    open spec fn add_req(self, rhs: usize) -> bool {
        self.index() + rhs <= usize::MAX
    }

    open spec fn add_spec(self, rhs: usize) -> RectangularDirection {
        RectangularDirection::of_index((self.index() + rhs) % 8)
    }
}

impl Add<u32> for RectangularDirection {
    type Output = RectangularDirection;

    fn add(self, rhs: u32) -> (d: Self::Output) {
        RectangularDirection::from(self.to_usize() + rhs as usize)
    }
}

impl vstd::std_specs::ops::AddSpecImpl<u32> for RectangularDirection {
    open spec fn obeys_add_spec() -> bool {
        true
    }

    open spec fn add_req(self, rhs: u32) -> bool {
        self.index() + rhs <= usize::MAX
    }

    open spec fn add_spec(self, rhs: u32) -> RectangularDirection {
        RectangularDirection::of_index((self.index() + rhs) % 8)
    }
}

impl Add<isize> for RectangularDirection {
    type Output = RectangularDirection;

    fn add(self, rhs: isize) -> (d: Self::Output) {
        RectangularDirection::from(self.to_isize() + rhs)
    }
}

impl vstd::std_specs::ops::AddSpecImpl<isize> for RectangularDirection {
    open spec fn obeys_add_spec() -> bool {
        true
    }

    open spec fn add_req(self, rhs: isize) -> bool {
        self.index() + rhs <= isize::MAX
    }

    open spec fn add_spec(self, rhs: isize) -> RectangularDirection {
        RectangularDirection::of_index((self.index() + rhs) % 8)
    }
}

impl Add<i32> for RectangularDirection {
    type Output = RectangularDirection;

    fn add(self, rhs: i32) -> (d: Self::Output) {
        RectangularDirection::from(self.to_isize() as i32 + rhs)
    }
}

impl vstd::std_specs::ops::AddSpecImpl<i32> for RectangularDirection {
    open spec fn obeys_add_spec() -> bool {
        true
    }

    open spec fn add_req(self, rhs: i32) -> bool {
        self.index() + rhs <= i32::MAX
    }

    open spec fn add_spec(self, rhs: i32) -> RectangularDirection {
        RectangularDirection::of_index((self.index() + rhs) % 8)
    }
}

impl Sub<usize> for RectangularDirection {
    type Output = RectangularDirection;

    fn sub(self, rhs: usize) -> (d: Self::Output) {
        RectangularDirection::from(self.to_usize() - rhs)
    }
}

impl vstd::std_specs::ops::SubSpecImpl<usize> for RectangularDirection {
    open spec fn obeys_sub_spec() -> bool {
        true
    }

    open spec fn sub_req(self, rhs: usize) -> bool {
        rhs <= self.index()
    }

    open spec fn sub_spec(self, rhs: usize) -> RectangularDirection {
        RectangularDirection::of_index((self.index() - rhs) % 8)
    }
}

impl Sub<u32> for RectangularDirection {
    type Output = RectangularDirection;

    fn sub(self, rhs: u32) -> (d: Self::Output) {
        RectangularDirection::from(self.to_usize() - rhs as usize)
    }
}

impl vstd::std_specs::ops::SubSpecImpl<u32> for RectangularDirection {
    open spec fn obeys_sub_spec() -> bool {
        true
    }

    open spec fn sub_req(self, rhs: u32) -> bool {
        rhs <= self.index()
    }

    open spec fn sub_spec(self, rhs: u32) -> RectangularDirection {
        RectangularDirection::of_index((self.index() - rhs) % 8)
    }
}

impl Sub<isize> for RectangularDirection {
    type Output = RectangularDirection;

    fn sub(self, rhs: isize) -> (d: Self::Output) {
        RectangularDirection::from(self.to_isize() - rhs)
    }
}

impl vstd::std_specs::ops::SubSpecImpl<isize> for RectangularDirection {
    open spec fn obeys_sub_spec() -> bool {
        true
    }

    open spec fn sub_req(self, rhs: isize) -> bool {
        isize::MIN <= self.index() - rhs <= isize::MAX
    }

    open spec fn sub_spec(self, rhs: isize) -> RectangularDirection {
        RectangularDirection::of_index((self.index() - rhs) % 8)
    }
}

impl Sub<i32> for RectangularDirection {
    type Output = RectangularDirection;

    fn sub(self, rhs: i32) -> (d: Self::Output) {
        RectangularDirection::from(self.to_isize() as i32 - rhs)
    }
}

impl vstd::std_specs::ops::SubSpecImpl<i32> for RectangularDirection {
    open spec fn obeys_sub_spec() -> bool {
        true
    }

    open spec fn sub_req(self, rhs: i32) -> bool {
        i32::MIN <= self.index() - rhs <= i32::MAX
    }

    open spec fn sub_spec(self, rhs: i32) -> RectangularDirection {
        RectangularDirection::of_index((self.index() - rhs) % 8)
    }
}


/// Stores some data `T` associated with each neighboring grid cell, if present.
#[derive(Clone, Copy, Debug, Default)]
pub struct Neighbors<T> {
    east: Option<T>,
    north_east: Option<T>,
    north: Option<T>,
    north_west: Option<T>,
    west: Option<T>,
    south_west: Option<T>,
    south: Option<T>,
    south_east: Option<T>,
}

impl<T> Neighbors<T> {
    /// The item stored for the given direction.
    pub closed spec fn slot(self, direction: RectangularDirection) -> Option<T> {
        match direction {
            RectangularDirection::East => self.east,
            RectangularDirection::NorthEast => self.north_east,
            RectangularDirection::North => self.north,
            RectangularDirection::NorthWest => self.north_west,
            RectangularDirection::West => self.west,
            RectangularDirection::SouthWest => self.south_west,
            RectangularDirection::South => self.south,
            RectangularDirection::SouthEast => self.south_east,
        }
    }

    /// `self` with the item for the given direction replaced.
    pub closed spec fn with_slot(self, direction: RectangularDirection, item: Option<T>) -> Neighbors<T> {
        match direction {
            RectangularDirection::East => Neighbors { east: item, ..self },
            RectangularDirection::NorthEast => Neighbors { north_east: item, ..self },
            RectangularDirection::North => Neighbors { north: item, ..self },
            RectangularDirection::NorthWest => Neighbors { north_west: item, ..self },
            RectangularDirection::West => Neighbors { west: item, ..self },
            RectangularDirection::SouthWest => Neighbors { south_west: item, ..self },
            RectangularDirection::South => Neighbors { south: item, ..self },
            RectangularDirection::SouthEast => Neighbors { south_east: item, ..self },
        }
    }

    /// Replacing the item of one direction changes that direction only.
    pub proof fn lemma_with_slot(self, direction: RectangularDirection, item: Option<T>)
        ensures
            forall|d: RectangularDirection|
                #[trigger] self.with_slot(direction, item).slot(d) == if d == direction {
                    item
                } else {
                    self.slot(d)
                },
    {
    }

    /// The present items, in the order of the directions, from `East` counter-clockwise.
    pub open spec fn present(self) -> Seq<T> {
        present_in(self.slot(RectangularDirection::East))
            + present_in(self.slot(RectangularDirection::NorthEast))
            + present_in(self.slot(RectangularDirection::North))
            + present_in(self.slot(RectangularDirection::NorthWest))
            + present_in(self.slot(RectangularDirection::West))
            + present_in(self.slot(RectangularDirection::SouthWest))
            + present_in(self.slot(RectangularDirection::South))
            + present_in(self.slot(RectangularDirection::SouthEast))
    }

    /// Get an item that lies in a particular square direction.
    ///
    /// Will be `None` if no such items exists.
    pub fn get(&self, direction: RectangularDirection) -> (t: Option<&T>)
        ensures
            t == option_ref(self.slot(direction)),
    {
        match direction {
            RectangularDirection::East => self.east.as_ref(),
            RectangularDirection::NorthEast => self.north_east.as_ref(),
            RectangularDirection::North => self.north.as_ref(),
            RectangularDirection::NorthWest => self.north_west.as_ref(),
            RectangularDirection::West => self.west.as_ref(),
            RectangularDirection::SouthWest => self.south_west.as_ref(),
            RectangularDirection::South => self.south.as_ref(),
            RectangularDirection::SouthEast => self.south_east.as_ref(),
        }
    }

    /// Get a mutable reference to an item that lies in a particular square direction.
    ///
    /// Will be `None` if no such items exists.
    pub fn get_inner_mut(&mut self, direction: RectangularDirection) -> (t: Option<&mut T>)
        ensures
            (match old(self).slot(direction) {
                None => t is None && *final(self) == *old(self),
                Some(v) => t is Some && *t.unwrap() == v && *final(self) == old(self).with_slot(
                    direction,
                    Some(*final(t.unwrap())),
                ),
            }),
    {
        match direction {
            RectangularDirection::East => self.east.as_mut(),
            RectangularDirection::NorthEast => self.north_east.as_mut(),
            RectangularDirection::North => self.north.as_mut(),
            RectangularDirection::NorthWest => self.north_west.as_mut(),
            RectangularDirection::West => self.west.as_mut(),
            RectangularDirection::SouthWest => self.south_west.as_mut(),
            RectangularDirection::South => self.south.as_mut(),
            RectangularDirection::SouthEast => self.south_east.as_mut(),
        }
    }

    /// Get a mutable reference to the optional item that lies in a particular square direction.
    pub fn get_mut(&mut self, direction: RectangularDirection) -> (t: &mut Option<T>)
        ensures
            *t == old(self).slot(direction),
            *final(self) == old(self).with_slot(direction, *final(t)),
    {
        match direction {
            RectangularDirection::East => &mut self.east,
            RectangularDirection::NorthEast => &mut self.north_east,
            RectangularDirection::North => &mut self.north,
            RectangularDirection::NorthWest => &mut self.north_west,
            RectangularDirection::West => &mut self.west,
            RectangularDirection::SouthWest => &mut self.south_west,
            RectangularDirection::South => &mut self.south,
            RectangularDirection::SouthEast => &mut self.south_east,
        }
    }

    /// Set item that lies in a particular square direction, replacing what was there.
    pub fn set(&mut self, direction: RectangularDirection, data: T)
        ensures
            *final(self) == old(self).with_slot(direction, Some(data)),
    {
        let slot = self.get_mut(direction);
        *slot = Some(data);
    }

    /// The neighbors that are present, in the order of the directions from `East`
    /// counter-clockwise; absent ones are skipped.
    pub fn iter(&self) -> (v: Vec<&T>)
        ensures
            v@.map_values(|t: &T| *t) == self.present(),
    {
        let mut v: Vec<&T> = Vec::new();
        assert(v@.map_values(|t: &T| *t) =~= Seq::<T>::empty());
        push_present(&mut v, &self.east);
        push_present(&mut v, &self.north_east);
        push_present(&mut v, &self.north);
        push_present(&mut v, &self.north_west);
        push_present(&mut v, &self.west);
        push_present(&mut v, &self.south_west);
        push_present(&mut v, &self.south);
        push_present(&mut v, &self.south_east);
        assert(v@.map_values(|t: &T| *t) =~= self.present());
        v
    }

    /// Applies the supplied closure `f` with an [`and_then`](std::option::Option::and_then) to
    /// each neighbor element, where `f` takes `T` by value.
    pub fn and_then<U, F>(self, f: F) -> (n: Neighbors<U>) where F: Fn(T) -> Option<U>
        requires
            forall|d: RectangularDirection| #[trigger]
                self.slot(d) is Some ==> f.requires((self.slot(d).unwrap(),)),
        ensures
            forall|d: RectangularDirection|
                match #[trigger] self.slot(d) {
                    Some(t) => f.ensures((t,), n.slot(d)),
                    None => n.slot(d) is None,
                },
    {
        proof {
            assert(self.slot(RectangularDirection::East) == self.east);
            assert(self.slot(RectangularDirection::NorthEast) == self.north_east);
            assert(self.slot(RectangularDirection::North) == self.north);
            assert(self.slot(RectangularDirection::NorthWest) == self.north_west);
            assert(self.slot(RectangularDirection::West) == self.west);
            assert(self.slot(RectangularDirection::SouthWest) == self.south_west);
            assert(self.slot(RectangularDirection::South) == self.south);
            assert(self.slot(RectangularDirection::SouthEast) == self.south_east);
        }
        Neighbors {
            east: match self.east {
                Some(t) => f(t),
                None => None,
            },
            north_east: match self.north_east {
                Some(t) => f(t),
                None => None,
            },
            north: match self.north {
                Some(t) => f(t),
                None => None,
            },
            north_west: match self.north_west {
                Some(t) => f(t),
                None => None,
            },
            west: match self.west {
                Some(t) => f(t),
                None => None,
            },
            south_west: match self.south_west {
                Some(t) => f(t),
                None => None,
            },
            south: match self.south {
                Some(t) => f(t),
                None => None,
            },
            south_east: match self.south_east {
                Some(t) => f(t),
                None => None,
            },
        }
    }

    /// Applies the supplied closure `f` with an [`and_then`](std::option::Option::and_then) to
    /// each neighbor element, where `f` takes `T` by reference.
    pub fn and_then_ref<'a, U, F>(&'a self, f: F) -> (n: Neighbors<U>) where F: Fn(&'a T) -> Option<U>,
        requires
            forall|d: RectangularDirection| #[trigger]
                self.slot(d) is Some ==> f.requires((&self.slot(d).unwrap(),)),
        ensures
            forall|d: RectangularDirection|
                match #[trigger] self.slot(d) {
                    Some(t) => f.ensures((&t,), n.slot(d)),
                    None => n.slot(d) is None,
                },
    {
        proof {
            assert(self.slot(RectangularDirection::East) == self.east);
            assert(self.slot(RectangularDirection::NorthEast) == self.north_east);
            assert(self.slot(RectangularDirection::North) == self.north);
            assert(self.slot(RectangularDirection::NorthWest) == self.north_west);
            assert(self.slot(RectangularDirection::West) == self.west);
            assert(self.slot(RectangularDirection::SouthWest) == self.south_west);
            assert(self.slot(RectangularDirection::South) == self.south);
            assert(self.slot(RectangularDirection::SouthEast) == self.south_east);
        }
        Neighbors {
            east: match &self.east {
                Some(t) => f(t),
                None => None,
            },
            north_east: match &self.north_east {
                Some(t) => f(t),
                None => None,
            },
            north: match &self.north {
                Some(t) => f(t),
                None => None,
            },
            north_west: match &self.north_west {
                Some(t) => f(t),
                None => None,
            },
            west: match &self.west {
                Some(t) => f(t),
                None => None,
            },
            south_west: match &self.south_west {
                Some(t) => f(t),
                None => None,
            },
            south: match &self.south {
                Some(t) => f(t),
                None => None,
            },
            south_east: match &self.south_east {
                Some(t) => f(t),
                None => None,
            },
        }
    }

    /// Applies the supplied closure `f` with a [`map`](std::option::Option::map) to each
    /// neighbor element, where `f` takes `T` by reference.
    pub fn map_ref<'a, U, F>(&'a self, f: F) -> (n: Neighbors<U>) where F: Fn(&'a T) -> U,
        requires
            forall|d: RectangularDirection| #[trigger]
                self.slot(d) is Some ==> f.requires((&self.slot(d).unwrap(),)),
        ensures
            forall|d: RectangularDirection|
                match #[trigger] self.slot(d) {
                    Some(t) => n.slot(d) is Some && f.ensures((&t,), n.slot(d).unwrap()),
                    None => n.slot(d) is None,
                },
    {
        proof {
            assert(self.slot(RectangularDirection::East) == self.east);
            assert(self.slot(RectangularDirection::NorthEast) == self.north_east);
            assert(self.slot(RectangularDirection::North) == self.north);
            assert(self.slot(RectangularDirection::NorthWest) == self.north_west);
            assert(self.slot(RectangularDirection::West) == self.west);
            assert(self.slot(RectangularDirection::SouthWest) == self.south_west);
            assert(self.slot(RectangularDirection::South) == self.south);
            assert(self.slot(RectangularDirection::SouthEast) == self.south_east);
        }
        Neighbors {
            east: match &self.east {
                Some(t) => Some(f(t)),
                None => None,
            },
            north_east: match &self.north_east {
                Some(t) => Some(f(t)),
                None => None,
            },
            north: match &self.north {
                Some(t) => Some(f(t)),
                None => None,
            },
            north_west: match &self.north_west {
                Some(t) => Some(f(t)),
                None => None,
            },
            west: match &self.west {
                Some(t) => Some(f(t)),
                None => None,
            },
            south_west: match &self.south_west {
                Some(t) => Some(f(t)),
                None => None,
            },
            south: match &self.south {
                Some(t) => Some(f(t)),
                None => None,
            },
            south_east: match &self.south_east {
                Some(t) => Some(f(t)),
                None => None,
            },
        }
    }

    /// Generates `Neighbors<T>` from a closure that takes a direction and outputs `Option<T>`.
    pub fn from_directional_closure<F>(f: F) -> (n: Neighbors<T>) where
        F: Fn(RectangularDirection) -> Option<T>,
        requires
            forall|d: RectangularDirection| f.requires((d,)),
        ensures
            forall|d: RectangularDirection| f.ensures((d,), #[trigger] n.slot(d)),
    {
        let n = Neighbors {
            east: f(RectangularDirection::East),
            north_east: f(RectangularDirection::NorthEast),
            north: f(RectangularDirection::North),
            north_west: f(RectangularDirection::NorthWest),
            west: f(RectangularDirection::West),
            south_west: f(RectangularDirection::SouthWest),
            south: f(RectangularDirection::South),
            south_east: f(RectangularDirection::SouthEast),
        };
        assert forall|d: RectangularDirection| f.ensures((d,), #[trigger] n.slot(d)) by {
            match d {
                RectangularDirection::East => {},
                RectangularDirection::NorthEast => {},
                RectangularDirection::North => {},
                RectangularDirection::NorthWest => {},
                RectangularDirection::West => {},
                RectangularDirection::SouthWest => {},
                RectangularDirection::South => {},
                RectangularDirection::SouthEast => {},
            }
        }
        n
    }
}

/// Appends a reference to the item of an option, if there is one.
fn push_present<'a, T>(v: &mut Vec<&'a T>, item: &'a Option<T>)
    ensures
        final(v)@.map_values(|t: &T| *t) == old(v)@.map_values(|t: &T| *t) + present_in(*item),
{
    if let Some(t) = item {
        v.push(t);
    }
    assert(v@.map_values(|t: &T| *t) =~= old(v)@.map_values(|t: &T| *t) + present_in(*item));
}

/// The item of an option, as a one- or zero-element sequence.
pub open spec fn present_in<T>(item: Option<T>) -> Seq<T> {
    match item {
        Some(t) => seq![t],
        None => Seq::empty(),
    }
}

/// An option of a reference to the item of an option.
pub open spec fn option_ref<'a, T>(item: Option<T>) -> Option<&'a T> {
    match item {
        Some(t) => Some(&t),
        None => None,
    }
}

/// The tile one step away from `tile_pos` on a square map, if it lies on the map.
pub open spec fn square_step_on_map(
    tile_pos: TilePos,
    map_size: TilemapSize,
    direction: RectangularDirection,
) -> Option<TilePos> {
    let s = square_of_tile(tile_pos).shifted(direction);
    tile_pos_on_map(s.x as int, s.y as int, map_size)
}

/// The tile one step away from `tile_pos` on an isometric staggered map, if it lies on the map:
/// the step is taken on the square grid that the staggered grid is sheared from.
pub open spec fn staggered_step_on_map(
    tile_pos: TilePos,
    map_size: TilemapSize,
    direction: RectangularDirection,
) -> Option<TilePos> {
    let s = staggered_of_square(square_of_staggered(staggered_of_tile(tile_pos)).shifted(direction));
    tile_pos_on_map(s.x as int, s.y as int, map_size)
}

/// Can each of the eight steps from `tile_pos` be taken in `i32` arithmetic on a staggered map?
pub open spec fn staggered_steps_defined(tile_pos: TilePos) -> bool {
    let s = square_of_staggered(staggered_of_tile(tile_pos));
    i32::MIN < s.x < i32::MAX && i32::MIN < s.y < i32::MAX
}

impl Neighbors<TilePos> {
    /// Returns neighboring tile positions for a tile position in a square grid (which includes
    /// isometric diamond).
    ///
    /// A tile position will be `None` for a particular direction, if that neighbor would not
    /// lie on the map; without diagonals, the diagonal directions are all `None`.
    pub fn get_square_neighboring_positions(
        tile_pos: &TilePos,
        map_size: &TilemapSize,
        include_diagonals: bool,
    ) -> (n: Neighbors<TilePos>)
        requires
            tile_pos.x < i32::MAX,
            tile_pos.y < i32::MAX,
        ensures
            forall|d: RectangularDirection|
                #[trigger] n.slot(d) == if include_diagonals || d.cardinal() {
                    square_step_on_map(*tile_pos, *map_size, d)
                } else {
                    None
                },
    {
        let square_pos = SquarePos::from(tile_pos);
        if include_diagonals {
            let f = |direction: RectangularDirection| -> (p: Option<TilePos>)
                requires
                    square_pos.can_shift(direction),
                ensures
                    p == square_step_on_map(*tile_pos, *map_size, direction),
                { square_pos.offset(&direction).as_tile_pos(map_size) };
            Neighbors::from_directional_closure(f)
        } else {
            let f = |direction: RectangularDirection| -> (p: Option<TilePos>)
                requires
                    square_pos.can_shift(direction),
                ensures
                    p == if direction.cardinal() {
                        square_step_on_map(*tile_pos, *map_size, direction)
                    } else {
                        None
                    },
                {
                    if direction.is_cardinal() {
                        square_pos.offset(&direction).as_tile_pos(map_size)
                    } else {
                        None
                    }
                };
            Neighbors::from_directional_closure(f)
        }
    }

    /// Returns neighboring tile positions for a tile position in a staggered square grid, which
    /// is the case for the isometric staggered grid.
    ///
    /// A tile position will be `None` for a particular direction, if that neighbor would not
    /// lie on the map; without diagonals, the diagonal directions are all `None`.
    pub fn get_staggered_neighboring_positions(
        tile_pos: &TilePos,
        map_size: &TilemapSize,
        include_diagonals: bool,
    ) -> (n: Neighbors<TilePos>)
        requires
            staggered_steps_defined(*tile_pos),
        ensures
            forall|d: RectangularDirection|
                #[trigger] n.slot(d) == if include_diagonals || d.cardinal() {
                    staggered_step_on_map(*tile_pos, *map_size, d)
                } else {
                    None
                },
    {
        let staggered_pos = StaggeredPos::from(tile_pos);
        if include_diagonals {
            let f = |direction: RectangularDirection| -> (p: Option<TilePos>)
                requires
                    square_of_staggered(staggered_pos).can_shift(direction),
                ensures
                    p == staggered_step_on_map(*tile_pos, *map_size, direction),
                { staggered_pos.offset(&direction).as_tile_pos(map_size) };
            Neighbors::from_directional_closure(f)
        } else {
            let f = |direction: RectangularDirection| -> (p: Option<TilePos>)
                requires
                    square_of_staggered(staggered_pos).can_shift(direction),
                ensures
                    p == if direction.cardinal() {
                        staggered_step_on_map(*tile_pos, *map_size, direction)
                    } else {
                        None
                    },
                {
                    if direction.is_cardinal() {
                        staggered_pos.offset(&direction).as_tile_pos(map_size)
                    } else {
                        None
                    }
                };
            Neighbors::from_directional_closure(f)
        }
    }

    /// Returns the entities associated with each tile position.
    ///
    /// Every position present must lie within the extents of the storage's map.
    pub fn entities(&self, tile_storage: &TileStorage) -> (n: Neighbors<Entity>)
        requires
            tile_storage.wf(),
            forall|d: RectangularDirection| #[trigger]
                self.slot(d) is Some ==> self.slot(d).unwrap().in_bounds(tile_storage.map_size()),
        ensures
            forall|d: RectangularDirection|
                #[trigger] n.slot(d) == match self.slot(d) {
                    Some(p) => tile_storage.entity_at(p),
                    None => None,
                },
    {
        let f = |tile_pos: &TilePos| -> (e: Option<Entity>)
            requires
                tile_pos.in_bounds(tile_storage.map_size()),
            ensures
                e == tile_storage.entity_at(*tile_pos),
            { tile_storage.get(tile_pos) };
        let n = self.and_then_ref(f);
        assert forall|d: RectangularDirection|
            #[trigger] n.slot(d) == match self.slot(d) {
                Some(p) => tile_storage.entity_at(p),
                None => None,
            } by {
            match self.slot(d) {
                Some(p) => {},
                None => {},
            }
        }
        n
    }
}

/// The eight [`RectangularDirection`]s, from `East` counter-clockwise.
pub fn square_directions() -> (a: [RectangularDirection; 8])
    ensures
        forall|k: int| 0 <= k < 8 ==> #[trigger] a@[k] == RectangularDirection::of_index(k),
{
    [
        RectangularDirection::East,
        RectangularDirection::NorthEast,
        RectangularDirection::North,
        RectangularDirection::NorthWest,
        RectangularDirection::West,
        RectangularDirection::SouthWest,
        RectangularDirection::South,
        RectangularDirection::SouthEast,
    ]
}

/// The cardinal [`RectangularDirection`]s: North, West, South, East.
pub fn cardinal_square_directions() -> (a: [RectangularDirection; 4])
    ensures
        a@ == seq![
            RectangularDirection::North,
            RectangularDirection::West,
            RectangularDirection::South,
            RectangularDirection::East,
        ],
{
    let a = [
        RectangularDirection::North,
        RectangularDirection::West,
        RectangularDirection::South,
        RectangularDirection::East,
    ];
    assert(a@ =~= seq![
        RectangularDirection::North,
        RectangularDirection::West,
        RectangularDirection::South,
        RectangularDirection::East,
    ]);
    a
}

/// The offsets of the tiles lying in each [`RectangularDirection`], in the order of
/// [`square_directions`].
pub fn square_offsets() -> (a: [SquarePos; 8])
    ensures
        forall|k: int|
            0 <= k < 8 ==> #[trigger] a@[k] == square_offset_of(RectangularDirection::of_index(k)),
{
    [
        SquarePos { x: 1, y: 0 },
        SquarePos { x: 1, y: 1 },
        SquarePos { x: 0, y: 1 },
        SquarePos { x: -1, y: 1 },
        SquarePos { x: -1, y: 0 },
        SquarePos { x: -1, y: -1 },
        SquarePos { x: 0, y: -1 },
        SquarePos { x: 1, y: -1 },
    ]
}

} // verus!
