//! Code for the cube coordinate system.
use crate::helpers::hex_grid::axial::{fits_i32, max_abs3, AxialPos};
use core::ops::{Add, Mul, Sub};
use vstd::prelude::*;

verus! {

/// Identical to [`AxialPos`], but has an extra component `s`. Together, `q`, `r`, `s`
/// satisfy the identity: `q + r + s = 0`.
///
/// It is vector-like. In other words: two `CubePos` can be added/subtracted, and it can be
/// multiplied by an `i32` scalar.
///
/// Cube coordinates are useful for a variety of operations, including distance.
#[derive(Clone, Copy, Debug, Ord, PartialOrd, Eq, PartialEq, Hash, Structural)]
pub struct CubePos {
    pub q: i32,
    pub r: i32,
    pub s: i32,
}

impl CubePos {
    /// The largest absolute value among the three coordinates.
    pub open spec fn cube_norm(self) -> int {
        max_abs3(self.q as int, self.r as int, self.s as int)
    }

    /// Can the magnitude of `self` be computed in `i32` arithmetic?
    pub open spec fn magnitude_defined(self) -> bool {
        self.q != i32::MIN && self.r != i32::MIN && self.s != i32::MIN
    }
}

/// The cube coordinates of an axial position: `s` is `-(q + r)`, wrapping around on `i32`
/// overflow.
pub open spec fn cube_of_axial(a: AxialPos) -> CubePos {
    CubePos { q: a.q, r: a.r, s: (0i32).wrapping_sub(a.q.wrapping_add(a.r)) }
}

impl From<AxialPos> for CubePos {
    /// Adds the coordinate `s = -(q + r)`; on `i32` overflow it wraps around.
    #[inline]
    fn from(axial_pos: AxialPos) -> (c: Self) {
        CubePos {
            q: axial_pos.q,
            r: axial_pos.r,
            s: (0i32).wrapping_sub(axial_pos.q.wrapping_add(axial_pos.r)),
        }
    }
}

impl vstd::std_specs::convert::FromSpecImpl<AxialPos> for CubePos {
    open spec fn obeys_from_spec() -> bool {
        true
    }

    open spec fn from_spec(a: AxialPos) -> Self {
        cube_of_axial(a)
    }
}

impl Add<CubePos> for CubePos {
    type Output = CubePos;

    fn add(self, rhs: CubePos) -> (c: Self::Output) {
        CubePos { q: self.q + rhs.q, r: self.r + rhs.r, s: self.s + rhs.s }
    }
}

impl vstd::std_specs::ops::AddSpecImpl<CubePos> for CubePos {
    open spec fn obeys_add_spec() -> bool {
        true
    }

    open spec fn add_req(self, rhs: CubePos) -> bool {
        fits_i32(self.q + rhs.q) && fits_i32(self.r + rhs.r) && fits_i32(self.s + rhs.s)
    }

    open spec fn add_spec(self, rhs: CubePos) -> CubePos {
        CubePos {
            q: (self.q + rhs.q) as i32,
            r: (self.r + rhs.r) as i32,
            s: (self.s + rhs.s) as i32,
        }
    }
}

impl Add<&CubePos> for CubePos {
    type Output = CubePos;

    fn add(self, rhs: &CubePos) -> (c: Self::Output) {
        CubePos { q: self.q + rhs.q, r: self.r + rhs.r, s: self.s + rhs.s }
    }
}

impl vstd::std_specs::ops::AddSpecImpl<&CubePos> for CubePos {
    open spec fn obeys_add_spec() -> bool {
        true
    }

    open spec fn add_req(self, rhs: &CubePos) -> bool {
        fits_i32(self.q + rhs.q) && fits_i32(self.r + rhs.r) && fits_i32(self.s + rhs.s)
    }

    open spec fn add_spec(self, rhs: &CubePos) -> CubePos {
        CubePos {
            q: (self.q + rhs.q) as i32,
            r: (self.r + rhs.r) as i32,
            s: (self.s + rhs.s) as i32,
        }
    }
}

impl Sub<CubePos> for CubePos {
    type Output = CubePos;

    fn sub(self, rhs: CubePos) -> (c: Self::Output) {
        CubePos { q: self.q - rhs.q, r: self.r - rhs.r, s: self.s - rhs.s }
    }
}

impl vstd::std_specs::ops::SubSpecImpl<CubePos> for CubePos {
    open spec fn obeys_sub_spec() -> bool {
        true
    }

    open spec fn sub_req(self, rhs: CubePos) -> bool {
        fits_i32(self.q - rhs.q) && fits_i32(self.r - rhs.r) && fits_i32(self.s - rhs.s)
    }

    open spec fn sub_spec(self, rhs: CubePos) -> CubePos {
        CubePos {
            q: (self.q - rhs.q) as i32,
            r: (self.r - rhs.r) as i32,
            s: (self.s - rhs.s) as i32,
        }
    }
}

impl Mul<CubePos> for i32 {
    type Output = CubePos;

    fn mul(self, rhs: CubePos) -> (c: Self::Output) {
        CubePos { q: self * rhs.q, r: self * rhs.r, s: self * rhs.s }
    }
}

impl vstd::std_specs::ops::MulSpecImpl<CubePos> for i32 {
    open spec fn obeys_mul_spec() -> bool {
        true
    }

    open spec fn mul_req(self, rhs: CubePos) -> bool {
        fits_i32(self * rhs.q) && fits_i32(self * rhs.r) && fits_i32(self * rhs.s)
    }

    open spec fn mul_spec(self, rhs: CubePos) -> CubePos {
        CubePos {
            q: (self * rhs.q) as i32,
            r: (self * rhs.r) as i32,
            s: (self * rhs.s) as i32,
        }
    }
}

impl Mul<CubePos> for u32 {
    type Output = CubePos;

    /// The scalar is reinterpreted as an `i32` before multiplying.
    fn mul(self, rhs: CubePos) -> (c: Self::Output) {
        CubePos { q: (self as i32) * rhs.q, r: (self as i32) * rhs.r, s: (self as i32) * rhs.s }
    }
}

impl vstd::std_specs::ops::MulSpecImpl<CubePos> for u32 {
    open spec fn obeys_mul_spec() -> bool {
        true
    }

    open spec fn mul_req(self, rhs: CubePos) -> bool {
        fits_i32((self as i32) * rhs.q) && fits_i32((self as i32) * rhs.r) && fits_i32(
            (self as i32) * rhs.s,
        )
    }

    open spec fn mul_spec(self, rhs: CubePos) -> CubePos {
        CubePos {
            q: ((self as i32) * rhs.q) as i32,
            r: ((self as i32) * rhs.r) as i32,
            s: ((self as i32) * rhs.s) as i32,
        }
    }
}

/// The absolute value of an `i32` other than `i32::MIN`.
fn abs_i32(x: i32) -> (a: i32)
    requires
        x != i32::MIN,
    ensures
        a == (if x < 0 {
            -x
        } else {
            x as int
        }),
{
    if x < 0 {
        -x
    } else {
        x
    }
}

/// The larger of two `i32`s.
fn max_i32(x: i32, y: i32) -> (m: i32)
    ensures
        m == (if x >= y {
            x
        } else {
            y
        }),
{
    if x >= y {
        x
    } else {
        y
    }
}

impl CubePos {
    /// The magnitude of a cube position is its distance away from `[0, 0, 0]` in the cube
    /// grid: the largest absolute value of its three coordinates.
    #[inline]
    pub fn magnitude(&self) -> (m: i32)
        requires
            self.magnitude_defined(),
        ensures
            m == self.cube_norm(),
    {
        max_i32(abs_i32(self.q), max_i32(abs_i32(self.r), abs_i32(self.s)))
    }

    /// Returns the distance between `self` and `other` in the cube grid.
    #[inline]
    pub fn distance_from(&self, other: &CubePos) -> (d: i32)
        requires
            i32::MIN < self.q - other.q <= i32::MAX,
            i32::MIN < self.r - other.r <= i32::MAX,
            i32::MIN < self.s - other.s <= i32::MAX,
        ensures
            d == max_abs3(self.q - other.q, self.r - other.r, self.s - other.s),
    {
        let cube_pos: CubePos = *self - *other;
        cube_pos.magnitude()
    }
}

/// Axial and cube coordinates describe the same hex: dropping `s` from the cube coordinates
/// of an axial position gives it back, and where `-(q + r)` fits in an `i32` the cube
/// coordinates sum to zero and both magnitudes agree.
pub proof fn lemma_axial_cube_agree(a: AxialPos)
    ensures
        cube_of_axial(a).q == a.q && cube_of_axial(a).r == a.r,
        i32::MIN < a.q + a.r <= i32::MAX ==> cube_of_axial(a).q + cube_of_axial(a).r
            + cube_of_axial(a).s == 0,
        i32::MIN < a.q + a.r <= i32::MAX ==> cube_of_axial(a).cube_norm() == a.hex_norm(),
{
}

} // verus!
