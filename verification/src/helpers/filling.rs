//! Generation of hexagonal regions: rings and filled hexagons of hex positions.
use crate::helpers::hex_grid::axial::{axial_of_tile, fits_i32, tile_of_axial, AxialPos};
use crate::helpers::hex_grid::neighbors::{hex_offset, HexDirection};
use crate::map::{HexCoordSystem, TilemapSize};
use crate::tiles::TilePos;
use vstd::prelude::*;

verus! {

/// The `k`-th position along side `side` (in `0..6`) of the ring of the given radius around
/// `origin`: the side starts at the corner `origin + radius * offset(side)` and runs in the
/// direction `side + 2` (the "tangent").
pub open spec fn ring_position(origin: AxialPos, radius: int, side: int, k: int) -> AxialPos {
    let corner = hex_offset(HexDirection::of_index(side));
    let tangent = hex_offset(HexDirection::of_index((side + 2) % 6));
    AxialPos {
        q: (origin.q + radius * corner.q + k * tangent.q) as i32,
        r: (origin.r + radius * corner.r + k * tangent.r) as i32,
    }
}

/// The positions of side `side` of the ring of the given radius around `origin`, in order.
pub open spec fn ring_side(origin: AxialPos, radius: nat, side: int) -> Seq<AxialPos> {
    Seq::new(radius, |k: int| ring_position(origin, radius as int, side, k))
}

/// The positions of the first `sides` sides of the ring of the given radius around `origin`.
pub open spec fn ring_sides(origin: AxialPos, radius: nat, sides: nat) -> Seq<AxialPos>
    decreases sides,
{
    if sides == 0 {
        Seq::empty()
    } else {
        ring_sides(origin, radius, (sides - 1) as nat) + ring_side(
            origin,
            radius,
            sides - 1,
        )
    }
}

/// The ring of the given radius around `origin`, as generated: `origin` alone for radius zero,
/// otherwise its six sides in turn, each starting at a corner.
pub open spec fn hex_ring(origin: AxialPos, radius: nat) -> Seq<AxialPos> {
    if radius == 0 {
        seq![origin]
    } else {
        ring_sides(origin, radius, 6)
    }
}

/// The rings of radius `0` to `rings - 1` around `origin`, one after the other.
pub open spec fn hex_rings(origin: AxialPos, rings: nat) -> Seq<AxialPos>
    decreases rings,
{
    if rings == 0 {
        Seq::empty()
    } else {
        hex_rings(origin, (rings - 1) as nat) + hex_ring(origin, (rings - 1) as nat)
    }
}

/// The filled hexagon of the given radius around `origin`, as generated: its rings from the
/// center outwards.
pub open spec fn hexagon(origin: AxialPos, radius: nat) -> Seq<AxialPos> {
    hex_rings(origin, radius + 1)
}

/// Do all positions within the given radius of `origin` have `i32` coordinates?
pub open spec fn radius_fits(origin: AxialPos, radius: int) -> bool {
    &&& 0 <= radius <= i32::MAX
    &&& fits_i32(origin.q - radius) && fits_i32(origin.q + radius)
    &&& fits_i32(origin.r - radius) && fits_i32(origin.r + radius)
}

proof fn lemma_offset_components(d: HexDirection)
    ensures
        -1 <= hex_offset(d).q <= 1,
        -1 <= hex_offset(d).r <= 1,
{
}

/// Generates a vector of hex positions that form a ring of given `radius` around the specified
/// `origin`.
///
/// If `radius` is zero, `origin` is the only position in the returned vector.
pub fn generate_hex_ring(origin: AxialPos, radius: u32) -> (ring: Vec<AxialPos>)
    requires
        radius_fits(origin, radius as int),
    ensures
        ring@ == hex_ring(origin, radius as nat),
{
    if radius == 0 {
        vec![origin]
    } else {
        let mut ring: Vec<AxialPos> = Vec::new();
        let mut corners: Vec<AxialPos> = Vec::new();
        let mut tangents: Vec<AxialPos> = Vec::new();
        let mut ix: usize = 0;
        while ix < 6
            invariant
                0 <= ix <= 6,
                radius_fits(origin, radius as int),
                radius > 0,
                corners@.len() == ix,
                tangents@.len() == ix,
                forall|j: int|
                    0 <= j < ix ==> #[trigger] corners@[j] == ring_position(
                        origin,
                        radius as int,
                        j,
                        0,
                    ),
                forall|j: int|
                    0 <= j < ix ==> #[trigger] tangents@[j] == hex_offset(
                        HexDirection::of_index((j + 2) % 6),
                    ),
            decreases 6 - ix,
        {
            let direction = HexDirection::from_index(ix);
            let offset = AxialPos::from(direction);
            proof {
                lemma_offset_components(direction);
                assert(fits_i32((radius as i32) * offset.q)) by (nonlinear_arith)
                    requires
                        -1 <= offset.q <= 1,
                        0 < radius <= i32::MAX,
                ;
                assert(fits_i32((radius as i32) * offset.r)) by (nonlinear_arith)
                    requires
                        -1 <= offset.r <= 1,
                        0 < radius <= i32::MAX,
                ;
                assert(-(radius as int) <= (radius as i32) * offset.q <= radius) by (
                nonlinear_arith)
                    requires
                        -1 <= offset.q <= 1,
                        0 < radius <= i32::MAX,
                ;
                assert(-(radius as int) <= (radius as i32) * offset.r <= radius) by (
                nonlinear_arith)
                    requires
                        -1 <= offset.r <= 1,
                        0 < radius <= i32::MAX,
                ;
            }
            corners.push(origin + radius * offset);
            tangents.push(AxialPos::from(HexDirection::from(ix + 2)));
            ix = ix + 1;
        }
        let mut side: usize = 0;
        while side < 6
            invariant
                0 <= side <= 6,
                radius_fits(origin, radius as int),
                radius > 0,
                corners@.len() == 6,
                tangents@.len() == 6,
                forall|j: int|
                    0 <= j < 6 ==> #[trigger] corners@[j] == ring_position(
                        origin,
                        radius as int,
                        j,
                        0,
                    ),
                forall|j: int|
                    0 <= j < 6 ==> #[trigger] tangents@[j] == hex_offset(
                        HexDirection::of_index((j + 2) % 6),
                    ),
                ring@ == ring_sides(origin, radius as nat, side as nat),
            decreases 6 - side,
        {
            let corner = corners[side];
            let tangent = tangents[side];
            let mut k: u32 = 0;
            while k < radius
                invariant
                    0 <= k <= radius,
                    0 <= side < 6,
                    radius_fits(origin, radius as int),
                    corner == ring_position(origin, radius as int, side as int, 0),
                    tangent == hex_offset(HexDirection::of_index((side as int + 2) % 6)),
                    ring@ == ring_sides(origin, radius as nat, side as nat) + ring_side(
                        origin,
                        radius as nat,
                        side as int,
                    ).take(k as int),
                decreases radius - k,
            {
                proof {
                    lemma_ring_position_bounds(origin, radius as int, side as int, k as int);
                    lemma_ring_position_coords(origin, radius as int, side as int, k as int);
                    lemma_ring_position_coords(origin, radius as int, side as int, 0);
                    lemma_offset_components(HexDirection::of_index(side as int));
                    lemma_unit_mul(k as int, tangent.q as int);
                    lemma_unit_mul(k as int, tangent.r as int);
                    lemma_offset_components(HexDirection::of_index((side as int + 2) % 6));
                    assert(fits_i32((k as i32) * tangent.q)) by (nonlinear_arith)
                        requires
                            -1 <= tangent.q <= 1,
                            0 <= k < radius <= i32::MAX,
                    ;
                    assert(fits_i32((k as i32) * tangent.r)) by (nonlinear_arith)
                        requires
                            -1 <= tangent.r <= 1,
                            0 <= k < radius <= i32::MAX,
                    ;
                }
                let p = corner + k * tangent;
                proof {
                    assert(p == ring_position(origin, radius as int, side as int, k as int));
                    assert(ring_side(origin, radius as nat, side as int).take(k + 1) == ring_side(
                        origin,
                        radius as nat,
                        side as int,
                    ).take(k as int).push(p));
                }
                ring.push(p);
                k = k + 1;
            }
            proof {
                assert(ring_side(origin, radius as nat, side as int).take(radius as int)
                    == ring_side(origin, radius as nat, side as int));
            }
            side = side + 1;
        }
        ring
    }
}

/// Multiplying by `-1`, `0` or `1`.
proof fn lemma_unit_mul(n: int, c: int)
    requires
        -1 <= c <= 1,
    ensures
        n * c == (if c == 1 {
            n
        } else if c == -1 {
            -n
        } else {
            0
        }),
{
    assert(n * c == (if c == 1 {
        n
    } else if c == -1 {
        -n
    } else {
        0
    })) by (nonlinear_arith)
        requires
            -1 <= c <= 1,
    ;
}

/// The coordinates of the `k`-th position along a side of a ring, spelled out for each side.
proof fn lemma_ring_position_coords(origin: AxialPos, radius: int, side: int, k: int)
    requires
        0 <= side < 6,
    ensures
        ({
            let corner = hex_offset(HexDirection::of_index(side));
            let tangent = hex_offset(HexDirection::of_index((side + 2) % 6));
            let dq = radius * corner.q + k * tangent.q;
            let dr = radius * corner.r + k * tangent.r;
            &&& side == 0 ==> dq == radius - k && dr == k
            &&& side == 1 ==> dq == -k && dr == radius
            &&& side == 2 ==> dq == -radius && dr == radius - k
            &&& side == 3 ==> dq == -radius + k && dr == -k
            &&& side == 4 ==> dq == k && dr == -radius
            &&& side == 5 ==> dq == radius && dr == -radius + k
        }),
{
    let corner = hex_offset(HexDirection::of_index(side));
    let tangent = hex_offset(HexDirection::of_index((side + 2) % 6));
    lemma_offset_components(HexDirection::of_index(side));
    lemma_offset_components(HexDirection::of_index((side + 2) % 6));
    lemma_unit_mul(radius, corner.q as int);
    lemma_unit_mul(radius, corner.r as int);
    lemma_unit_mul(k, tangent.q as int);
    lemma_unit_mul(k, tangent.r as int);
}

/// Every position of the ring of radius `radius > 0` around `origin` has coordinates within
/// `radius` of the origin's.
proof fn lemma_ring_position_bounds(origin: AxialPos, radius: int, side: int, k: int)
    requires
        radius_fits(origin, radius),
        0 <= side < 6,
        0 <= k < radius,
    ensures
        ({
            let corner = hex_offset(HexDirection::of_index(side));
            let tangent = hex_offset(HexDirection::of_index((side + 2) % 6));
            &&& origin.q - radius <= origin.q + radius * corner.q + k * tangent.q <= origin.q
                + radius
            &&& origin.r - radius <= origin.r + radius * corner.r + k * tangent.r <= origin.r
                + radius
        }),
{
    lemma_ring_position_coords(origin, radius, side, k);
}

/// Generates a vector of hex positions that form a hexagon of given `radius` around the
/// specified `origin`.
pub fn generate_hexagon(origin: AxialPos, radius: u32) -> (hexagon_positions: Vec<AxialPos>)
    requires
        radius_fits(origin, radius as int),
    ensures
        hexagon_positions@ == hexagon(origin, radius as nat),
{
    let mut hexagon_positions: Vec<AxialPos> = Vec::new();
    let mut r: u32 = 0;
    while r < radius + 1
        invariant
            0 <= r <= radius + 1,
            radius_fits(origin, radius as int),
            hexagon_positions@ == hex_rings(origin, r as nat),
        decreases radius + 1 - r,
    {
        let mut ring = generate_hex_ring(origin, r);
        hexagon_positions.append(&mut ring);
        r = r + 1;
    }
    hexagon_positions
}

/// Is `p` on one of the first `sides` sides of the ring of the given radius around `origin`?
pub open spec fn on_ring_sides(origin: AxialPos, radius: nat, sides: int, p: AxialPos) -> bool {
    exists|side: int, k: int|
        0 <= side < sides && 0 <= k < radius && p == #[trigger] ring_position(
            origin,
            radius as int,
            side,
            k,
        )
}

/// The positions of a ring are pairwise distinct: a position determines its side and its place
/// along the side.
proof fn lemma_ring_position_injective(
    origin: AxialPos,
    radius: int,
    s1: int,
    k1: int,
    s2: int,
    k2: int,
)
    requires
        radius_fits(origin, radius),
        0 <= s1 < 6,
        0 <= s2 < 6,
        0 <= k1 < radius,
        0 <= k2 < radius,
        ring_position(origin, radius, s1, k1) == ring_position(origin, radius, s2, k2),
    ensures
        s1 == s2 && k1 == k2,
{
    lemma_ring_position_bounds(origin, radius, s1, k1);
    lemma_ring_position_bounds(origin, radius, s2, k2);
    lemma_ring_position_coords(origin, radius, s1, k1);
    lemma_ring_position_coords(origin, radius, s2, k2);
}

/// Every position of a ring of radius `radius > 0` lies at hex distance `radius` from the
/// origin.
proof fn lemma_ring_position_distance(origin: AxialPos, radius: int, side: int, k: int)
    requires
        radius_fits(origin, radius),
        0 <= side < 6,
        0 <= k < radius,
    ensures
        origin.hex_distance(ring_position(origin, radius, side, k)) == radius,
{
    lemma_ring_position_bounds(origin, radius, side, k);
    lemma_ring_position_coords(origin, radius, side, k);
}

/// Every position at hex distance `radius > 0` from the origin lies on the ring of that radius.
proof fn lemma_ring_complete(origin: AxialPos, radius: int, p: AxialPos)
    requires
        radius_fits(origin, radius),
        radius > 0,
        origin.hex_distance(p) == radius,
    ensures
        exists|side: int, k: int|
            0 <= side < 6 && 0 <= k < radius && p == #[trigger] ring_position(
                origin,
                radius,
                side,
                k,
            ),
{
    let dq = p.q - origin.q;
    let dr = p.r - origin.r;
    let (side, k) = if dq + dr == radius && 0 <= dr < radius {
        (0int, dr)
    } else if dr == radius && 0 <= -dq < radius {
        (1int, -dq)
    } else if dq == -radius && 0 < dr <= radius {
        (2int, radius - dr)
    } else if dq + dr == -radius && 0 <= -dr < radius {
        (3int, -dr)
    } else if dr == -radius && 0 <= dq < radius {
        (4int, dq)
    } else {
        (5int, dr + radius)
    };
    assert(0 <= side < 6 && 0 <= k < radius);
    lemma_ring_position_bounds(origin, radius, side, k);
    lemma_ring_position_coords(origin, radius, side, k);
    assert(p == ring_position(origin, radius, side, k));
}

/// The first `sides` sides of a ring: their length, which positions they hold, and that no
/// position occurs twice.
proof fn lemma_ring_sides(origin: AxialPos, radius: nat, sides: nat)
    requires
        radius_fits(origin, radius as int),
        sides <= 6,
    ensures
        ring_sides(origin, radius, sides).len() == sides * radius,
        forall|j: int|
            0 <= j < ring_sides(origin, radius, sides).len() ==> on_ring_sides(
                origin,
                radius,
                sides as int,
                #[trigger] ring_sides(origin, radius, sides)[j],
            ),
        forall|side: int, k: int|
            0 <= side < sides && 0 <= k < radius ==> ring_sides(origin, radius, sides).contains(
                #[trigger] ring_position(origin, radius as int, side, k),
            ),
        ring_sides(origin, radius, sides).no_duplicates(),
    decreases sides,
{
    if sides > 0 {
        let n = (sides - 1) as nat;
        lemma_ring_sides(origin, radius, n);
        let before = ring_sides(origin, radius, n);
        let side = ring_side(origin, radius, n as int);
        assert(sides * radius == n * radius + radius) by (nonlinear_arith)
            requires
                sides == n + 1,
        ;
        assert forall|j: int| 0 <= j < ring_sides(origin, radius, sides).len() implies on_ring_sides(
            origin,
            radius,
            sides as int,
            #[trigger] ring_sides(origin, radius, sides)[j],
        ) by {
            if j < before.len() {
                assert(on_ring_sides(origin, radius, n as int, before[j]));
            } else {
                let k = j - before.len();
                assert(ring_sides(origin, radius, sides)[j] == ring_position(
                    origin,
                    radius as int,
                    n as int,
                    k,
                ));
            }
        }
        assert forall|s: int, k: int| 0 <= s < sides && 0 <= k < radius implies ring_sides(
            origin,
            radius,
            sides,
        ).contains(#[trigger] ring_position(origin, radius as int, s, k)) by {
            if s < n {
                let i = choose|i: int|
                    0 <= i < before.len() && before[i] == ring_position(
                        origin,
                        radius as int,
                        s,
                        k,
                    );
                assert(ring_sides(origin, radius, sides)[i] == ring_position(
                    origin,
                    radius as int,
                    s,
                    k,
                ));
            } else {
                assert(ring_sides(origin, radius, sides)[before.len() + k] == ring_position(
                    origin,
                    radius as int,
                    s,
                    k,
                ));
            }
        }
        assert(side.no_duplicates()) by {
            assert forall|i: int, j: int|
                0 <= i < side.len() && 0 <= j < side.len() && i != j implies side[i]
                != side[j] by {
                if side[i] == side[j] {
                    lemma_ring_position_injective(
                        origin,
                        radius as int,
                        n as int,
                        i,
                        n as int,
                        j,
                    );
                }
            }
        }
        assert forall|i: int, j: int| 0 <= i < before.len() && 0 <= j < side.len() implies before[i]
            != side[j] by {
            assert(on_ring_sides(origin, radius, n as int, before[i]));
            let (s1, k1) = choose|s1: int, k1: int|
                0 <= s1 < n && 0 <= k1 < radius && before[i] == #[trigger] ring_position(
                    origin,
                    radius as int,
                    s1,
                    k1,
                );
            if before[i] == side[j] {
                lemma_ring_position_injective(origin, radius as int, s1, k1, n as int, j);
            }
        }
        vstd::seq_lib::lemma_no_dup_in_concat(before, side);
    }
}

/// The ring of a radius around an origin, as [`generate_hex_ring`] returns it, holds exactly
/// the positions at that hex distance from the origin, each once: `origin` alone for radius
/// zero, `6 * radius` positions otherwise.
pub proof fn lemma_hex_ring(origin: AxialPos, radius: nat)
    requires
        radius_fits(origin, radius as int),
    ensures
        hex_ring(origin, radius).len() == (if radius == 0 {
            1
        } else {
            6 * radius
        }),
        forall|j: int|
            0 <= j < hex_ring(origin, radius).len() ==> origin.hex_distance(
                #[trigger] hex_ring(origin, radius)[j],
            ) == radius,
        forall|p: AxialPos|
            origin.hex_distance(p) == radius ==> #[trigger] hex_ring(origin, radius).contains(p),
        hex_ring(origin, radius).no_duplicates(),
{
    if radius == 0 {
        assert forall|p: AxialPos| origin.hex_distance(p) == radius implies #[trigger] hex_ring(
            origin,
            radius,
        ).contains(p) by {
            assert(p == origin);
            assert(hex_ring(origin, radius)[0] == p);
        }
    } else {
        lemma_ring_sides(origin, radius, 6);
        assert forall|j: int| 0 <= j < hex_ring(origin, radius).len() implies origin.hex_distance(
            #[trigger] hex_ring(origin, radius)[j],
        ) == radius by {
            assert(on_ring_sides(origin, radius, 6, hex_ring(origin, radius)[j]));
            let (s, k) = choose|s: int, k: int|
                0 <= s < 6 && 0 <= k < radius && hex_ring(origin, radius)[j] == #[trigger] ring_position(
                    origin,
                    radius as int,
                    s,
                    k,
                );
            lemma_ring_position_distance(origin, radius as int, s, k);
        }
        assert forall|p: AxialPos| origin.hex_distance(p) == radius implies #[trigger] hex_ring(
            origin,
            radius,
        ).contains(p) by {
            lemma_ring_complete(origin, radius as int, p);
            let (s, k) = choose|s: int, k: int|
                0 <= s < 6 && 0 <= k < radius && p == #[trigger] ring_position(
                    origin,
                    radius as int,
                    s,
                    k,
                );
            assert(ring_sides(origin, radius, 6).contains(ring_position(origin, radius as int, s, k)));
        }
    }
}

/// The first `rings` rings around an origin hold exactly the positions at hex distance below
/// `rings`, each once.
proof fn lemma_hex_rings(origin: AxialPos, rings: nat)
    requires
        radius_fits(origin, rings - 1),
    ensures
        hex_rings(origin, rings).len() == (if rings == 0 {
            0
        } else {
            1 + 3 * rings * (rings - 1)
        }),
        forall|j: int|
            0 <= j < hex_rings(origin, rings).len() ==> origin.hex_distance(
                #[trigger] hex_rings(origin, rings)[j],
            ) < rings,
        forall|p: AxialPos|
            origin.hex_distance(p) < rings ==> #[trigger] hex_rings(origin, rings).contains(p),
        hex_rings(origin, rings).no_duplicates(),
    decreases rings,
{
    if rings > 0 {
        let n = (rings - 1) as nat;
        let before = hex_rings(origin, n);
        let ring = hex_ring(origin, n);
        lemma_hex_ring(origin, n);
        if n > 0 {
            lemma_hex_rings(origin, n);
            assert(1 + 3 * n * (n - 1) + 6 * n == 1 + 3 * rings * (rings - 1)) by (nonlinear_arith)
                requires
                    rings == n + 1,
            ;
        }
        assert forall|j: int| 0 <= j < hex_rings(origin, rings).len() implies origin.hex_distance(
            #[trigger] hex_rings(origin, rings)[j],
        ) < rings by {
            if j < before.len() {
                assert(hex_rings(origin, rings)[j] == before[j]);
            } else {
                assert(hex_rings(origin, rings)[j] == ring[j - before.len()]);
            }
        }
        assert forall|p: AxialPos| origin.hex_distance(p) < rings implies #[trigger] hex_rings(
            origin,
            rings,
        ).contains(p) by {
            if origin.hex_distance(p) < n {
                assert(before.contains(p));
                let i = choose|i: int| 0 <= i < before.len() && before[i] == p;
                assert(hex_rings(origin, rings)[i] == p);
            } else {
                assert(ring.contains(p));
                let i = choose|i: int| 0 <= i < ring.len() && ring[i] == p;
                assert(hex_rings(origin, rings)[before.len() + i] == p);
            }
        }
        assert forall|i: int, j: int| 0 <= i < before.len() && 0 <= j < ring.len() implies before[i]
            != ring[j] by {
            if n > 0 {
                assert(origin.hex_distance(before[i]) < n);
            }
            assert(origin.hex_distance(ring[j]) == n);
        }
        vstd::seq_lib::lemma_no_dup_in_concat(before, ring);
    }
}

/// The hexagon of a radius around an origin, as [`generate_hexagon`] returns it, holds exactly
/// the positions within that hex distance of the origin, each once: `1 + 3 * radius *
/// (radius + 1)` positions.
pub proof fn lemma_hexagon(origin: AxialPos, radius: nat)
    requires
        radius_fits(origin, radius as int),
    ensures
        hexagon(origin, radius).len() == 1 + 3 * radius * (radius + 1),
        forall|j: int|
            0 <= j < hexagon(origin, radius).len() ==> origin.hex_distance(
                #[trigger] hexagon(origin, radius)[j],
            ) <= radius,
        forall|p: AxialPos|
            origin.hex_distance(p) <= radius ==> #[trigger] hexagon(origin, radius).contains(p),
        hexagon(origin, radius).no_duplicates(),
{
    lemma_hex_rings(origin, radius + 1);
    assert(3 * (radius + 1) * radius == 3 * radius * (radius + 1)) by (nonlinear_arith);
}

/// The positions of the rectangle of the given size whose bottom-left corner is `origin`,
/// column by column: the `k`-th is `origin + (k / size.y, k % size.y)`.
pub open spec fn rect_positions(origin: TilePos, size: TilemapSize) -> Seq<TilePos> {
    Seq::new(
        (size.x * size.y) as nat,
        |k: int|
            TilePos {
                x: (origin.x + k / (size.y as int)) as u32,
                y: (origin.y + k % (size.y as int)) as u32,
            },
    )
}

/// The tile positions that filling a rectangle of the given size at `origin` visits, in the
/// order they are visited: for each column from left to right, its tiles from bottom to top.
pub fn rect_tile_positions(origin: TilePos, size: TilemapSize) -> (v: Vec<TilePos>)
    requires
        size.x > 0 && size.y > 0 ==> origin.x + size.x - 1 <= u32::MAX && origin.y + size.y - 1
            <= u32::MAX,
    ensures
        v@ == rect_positions(origin, size),
{
    let mut v: Vec<TilePos> = Vec::new();
    let mut x: u32 = 0;
    while x < size.x
        invariant
            x <= size.x,
            size.x > 0 && size.y > 0 ==> origin.x + size.x - 1 <= u32::MAX && origin.y + size.y
                - 1 <= u32::MAX,
            v@.len() == x * size.y,
            forall|k: int|
                0 <= k < v@.len() ==> #[trigger] v@[k] == rect_positions(origin, size)[k],
        decreases size.x - x,
    {
        let mut y: u32 = 0;
        while y < size.y
            invariant
                x < size.x,
                y <= size.y,
                size.x > 0 && size.y > 0 ==> origin.x + size.x - 1 <= u32::MAX && origin.y
                    + size.y - 1 <= u32::MAX,
                v@.len() == x * size.y + y,
                forall|k: int|
                    0 <= k < v@.len() ==> #[trigger] v@[k] == rect_positions(origin, size)[k],
            decreases size.y - y,
        {
            let ghost k: int = x * size.y + y;
            proof {
                lemma_rect_index(x as int, y as int, size.x as int, size.y as int);
            }
            v.push(TilePos { x: origin.x + x, y: origin.y + y });
            assert(v@[k] == rect_positions(origin, size)[k]);
            y = y + 1;
        }
        proof {
            assert((x + 1) * size.y == x * size.y + size.y) by (nonlinear_arith);
        }
        x = x + 1;
    }
    proof {
        assert(x == size.x);
    }
    assert(v@ =~= rect_positions(origin, size));
    v
}

/// Cell `(i, j)` of a `w` by `h` grid, read column by column, has the index `i * h + j`, and
/// that index is below `w * h`.
proof fn lemma_rect_index(i: int, j: int, w: int, h: int)
    requires
        0 <= i < w,
        0 <= j < h,
    ensures
        (i * h + j) / h == i,
        (i * h + j) % h == j,
        0 <= i * h + j < w * h,
{
    vstd::arithmetic::div_mod::lemma_fundamental_div_mod_converse(i * h + j, h, i, j);
    assert(i * h + j < w * h) by (nonlinear_arith)
        requires
            0 <= i < w,
            0 <= j < h,
    ;
    assert(0 <= i * h) by (nonlinear_arith)
        requires
            0 <= i,
            0 <= j < h,
    ;
}

/// The tile positions of the filled hexagon of the given radius around the tile `origin` of
/// a map in the given hex coordinate system, in the order of [`generate_hexagon`]. Positions
/// are not checked against any map: those off the map wrap around on `u32`.
pub fn hexagon_tile_positions(origin: TilePos, radius: u32, hex_coord_system: HexCoordSystem) -> (v:
    Vec<TilePos>)
    requires
        radius_fits(axial_of_tile(origin, hex_coord_system), radius as int),
    ensures
        v@ == hexagon(axial_of_tile(origin, hex_coord_system), radius as nat).map_values(
            |a: AxialPos| tile_of_axial(a, hex_coord_system),
        ),
{
    let axial_origin = AxialPos::from_tile_pos_given_coord_system(&origin, hex_coord_system);
    let hexagon_positions = generate_hexagon(axial_origin, radius);
    let mut v: Vec<TilePos> = Vec::new();
    let mut i: usize = 0;
    while i < hexagon_positions.len()
        invariant
            i <= hexagon_positions@.len(),
            v@ == hexagon_positions@.subrange(0, i as int).map_values(
                |a: AxialPos| tile_of_axial(a, hex_coord_system),
            ),
        decreases hexagon_positions@.len() - i,
    {
        v.push(hexagon_positions[i].as_tile_pos_given_coord_system(hex_coord_system));
        assert(hexagon_positions@.subrange(0, i + 1) =~= hexagon_positions@.subrange(
            0,
            i as int,
        ).push(hexagon_positions@[i as int]));
        i = i + 1;
    }
    assert(hexagon_positions@.subrange(0, i as int) =~= hexagon_positions@);
    v
}

} // verus!
