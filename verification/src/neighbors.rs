//! Neighbors of a tile position in the unbounded grid of all `u32` positions, in the order
//! N, S, W, E, NW, NE, SW, SE.
use crate::tiles::TilePos;
use vstd::prelude::*;

verus! {

/// The horizontal step towards the `k`-th neighbor, in the order N, S, W, E, NW, NE, SW, SE.
pub open spec fn compass_dx(k: int) -> int {
    seq![0int, 0, -1, 1, -1, 1, -1, 1][k]
}

/// The vertical step towards the `k`-th neighbor, in the order N, S, W, E, NW, NE, SW, SE.
pub open spec fn compass_dy(k: int) -> int {
    seq![1int, -1, 0, 0, 1, 1, -1, -1][k]
}

/// The position `(dx, dy)` away from `p`, if both of its coordinates fit in a `u32`.
pub open spec fn step_in_u32_range(p: TilePos, dx: int, dy: int) -> Option<TilePos> {
    let x = p.x + dx;
    let y = p.y + dy;
    if 0 <= x <= u32::MAX && 0 <= y <= u32::MAX {
        Some(TilePos { x: x as u32, y: y as u32 })
    } else {
        None
    }
}

/// Gets the positions of the neighbors of the specified position, in the order
/// N, S, W, E, NW, NE, SW, SE.
///
/// Tile positions are bounded between 0 and `u32::MAX`, so `None` is returned for a neighbor
/// that would lie outside that range.
pub fn get_neighboring_pos(tile_pos: TilePos) -> (r: [Option<TilePos>; 8])
    ensures
        forall|k: int|
            0 <= k < 8 ==> #[trigger] r@[k] == step_in_u32_range(
                tile_pos,
                compass_dx(k),
                compass_dy(k),
            ),
{
    let x = tile_pos.x;
    let y = tile_pos.y;
    let not_top = y != u32::MAX;
    let not_bottom = y != 0;
    let not_left = x != 0;
    let not_right = x != u32::MAX;
    let north = if not_top { Some(TilePos { x, y: y + 1 }) } else { None };
    let south = if not_bottom { Some(TilePos { x, y: y - 1 }) } else { None };
    let west = if not_left { Some(TilePos { x: x - 1, y }) } else { None };
    let east = if not_right { Some(TilePos { x: x + 1, y }) } else { None };
    let northwest = if not_left && not_top { Some(TilePos { x: x - 1, y: y + 1 }) } else { None };
    let northeast = if not_right && not_top { Some(TilePos { x: x + 1, y: y + 1 }) } else { None };
    let southwest = if not_left && not_bottom { Some(TilePos { x: x - 1, y: y - 1 }) } else { None };
    let southeast = if not_right && not_bottom {
        Some(TilePos { x: x + 1, y: y - 1 })
    } else {
        None
    };
    let r = [north, south, west, east, northwest, northeast, southwest, southeast];
    assert forall|k: int| 0 <= k < 8 implies #[trigger] r@[k] == step_in_u32_range(
        tile_pos,
        compass_dx(k),
        compass_dy(k),
    ) by {
        if k == 0 {
        } else if k == 1 {
        } else if k == 2 {
        } else if k == 3 {
        } else if k == 4 {
        } else if k == 5 {
        } else if k == 6 {
        } else {
        }
    }
    r
}

/// Neighborhood is symmetric: when the `k`-th neighbor of `p` exists, `p` is that neighbor's
/// neighbor in the opposite direction (N and S, W and E, NW and SE, NE and SW are paired).
pub proof fn lemma_compass_neighbors_symmetric(p: TilePos, k: int)
    requires
        0 <= k < 8,
        step_in_u32_range(p, compass_dx(k), compass_dy(k)) is Some,
    ensures
        ({
            let q = step_in_u32_range(p, compass_dx(k), compass_dy(k))->0;
            let back = opposite_compass(k);
            &&& 0 <= back < 8
            &&& step_in_u32_range(q, compass_dx(back), compass_dy(back)) == Some(p)
        }),
{
}

/// The index of the direction opposite to the `k`-th one in the order N, S, W, E, NW, NE, SW,
/// SE.
pub open spec fn opposite_compass(k: int) -> int {
    seq![1int, 0, 3, 2, 7, 6, 5, 4][k]
}

} // verus!
