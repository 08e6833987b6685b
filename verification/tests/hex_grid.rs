use bevy_ecs_tilemap::helpers::filling::hexagon_tile_positions;
use bevy_ecs_tilemap::helpers::filling::{generate_hex_ring, generate_hexagon};
use bevy_ecs_tilemap::helpers::hex_grid::axial::AxialPos;
use bevy_ecs_tilemap::helpers::hex_grid::cube::CubePos;
use bevy_ecs_tilemap::helpers::hex_grid::axial::{unit_q, unit_r, unit_s};
use bevy_ecs_tilemap::helpers::hex_grid::neighbors::{
    hex_directions, hex_offsets, HexColDirection, HexDirection, HexNeighbors, HexRowDirection,
};
use bevy_ecs_tilemap::helpers::hex_grid::offset::{ColEvenPos, ColOddPos, RowEvenPos, RowOddPos};
use bevy_ecs_tilemap::map::HexCoordSystem;
use bevy_ecs_tilemap::{TilePos, TilemapSize};

fn a(q: i32, r: i32) -> AxialPos {
    AxialPos { q, r }
}

#[test]
fn axial_magnitude_and_distance() {
    assert_eq!(a(0, 0).magnitude(), 0);
    assert_eq!(a(3, -1).magnitude(), 3);
    assert_eq!(a(2, 2).magnitude(), 4);
    assert_eq!(a(-3, 1).magnitude(), 3);
    assert_eq!(a(1, 1).distance_from(&a(-2, 3)), 3);
    assert_eq!(a(-2, 3).distance_from(&a(1, 1)), 3);
    assert_eq!(a(4, -7).distance_from(&a(4, -7)), 0);
}

#[test]
fn hex_distance_triangle_inequality_on_samples() {
    let pts = [a(0, 0), a(3, -1), a(-2, 5), a(7, 7), a(-4, -4)];
    for x in pts {
        for y in pts {
            for z in pts {
                assert!(x.distance_from(&z) <= x.distance_from(&y) + y.distance_from(&z));
            }
        }
    }
}

#[test]
fn cube_conversion_keeps_coordinates_and_magnitude() {
    let c = CubePos::from(a(2, -5));
    assert_eq!(c, CubePos { q: 2, r: -5, s: 3 });
    assert_eq!(AxialPos::from(c), a(2, -5));
    assert_eq!(c.magnitude(), 5);
    assert_eq!(c.distance_from(&CubePos { q: 0, r: 0, s: 0 }), 5);
    assert_eq!((c + CubePos { q: 1, r: 1, s: -2 }), CubePos { q: 3, r: -4, s: 1 });
    assert_eq!((c - c), CubePos { q: 0, r: 0, s: 0 });
    assert_eq!(2i32 * c, CubePos { q: 4, r: -10, s: 6 });
}

#[test]
fn axial_arithmetic() {
    assert_eq!(a(1, 2) + a(3, -4), a(4, -2));
    assert_eq!(a(1, 2) - a(3, -4), a(-2, 6));
    assert_eq!(3i32 * a(1, -2), a(3, -6));
    assert_eq!(2u32 * a(-1, 4), a(-2, 8));
}

#[test]
fn offset_conversions_follow_half_shifts() {
    assert_eq!(RowOddPos::from(a(1, 3)), RowOddPos { q: 2, r: 3 });
    assert_eq!(RowOddPos::from(a(1, -3)), RowOddPos { q: 0, r: -3 });
    assert_eq!(RowEvenPos::from(a(1, 3)), RowEvenPos { q: 3, r: 3 });
    assert_eq!(RowEvenPos::from(a(1, -3)), RowEvenPos { q: -1, r: -3 });
    assert_eq!(ColOddPos::from(a(5, 0)), ColOddPos { q: 5, r: 2 });
    assert_eq!(ColEvenPos::from(a(5, 0)), ColEvenPos { q: 5, r: 3 });
    assert_eq!(ColEvenPos::from(a(-5, 0)), ColEvenPos { q: -5, r: -3 });
}

#[test]
fn offset_conversions_round_trip() {
    for q in -6..7 {
        for r in -6..7 {
            let x = a(q, r);
            assert_eq!(AxialPos::from(RowOddPos::from(x)), x);
            assert_eq!(AxialPos::from(RowEvenPos::from(x)), x);
            assert_eq!(AxialPos::from(ColOddPos::from(x)), x);
            assert_eq!(AxialPos::from(ColEvenPos::from(x)), x);
        }
    }
}

#[test]
fn tile_pos_round_trips_through_every_coordinate_system() {
    let systems = [
        HexCoordSystem::Row,
        HexCoordSystem::RowEven,
        HexCoordSystem::RowOdd,
        HexCoordSystem::Column,
        HexCoordSystem::ColumnEven,
        HexCoordSystem::ColumnOdd,
    ];
    for sys in systems {
        for y in 0..6 {
            for x in 0..6 {
                let t = TilePos { x, y };
                let ax = AxialPos::from_tile_pos_given_coord_system(&t, sys);
                assert_eq!(ax.as_tile_pos_given_coord_system(sys), t);
            }
        }
    }
}

#[test]
fn axial_to_tile_pos_on_map() {
    let map = TilemapSize { x: 4, y: 4 };
    assert_eq!(a(3, 0).as_tile_pos_given_map_size(&map), Some(TilePos { x: 3, y: 0 }));
    assert_eq!(a(4, 0).as_tile_pos_given_map_size(&map), None);
    assert_eq!(a(-1, 2).as_tile_pos_given_map_size(&map), None);
    assert_eq!(
        a(1, 3).as_tile_pos_given_coord_system_and_map_size(HexCoordSystem::RowOdd, &map),
        Some(TilePos { x: 2, y: 3 })
    );
    assert_eq!(
        a(3, 3).as_tile_pos_given_coord_system_and_map_size(HexCoordSystem::RowOdd, &map),
        None
    );
    assert_eq!(a(7, 9).as_tile_pos_unchecked(), TilePos { x: 7, y: 9 });
}

#[test]
fn hex_direction_arithmetic_is_modulo_six() {
    assert_eq!(HexDirection::from(7usize), HexDirection::One);
    assert_eq!(HexDirection::from(-1isize), HexDirection::Five);
    assert_eq!(HexDirection::from(-7i32), HexDirection::Five);
    assert_eq!(HexDirection::from(12u32), HexDirection::Zero);
    assert_eq!(HexDirection::Four + 3usize, HexDirection::One);
    assert_eq!(HexDirection::Four + 3u32, HexDirection::One);
    assert_eq!(HexDirection::One - 2isize, HexDirection::Five);
    assert_eq!(HexDirection::One - 2i32, HexDirection::Five);
    assert_eq!(HexDirection::Five + (-11i32), HexDirection::Zero);
    assert_eq!(HexDirection::Three - 3usize, HexDirection::Zero);
}

#[test]
fn hex_direction_offsets() {
    assert_eq!(AxialPos::from(HexDirection::Zero), a(1, 0));
    assert_eq!(AxialPos::from(&HexDirection::Two), a(-1, 1));
    assert_eq!(AxialPos::from(HexDirection::Five), a(1, -1));
    let t = TilePos { x: 2, y: 2 };
    assert_eq!(HexDirection::Three.offset(&t, HexCoordSystem::Row), TilePos { x: 1, y: 2 });
    assert_eq!(HexRowDirection::NorthEast.offset(&t, HexCoordSystem::Row), TilePos { x: 2, y: 3 });
    assert_eq!(HexColDirection::South.offset(&t, HexCoordSystem::Column), TilePos { x: 1, y: 2 });
}

#[test]
fn compass_directions_convert_to_and_from_hex_directions() {
    assert_eq!(HexDirection::from(HexRowDirection::East), HexDirection::Zero);
    assert_eq!(HexDirection::from(HexRowDirection::SouthEast), HexDirection::Five);
    assert_eq!(HexRowDirection::from(HexDirection::Three), HexRowDirection::West);
    assert_eq!(HexDirection::from(HexColDirection::North), HexDirection::Zero);
    assert_eq!(HexColDirection::from(HexDirection::Four), HexColDirection::SouthEast);
}

#[test]
fn offset_positions_step_in_directions() {
    let p = RowOddPos { q: 2, r: 1 };
    let east = p.offset(HexDirection::Zero);
    assert_eq!(east, RowOddPos { q: 3, r: 1 });
    assert_eq!(p.offset_compass(HexRowDirection::East), east);
    assert_eq!(p.as_tile_pos_unchecked(), TilePos { x: 2, y: 1 });
    assert_eq!(
        ColEvenPos { q: -1, r: 0 }.as_tile_pos_given_map_size(&TilemapSize { x: 3, y: 3 }),
        None
    );
    assert_eq!(RowEvenPos::from(&TilePos { x: 1, y: 2 }), RowEvenPos { q: 1, r: 2 });
}

#[test]
fn hex_neighbors_of_origin_tile() {
    let map = TilemapSize { x: 3, y: 3 };
    let n = HexNeighbors::<TilePos>::get_neighboring_positions_standard(&TilePos { x: 0, y: 0 }, &map);
    assert_eq!(n.zero, Some(TilePos { x: 1, y: 0 }));
    assert_eq!(n.one, Some(TilePos { x: 0, y: 1 }));
    assert_eq!(n.two, None);
    assert_eq!(n.three, None);
    assert_eq!(n.four, None);
    assert_eq!(n.five, None);
    assert_eq!(n.iter().len(), 2);
}

#[test]
fn hex_neighbors_accessors() {
    let mut n: HexNeighbors<u32> = HexNeighbors::from_directional_closure(|d| {
        if d == HexDirection::Two {
            None
        } else {
            Some(10)
        }
    });
    assert_eq!(n.get(HexDirection::Two), None);
    assert_eq!(n.get(HexDirection::Zero), Some(&10));
    n.set(HexDirection::Two, 5);
    assert_eq!(n.get(HexDirection::Two), Some(&5));
    if let Some(x) = n.get_inner_mut(HexDirection::Four) {
        *x = 11;
    }
    assert_eq!(n.four, Some(11));
    let doubled = n.map_ref(|x| x * 2);
    assert_eq!(doubled.two, Some(10));
    let odd = n.and_then_ref(|x| if x % 2 == 1 { Some(*x) } else { None });
    assert_eq!(odd.iter().len(), 2);
    let kept = n.and_then(|x| if x > 10 { Some(x) } else { None });
    assert_eq!(kept.four, Some(11));
    assert_eq!(kept.zero, None);
}

#[test]
fn hex_ring_of_radius_zero_is_origin() {
    assert_eq!(generate_hex_ring(a(3, -2), 0), vec![a(3, -2)]);
}

#[test]
fn hex_ring_of_radius_one_follows_directions() {
    assert_eq!(
        generate_hex_ring(a(0, 0), 1),
        vec![a(1, 0), a(0, 1), a(-1, 1), a(-1, 0), a(0, -1), a(1, -1)]
    );
}

#[test]
fn hex_ring_of_radius_two() {
    let origin = a(1, 1);
    let ring = generate_hex_ring(origin, 2);
    assert_eq!(ring.len(), 12);
    assert_eq!(ring[0], a(3, 1));
    assert_eq!(ring[1], a(2, 2));
    assert_eq!(ring[11], a(3, 0));
    for (i, x) in ring.iter().enumerate() {
        assert_eq!(x.distance_from(&origin), 2);
        assert!(!ring[i + 1..].contains(x));
    }
}

#[test]
fn hexagon_counts_and_contents() {
    let origin = a(0, 0);
    let hexagon = generate_hexagon(origin, 2);
    assert_eq!(hexagon.len(), 19);
    assert_eq!(hexagon[0], origin);
    for q in -3..4 {
        for r in -3..4 {
            let x = a(q, r);
            let inside = x.distance_from(&origin) <= 2;
            assert_eq!(hexagon.iter().filter(|y| **y == x).count(), inside as usize);
        }
    }
    assert_eq!(generate_hexagon(origin, 0), vec![origin]);
    assert_eq!(generate_hexagon(a(5, 5), 3).len(), 37);
}

#[test]
fn hexagon_tile_positions_convert_each_hexagon_cell() {
    let origin = TilePos { x: 3, y: 3 };
    for sys in [HexCoordSystem::Row, HexCoordSystem::RowOdd, HexCoordSystem::ColumnEven] {
        let tiles = hexagon_tile_positions(origin, 1, sys);
        let axial_origin = AxialPos::from_tile_pos_given_coord_system(&origin, sys);
        let cells = generate_hexagon(axial_origin, 1);
        assert_eq!(tiles.len(), 7);
        assert_eq!(tiles[0], origin);
        for (t, c) in tiles.iter().zip(cells.iter()) {
            assert_eq!(*t, c.as_tile_pos_given_coord_system(sys));
        }
    }
    let row = hexagon_tile_positions(origin, 1, HexCoordSystem::Row);
    assert_eq!(row[1], TilePos { x: 4, y: 3 });
    assert_eq!(row[4], TilePos { x: 2, y: 3 });
}

#[test]
fn hex_direction_and_offset_tables() {
    let dirs = hex_directions();
    let offs = hex_offsets();
    for k in 0..6 {
        assert_eq!(dirs[k], HexDirection::from(k));
        assert_eq!(offs[k], AxialPos::from(dirs[k]));
    }
    assert_eq!(unit_q(), a(1, 0));
    assert_eq!(unit_r(), a(0, -1));
    assert_eq!(unit_s(), a(1, -1));
}

#[test]
fn hex_offset_and_back_returns_to_the_tile() {
    let t = TilePos { x: 3, y: 4 };
    for sys in [
        HexCoordSystem::Row,
        HexCoordSystem::RowOdd,
        HexCoordSystem::RowEven,
        HexCoordSystem::Column,
        HexCoordSystem::ColumnOdd,
        HexCoordSystem::ColumnEven,
    ] {
        for d in hex_directions() {
            let b = d.offset(&t, sys);
            assert_eq!((d + 3usize).offset(&b, sys), t);
            let ax = |p: &TilePos| AxialPos::from_tile_pos_given_coord_system(p, sys);
            assert_eq!(ax(&b).distance_from(&ax(&t)), 1);
            let r = HexRowDirection::from(d);
            assert_eq!(r.offset(&t, sys), b);
            let c = HexColDirection::from(d);
            assert_eq!(c.offset(&t, sys), b);
        }
    }
}
