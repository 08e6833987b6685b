use bevy_ecs_tilemap::helpers::filling::rect_tile_positions;
use bevy::prelude::Entity;
use bevy_ecs_tilemap::helpers::hex_row_odd_neighbor_pos;
use bevy_ecs_tilemap::helpers::iso_grid::diamond::{unit_x, unit_y, DiamondPos as IsoDiamondPos};
use bevy_ecs_tilemap::helpers::neighbors::NeighborDirection;
use bevy_ecs_tilemap::helpers::square_grid::diamond::DiamondPos;
use bevy_ecs_tilemap::helpers::square_grid::neighbors::{
    cardinal_square_directions, square_directions, square_offsets, Neighbors, RectangularDirection,
};
use bevy_ecs_tilemap::helpers::square_grid::staggered::StaggeredPos;
use bevy_ecs_tilemap::helpers::square_grid::SquarePos;
use bevy_ecs_tilemap::helpers::{
    hex_col_even_neighbor_pos, hex_col_neighbor_pos, hex_col_odd_neighbor_pos,
    hex_row_even_neighbor_pos, hex_row_neighbor_pos, pos_2d_to_index,
};
use bevy_ecs_tilemap::{TilePos, TileStorage, TilemapSize};

fn t(x: u32, y: u32) -> TilePos {
    TilePos { x, y }
}

fn map(x: u32, y: u32) -> TilemapSize {
    TilemapSize { x, y }
}

#[test]
fn pos_2d_to_index_is_row_major() {
    assert_eq!(pos_2d_to_index(&t(2, 3), &map(5, 5)), 17);
    assert_eq!(pos_2d_to_index(&t(0, 0), &map(5, 5)), 0);
}

#[test]
fn from_i32_pair_rejects_negative_and_outside() {
    let m = map(3, 2);
    assert_eq!(TilePos::from_i32_pair(2, 1, &m), Some(t(2, 1)));
    assert_eq!(TilePos::from_i32_pair(-1, 1, &m), None);
    assert_eq!(TilePos::from_i32_pair(1, -1, &m), None);
    assert_eq!(TilePos::from_i32_pair(3, 0, &m), None);
    assert_eq!(TilePos::from_i32_pair(0, 2, &m), None);
}

#[test]
fn rectangular_direction_kinds() {
    assert!(RectangularDirection::East.is_cardinal());
    assert!(RectangularDirection::South.is_cardinal());
    assert!(!RectangularDirection::NorthEast.is_cardinal());
    assert!(RectangularDirection::SouthWest.is_diagonal());
    assert!(!RectangularDirection::West.is_diagonal());
}

#[test]
fn rectangular_direction_arithmetic_is_modulo_eight() {
    assert_eq!(RectangularDirection::from(9usize), RectangularDirection::NorthEast);
    assert_eq!(RectangularDirection::from(-1isize), RectangularDirection::SouthEast);
    assert_eq!(RectangularDirection::from(-9i32), RectangularDirection::SouthEast);
    assert_eq!(RectangularDirection::from(16u32), RectangularDirection::East);
    assert_eq!(RectangularDirection::SouthEast + 1usize, RectangularDirection::East);
    assert_eq!(RectangularDirection::North - 3i32, RectangularDirection::SouthEast);
}

#[test]
fn square_offset_arithmetic() {
    assert_eq!(SquarePos::from(RectangularDirection::NorthWest), SquarePos { x: -1, y: 1 });
    let p = SquarePos { x: 0, y: 0 };
    assert_eq!(p.offset(&RectangularDirection::South), SquarePos { x: 0, y: -1 });
    assert_eq!(p.as_tile_pos(&map(2, 2)), Some(t(0, 0)));
    assert_eq!(t(0, 0).square_offset(&RectangularDirection::West, &map(2, 2)), None);
    assert_eq!(t(0, 0).square_offset(&RectangularDirection::NorthEast, &map(2, 2)), Some(t(1, 1)));
    assert_eq!(SquarePos { x: 1, y: 2 } + SquarePos { x: 3, y: -4 }, SquarePos { x: 4, y: -2 });
    assert_eq!(SquarePos { x: 1, y: 2 } - SquarePos { x: 3, y: -4 }, SquarePos { x: -2, y: 6 });
    assert_eq!(2 * SquarePos { x: 1, y: -2 }, SquarePos { x: 2, y: -4 });
}

#[test]
fn staggered_and_square_convert_both_ways() {
    let s = StaggeredPos { x: 3, y: -1 };
    let q = SquarePos::from(s);
    assert_eq!(q, SquarePos { x: 3, y: 2 });
    assert_eq!(StaggeredPos::from(q), s);
    assert_eq!(StaggeredPos::from(&q), s);
    assert_eq!(SquarePos::from(&s), q);
    assert_eq!(DiamondPos::from(s), DiamondPos { x: 3, y: 2 });
    assert_eq!(StaggeredPos::from(DiamondPos { x: 3, y: 2 }), s);
    assert_eq!(SquarePos::from(DiamondPos { x: 5, y: 6 }), SquarePos { x: 5, y: 6 });
    assert_eq!(DiamondPos::from(&t(4, 1)), DiamondPos { x: 4, y: 1 });
}

#[test]
fn staggered_offset_goes_through_square_coordinates() {
    let s = StaggeredPos { x: 2, y: 2 };
    assert_eq!(s.offset(&RectangularDirection::East), StaggeredPos { x: 3, y: 1 });
    assert_eq!(s.offset(&RectangularDirection::North), StaggeredPos { x: 2, y: 3 });
    assert_eq!(s.as_tile_pos(&map(3, 3)), Some(t(2, 2)));
    assert_eq!(StaggeredPos { x: 2, y: 3 }.as_tile_pos(&map(3, 3)), None);
}

#[test]
fn diamond_offsets() {
    let d = DiamondPos { x: 1, y: 1 };
    assert_eq!(d.offset(&RectangularDirection::SouthWest), DiamondPos { x: 0, y: 0 });
    assert_eq!(t(1, 1).diamond_offset(&RectangularDirection::North, &map(2, 2)), None);
    assert_eq!(t(1, 0).diamond_offset(&RectangularDirection::North, &map(2, 2)), Some(t(1, 1)));
}

#[test]
fn square_grid_neighbors_of_corner() {
    let m = map(3, 3);
    let n = Neighbors::get_square_neighboring_positions(&t(0, 0), &m, true);
    assert_eq!(n.get(RectangularDirection::East), Some(&t(1, 0)));
    assert_eq!(n.get(RectangularDirection::NorthEast), Some(&t(1, 1)));
    assert_eq!(n.get(RectangularDirection::North), Some(&t(0, 1)));
    assert_eq!(n.get(RectangularDirection::West), None);
    assert_eq!(n.iter().len(), 3);
    let c = Neighbors::get_square_neighboring_positions(&t(1, 1), &m, false);
    assert_eq!(c.iter().len(), 4);
    assert_eq!(c.get(RectangularDirection::NorthEast), None);
}

#[test]
fn staggered_grid_neighbors() {
    let m = map(4, 4);
    let n = Neighbors::get_staggered_neighboring_positions(&t(1, 1), &m, true);
    assert_eq!(n.get(RectangularDirection::East), Some(&t(2, 0)));
    assert_eq!(n.get(RectangularDirection::NorthEast), Some(&t(2, 1)));
    assert_eq!(n.get(RectangularDirection::North), Some(&t(1, 2)));
    assert_eq!(n.get(RectangularDirection::West), Some(&t(0, 2)));
    assert_eq!(n.get(RectangularDirection::SouthWest), Some(&t(0, 1)));
    assert_eq!(n.get(RectangularDirection::South), Some(&t(1, 0)));
    assert_eq!(n.get(RectangularDirection::NorthWest), Some(&t(0, 3)));
    assert_eq!(n.get(RectangularDirection::SouthEast), None);
}

#[test]
fn square_grid_neighbors_accessors_and_entities() {
    let m = map(2, 2);
    let mut storage = TileStorage::empty(m);
    let e = Entity::from_raw(9);
    storage.set(&t(1, 0), e);
    let n = Neighbors::get_square_neighboring_positions(&t(0, 0), &m, true);
    let ents = n.entities(&storage);
    assert_eq!(ents.get(RectangularDirection::East), Some(&e));
    assert_eq!(ents.iter().len(), 1);
    let mut k: Neighbors<u32> = Neighbors::from_directional_closure(|d| {
        if d.is_cardinal() {
            Some(1)
        } else {
            None
        }
    });
    assert_eq!(k.iter().len(), 4);
    k.set(RectangularDirection::NorthEast, 7);
    assert_eq!(k.get(RectangularDirection::NorthEast), Some(&7));
    if let Some(v) = k.get_inner_mut(RectangularDirection::North) {
        *v = 3;
    }
    assert_eq!(k.get(RectangularDirection::North), Some(&3));
    let big = k.and_then_ref(|v| if *v > 1 { Some(*v) } else { None });
    assert_eq!(big.iter().len(), 2);
    let plus = k.map_ref(|v| v + 1);
    assert_eq!(plus.get(RectangularDirection::North), Some(&4));
    let owned = k.and_then(|v| if v == 7 { Some(v) } else { None });
    assert_eq!(owned.iter(), vec![&7]);
}

#[test]
fn iso_diamond_neighbor_steps() {
    let d = IsoDiamondPos { x: 3, y: 3 };
    assert_eq!(d.neighbor(NeighborDirection::North), IsoDiamondPos { x: 4, y: 3 });
    assert_eq!(d.neighbor(NeighborDirection::West), IsoDiamondPos { x: 3, y: 2 });
    assert_eq!(d.neighbor(NeighborDirection::South), IsoDiamondPos { x: 2, y: 3 });
    assert_eq!(d.neighbor(NeighborDirection::East), IsoDiamondPos { x: 3, y: 4 });
    assert_eq!(d.neighbor(NeighborDirection::NorthWest), IsoDiamondPos { x: 4, y: 2 });
    assert_eq!(d.neighbor(NeighborDirection::SouthWest), IsoDiamondPos { x: 2, y: 2 });
    assert_eq!(d.neighbor(NeighborDirection::SouthEast), IsoDiamondPos { x: 2, y: 4 });
    assert_eq!(d.neighbor(NeighborDirection::NorthEast), IsoDiamondPos { x: 4, y: 4 });
    assert_eq!(IsoDiamondPos { x: 0, y: 0 } + unit_x(), d.neighbor(NeighborDirection::North) - d);
    assert_eq!(unit_y(), IsoDiamondPos { x: 0, y: -1 });
    assert_eq!(IsoDiamondPos { x: -1, y: 0 }.as_tile_pos(&map(2, 2)), None);
    assert_eq!(IsoDiamondPos { x: 1, y: 0 }.as_tile_pos(&map(2, 2)), Some(t(1, 0)));
}

#[test]
fn iso_diamond_neighbors_are_distinct() {
    let d = IsoDiamondPos { x: 0, y: 0 };
    let dirs = [
        NeighborDirection::North,
        NeighborDirection::NorthWest,
        NeighborDirection::West,
        NeighborDirection::SouthWest,
        NeighborDirection::South,
        NeighborDirection::SouthEast,
        NeighborDirection::East,
        NeighborDirection::NorthEast,
    ];
    let ns: Vec<IsoDiamondPos> = dirs.iter().map(|dir| d.neighbor(*dir)).collect();
    for i in 0..8 {
        for j in 0..8 {
            assert_eq!(ns[i] == ns[j], i == j);
        }
    }
}

#[test]
fn old_hex_row_neighbors_depend_on_row_parity() {
    let m = map(5, 5);
    let even_row = hex_row_odd_neighbor_pos(&t(2, 2), &m);
    assert_eq!(even_row.north_west, Some(t(2, 3)));
    assert_eq!(even_row.south_west, Some(t(2, 1)));
    let odd_row = hex_row_odd_neighbor_pos(&t(2, 1), &m);
    assert_eq!(odd_row.north_west, Some(t(1, 2)));
    assert_eq!(odd_row.south_west, Some(t(1, 0)));
    assert_eq!(odd_row.north, None);
    assert_eq!(odd_row.north_east, Some(t(2, 2)));
    assert_eq!(odd_row.south_east, Some(t(2, 0)));
    let small = map(3, 3);
    assert_eq!(hex_row_odd_neighbor_pos(&t(0, 1), &small).north_east, Some(t(0, 2)));
    let direct = hex_row_neighbor_pos(&t(2, 2), &m);
    assert_eq!(direct.north_west, Some(t(1, 3)));
    assert_eq!(direct.north_east, Some(t(2, 3)));
    assert_eq!(direct.count(), 6);
}

#[test]
fn old_hex_neighbor_functions_on_map_edges() {
    let m = map(3, 3);
    assert_eq!(hex_row_even_neighbor_pos(&t(0, 0), &m).count(), 2);
    assert_eq!(hex_col_neighbor_pos(&t(0, 0), &m).count(), 2);
    assert_eq!(hex_col_odd_neighbor_pos(&t(1, 1), &m).count(), 6);
    assert_eq!(hex_col_even_neighbor_pos(&t(1, 1), &m).count(), 6);
}

#[test]
fn rect_tile_positions_go_column_by_column() {
    let v = rect_tile_positions(t(10, 20), map(2, 3));
    assert_eq!(
        v,
        vec![t(10, 20), t(10, 21), t(10, 22), t(11, 20), t(11, 21), t(11, 22)]
    );
    assert!(rect_tile_positions(t(0, 0), map(0, 5)).is_empty());
    assert!(rect_tile_positions(t(0, 0), map(5, 0)).is_empty());
    assert_eq!(rect_tile_positions(t(u32::MAX, 0), map(1, 1)), vec![t(u32::MAX, 0)]);
}

#[test]
fn row_even_neighbors_use_row_parity() {
    let m = map(3, 3);
    let n = hex_row_even_neighbor_pos(&t(1, 1), &m);
    assert_eq!(n.north_west, Some(t(1, 2)));
    assert_eq!(n.north_east, Some(t(2, 2)));
    assert_eq!(n.south_west, Some(t(1, 0)));
    assert_eq!(n.south_east, Some(t(2, 0)));
    assert_eq!(n.west, Some(t(0, 1)));
    assert_eq!(n.east, Some(t(2, 1)));
    let e = hex_row_even_neighbor_pos(&t(1, 2), &m);
    assert_eq!(e.south_west, Some(t(0, 1)));
    assert_eq!(e.south_east, Some(t(1, 1)));
}

#[test]
fn column_neighbors_are_the_six_axial_neighbors() {
    let n = hex_col_neighbor_pos(&t(1, 1), &map(3, 3));
    assert_eq!(n.west, None);
    assert_eq!(n.east, None);
    let mut got = vec![
        n.north.unwrap(),
        n.north_west.unwrap(),
        n.south_west.unwrap(),
        n.south.unwrap(),
        n.south_east.unwrap(),
        n.north_east.unwrap(),
    ];
    got.sort();
    let mut want = vec![t(2, 1), t(1, 2), t(0, 2), t(0, 1), t(1, 0), t(2, 0)];
    want.sort();
    assert_eq!(got, want);
    assert_eq!(n.north, Some(t(1, 2)));
}

fn slots(n: &bevy_ecs_tilemap::helpers::neighbors::Neighbors<TilePos>) -> [Option<TilePos>; 8] {
    [
        n.north,
        n.north_west,
        n.west,
        n.south_west,
        n.south,
        n.south_east,
        n.east,
        n.north_east,
    ]
}

#[test]
fn tile_hex_neighbors_are_mutual_in_every_layout() {
    let m = map(5, 5);
    let fns: [fn(&TilePos, &TilemapSize) -> bevy_ecs_tilemap::helpers::neighbors::Neighbors<TilePos>; 6] = [
        hex_row_neighbor_pos,
        hex_row_odd_neighbor_pos,
        hex_row_even_neighbor_pos,
        hex_col_neighbor_pos,
        hex_col_odd_neighbor_pos,
        hex_col_even_neighbor_pos,
    ];
    for f in fns {
        for y in 0..5 {
            for x in 0..5 {
                let a = t(x, y);
                let sa = slots(&f(&a, &m));
                for k in 0..8 {
                    if let Some(b) = sa[k] {
                        assert_eq!(slots(&f(&b, &m))[(k + 4) % 8], Some(a));
                    }
                }
            }
        }
    }
}

#[test]
fn direction_and_offset_tables() {
    let dirs = square_directions();
    assert_eq!(dirs[0], RectangularDirection::East);
    assert_eq!(dirs[7], RectangularDirection::SouthEast);
    let offs = square_offsets();
    for k in 0..8 {
        assert_eq!(offs[k], SquarePos::from(dirs[k]));
    }
    assert_eq!(
        cardinal_square_directions(),
        [
            RectangularDirection::North,
            RectangularDirection::West,
            RectangularDirection::South,
            RectangularDirection::East,
        ]
    );
}
