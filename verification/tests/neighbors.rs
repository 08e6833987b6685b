use bevy::prelude::Entity;
use bevy_ecs_tilemap::helpers::neighbors::{
    diamond_neighbor_pos, diamond_neighbor_pos_with_diagonals, get_neighboring_pos,
    get_tile_neighbors, hex_neighbor_pos, square_neighbor_pos, square_neighbor_pos_with_diagonals,
    staggered_neighbor_pos, staggered_neighbor_pos_with_diagonals, Neighbors,
};
use bevy_ecs_tilemap::map::{HexCoordSystem, IsoCoordSystem};
use bevy_ecs_tilemap::neighbors as compass;
use bevy_ecs_tilemap::{TilePos, TileStorage, TilemapSize, TilemapType};

fn p(x: u32, y: u32) -> TilePos {
    TilePos { x, y }
}

fn map(x: u32, y: u32) -> TilemapSize {
    TilemapSize { x, y }
}

fn collect(n: Neighbors<TilePos>) -> Vec<TilePos> {
    let mut it = n.into_iter();
    let mut out = Vec::new();
    while let Some(t) = it.next() {
        out.push(t);
    }
    out
}

#[test]
fn square_neighbors_of_corner_stay_on_map() {
    let n = square_neighbor_pos(&p(0, 0), &map(3, 3));
    assert_eq!(n.north, Some(p(0, 1)));
    assert_eq!(n.east, Some(p(1, 0)));
    assert_eq!(n.south, None);
    assert_eq!(n.west, None);
    assert_eq!(n.north_east, None);
    assert_eq!(n.count(), 2);
}

#[test]
fn square_neighbors_with_diagonals_of_center() {
    let n = square_neighbor_pos_with_diagonals(&p(1, 1), &map(3, 3));
    assert_eq!(n.count(), 8);
    assert_eq!(n.north_west, Some(p(0, 2)));
    assert_eq!(n.south_east, Some(p(2, 0)));
    assert_eq!(n.north_east, Some(p(2, 2)));
    assert_eq!(n.south_west, Some(p(0, 0)));
}

#[test]
fn square_neighbors_with_diagonals_of_far_corner() {
    let n = square_neighbor_pos_with_diagonals(&p(2, 2), &map(3, 3));
    assert_eq!(collect(n), vec![p(1, 2), p(1, 1), p(2, 1)]);
    assert_eq!(n.count(), 3);
}

#[test]
fn neighbors_iterate_in_compass_order() {
    let n = square_neighbor_pos_with_diagonals(&p(1, 1), &map(3, 3));
    assert_eq!(
        collect(n),
        vec![p(1, 2), p(0, 2), p(0, 1), p(0, 0), p(1, 0), p(2, 0), p(2, 1), p(2, 2)]
    );
}

#[test]
fn diamond_neighbors_equal_square_neighbors() {
    let m = map(4, 3);
    for y in 0..3 {
        for x in 0..4 {
            let t = p(x, y);
            assert_eq!(collect(diamond_neighbor_pos(&t, &m)), collect(square_neighbor_pos(&t, &m)));
            assert_eq!(
                collect(diamond_neighbor_pos_with_diagonals(&t, &m)),
                collect(square_neighbor_pos_with_diagonals(&t, &m))
            );
        }
    }
}

#[test]
fn staggered_neighbors_of_inner_tile() {
    let n = staggered_neighbor_pos_with_diagonals(&p(2, 2), &map(5, 5));
    assert_eq!(n.north, Some(p(2, 3)));
    assert_eq!(n.north_west, Some(p(1, 4)));
    assert_eq!(n.west, Some(p(1, 3)));
    assert_eq!(n.south_west, Some(p(1, 2)));
    assert_eq!(n.south, Some(p(2, 1)));
    assert_eq!(n.south_east, Some(p(3, 0)));
    assert_eq!(n.east, Some(p(3, 1)));
    assert_eq!(n.north_east, Some(p(3, 2)));
    let c = staggered_neighbor_pos(&p(2, 2), &map(5, 5));
    assert_eq!(c.count(), 4);
    assert_eq!(c.north_west, None);
}

#[test]
fn staggered_two_row_steps_need_room() {
    let n = staggered_neighbor_pos_with_diagonals(&p(1, 1), &map(3, 3));
    assert_eq!(n.south_east, None);
    assert_eq!(n.north_west, None);
    assert_eq!(n.south, Some(p(1, 0)));
}

#[test]
fn neighbor_relation_is_symmetric_on_square_maps() {
    let m = map(4, 4);
    for y in 0..4 {
        for x in 0..4 {
            let t = p(x, y);
            for q in collect(square_neighbor_pos_with_diagonals(&t, &m)) {
                assert!(collect(square_neighbor_pos_with_diagonals(&q, &m)).contains(&t));
            }
        }
    }
}

#[test]
fn get_neighboring_pos_dispatches_on_map_type() {
    let m = map(5, 5);
    let t = p(2, 2);
    let square = get_neighboring_pos(&t, &m, &TilemapType::Square { diagonal_neighbors: false });
    assert_eq!(collect(square), collect(square_neighbor_pos(&t, &m)));
    let staggered = get_neighboring_pos(
        &t,
        &m,
        &TilemapType::Isometric { diagonal_neighbors: true, coord_system: IsoCoordSystem::Staggered },
    );
    assert_eq!(collect(staggered), collect(staggered_neighbor_pos_with_diagonals(&t, &m)));
    let hex = get_neighboring_pos(&t, &m, &TilemapType::Hexagon(HexCoordSystem::Row));
    assert_eq!(collect(hex), collect(hex_neighbor_pos(&t, &m, HexCoordSystem::Row)));
}

#[test]
fn hex_row_neighbors_have_no_north_or_south() {
    let n = hex_neighbor_pos(&p(2, 2), &map(5, 5), HexCoordSystem::Row);
    assert_eq!(n.north, None);
    assert_eq!(n.south, None);
    assert_eq!(n.east, Some(p(3, 2)));
    assert_eq!(n.west, Some(p(1, 2)));
    assert_eq!(n.north_east, Some(p(2, 3)));
    assert_eq!(n.north_west, Some(p(1, 3)));
    assert_eq!(n.south_west, Some(p(2, 1)));
    assert_eq!(n.south_east, Some(p(3, 1)));
}

#[test]
fn hex_column_neighbors_have_no_east_or_west() {
    let n = hex_neighbor_pos(&p(2, 2), &map(5, 5), HexCoordSystem::Column);
    assert_eq!(n.east, None);
    assert_eq!(n.west, None);
    assert_eq!(n.north, Some(p(3, 2)));
    assert_eq!(n.north_west, Some(p(2, 3)));
    assert_eq!(n.south_west, Some(p(1, 3)));
    assert_eq!(n.south, Some(p(1, 2)));
    assert_eq!(n.south_east, Some(p(2, 1)));
    assert_eq!(n.north_east, Some(p(3, 1)));
    assert_eq!(n.count(), 6);
}

#[test]
fn tile_neighbors_look_up_entities() {
    let mut storage = TileStorage::empty(map(3, 3));
    let a = Entity::from_raw(4);
    let b = Entity::from_raw(5);
    storage.set(&p(1, 2), a);
    storage.set(&p(2, 2), b);
    let n = get_tile_neighbors(&p(1, 1), &storage, &TilemapType::Square { diagonal_neighbors: true });
    assert_eq!(n.north, Some(a));
    assert_eq!(n.north_east, Some(b));
    assert_eq!(n.south, None);
    assert_eq!(n.count(), 2);
    let m = get_tile_neighbors(&p(1, 1), &storage, &TilemapType::Square { diagonal_neighbors: false });
    assert_eq!(m.north, Some(a));
    assert_eq!(m.north_east, None);
}

#[test]
fn compass_neighbors_in_u32_range() {
    let n = compass::get_neighboring_pos(p(0, 0));
    assert_eq!(n[0], Some(p(0, 1)));
    assert_eq!(n[1], None);
    assert_eq!(n[2], None);
    assert_eq!(n[3], Some(p(1, 0)));
    assert_eq!(n[4], None);
    assert_eq!(n[5], Some(p(1, 1)));
    assert_eq!(n[6], None);
    assert_eq!(n[7], None);
    let m = compass::get_neighboring_pos(p(u32::MAX, u32::MAX));
    assert_eq!(m[0], None);
    assert_eq!(m[1], Some(p(u32::MAX, u32::MAX - 1)));
    assert_eq!(m[2], Some(p(u32::MAX - 1, u32::MAX)));
    assert_eq!(m[6], Some(p(u32::MAX - 1, u32::MAX - 1)));
    assert_eq!(m.iter().filter(|x| x.is_some()).count(), 3);
}

#[test]
fn compass_neighbors_of_inner_tile() {
    let n = compass::get_neighboring_pos(p(5, 5));
    assert_eq!(
        n,
        [
            Some(p(5, 6)),
            Some(p(5, 4)),
            Some(p(4, 5)),
            Some(p(6, 5)),
            Some(p(4, 6)),
            Some(p(6, 6)),
            Some(p(4, 4)),
            Some(p(6, 4)),
        ]
    );
}
