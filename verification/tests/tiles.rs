use bevy::prelude::Entity;
use bevy_ecs_tilemap::map::{TilemapSpacing, TilemapTextureSize};
use bevy_ecs_tilemap::tiles::{TileFlip, TileVisible};
use bevy_ecs_tilemap::{FrustumCulling, TilePos, TileStorage, TilemapSize, TilemapTileSize, TilemapType};

fn size(x: u32, y: u32) -> TilemapSize {
    TilemapSize { x, y }
}

#[test]
fn tile_pos_to_index_is_row_major() {
    let map = size(4, 5);
    assert_eq!(TilePos::new(0, 0).to_index(&map), 0);
    assert_eq!(TilePos::new(3, 0).to_index(&map), 3);
    assert_eq!(TilePos::new(0, 1).to_index(&map), 4);
    assert_eq!(TilePos::new(2, 3).to_index(&map), 14);
    assert_eq!(TilePos::new(3, 4).to_index(&map), 19);
}

#[test]
fn tile_pos_within_map_bounds_edges() {
    let map = size(4, 5);
    assert!(TilePos::new(0, 0).within_map_bounds(&map));
    assert!(TilePos::new(3, 4).within_map_bounds(&map));
    assert!(!TilePos::new(4, 4).within_map_bounds(&map));
    assert!(!TilePos::new(3, 5).within_map_bounds(&map));
    assert!(!TilePos::new(0, 0).within_map_bounds(&size(0, 0)));
}

#[test]
fn flat_indices_of_a_map_are_distinct_and_in_range() {
    let map = size(3, 4);
    let mut seen = vec![false; 12];
    for y in 0..4 {
        for x in 0..3 {
            let i = TilePos::new(x, y).to_index(&map);
            assert!(i < 12);
            assert!(!seen[i]);
            seen[i] = true;
        }
    }
    assert!(seen.iter().all(|b| *b));
}

#[test]
fn map_size_count() {
    assert_eq!(size(4, 5).count(), 20);
    assert_eq!(size(0, 7).count(), 0);
}

#[test]
fn empty_storage_holds_nothing() {
    let storage = TileStorage::empty(size(3, 3));
    for y in 0..3 {
        for x in 0..3 {
            assert_eq!(storage.get(&TilePos::new(x, y)), None);
        }
    }
    assert_eq!(storage.iter().len(), 9);
    assert!(storage.iter().iter().all(|e| e.is_none()));
}

#[test]
fn storage_get_returns_what_set_stored() {
    let mut storage = TileStorage::empty(size(3, 2));
    let a = Entity::from_raw(7);
    let b = Entity::from_raw(8);
    storage.set(&TilePos::new(2, 1), a);
    storage.set(&TilePos::new(0, 0), b);
    assert_eq!(storage.get(&TilePos::new(2, 1)), Some(a));
    assert_eq!(storage.get(&TilePos::new(0, 0)), Some(b));
    assert_eq!(storage.get(&TilePos::new(1, 1)), None);
    storage.set(&TilePos::new(2, 1), b);
    assert_eq!(storage.get(&TilePos::new(2, 1)), Some(b));
}

#[test]
fn storage_checked_access_outside_the_map() {
    let mut storage = TileStorage::empty(size(2, 2));
    let a = Entity::from_raw(1);
    storage.checked_set(&TilePos::new(5, 0), a);
    assert!(storage.iter().iter().all(|e| e.is_none()));
    assert_eq!(storage.checked_get(&TilePos::new(5, 0)), None);
    assert_eq!(storage.checked_remove(&TilePos::new(0, 9)), None);
    storage.checked_set(&TilePos::new(1, 1), a);
    assert_eq!(storage.checked_get(&TilePos::new(1, 1)), Some(a));
}

#[test]
fn storage_remove_returns_entity_and_clears_slot() {
    let mut storage = TileStorage::empty(size(2, 2));
    let a = Entity::from_raw(3);
    storage.set(&TilePos::new(1, 0), a);
    assert_eq!(storage.remove(&TilePos::new(1, 0)), Some(a));
    assert_eq!(storage.get(&TilePos::new(1, 0)), None);
    assert_eq!(storage.remove(&TilePos::new(1, 0)), None);
    storage.set(&TilePos::new(0, 1), a);
    assert_eq!(storage.checked_remove(&TilePos::new(0, 1)), Some(a));
    assert_eq!(storage.checked_get(&TilePos::new(0, 1)), None);
}

#[test]
fn storage_iter_is_row_major() {
    let mut storage = TileStorage::empty(size(2, 2));
    let a = Entity::from_raw(10);
    storage.set(&TilePos::new(1, 0), a);
    let slots = storage.iter();
    assert_eq!(slots, vec![None, Some(a), None, None]);
}

#[test]
fn storage_drain_returns_entities_in_order_and_empties() {
    let mut storage = TileStorage::empty(size(3, 2));
    let a = Entity::from_raw(1);
    let b = Entity::from_raw(2);
    storage.set(&TilePos::new(0, 1), a);
    storage.set(&TilePos::new(2, 0), b);
    let drained = storage.drain();
    assert_eq!(drained, vec![b, a]);
    assert!(storage.iter().iter().all(|e| e.is_none()));
    assert_eq!(storage.iter().len(), 6);
    assert!(storage.drain().is_empty());
}

#[test]
fn frustum_culling_defaults_to_true() {
    let culling = FrustumCulling::default();
    assert!(culling.0);
    assert!(*culling);
    assert!(!*FrustumCulling(false));
}

#[test]
fn tile_visible_defaults_to_true() {
    assert!(TileVisible::default().0);
}

#[test]
fn tile_flip_defaults_to_no_flip() {
    let flip = TileFlip::default();
    assert!(!flip.x && !flip.y && !flip.d);
}

#[test]
fn texture_size_from_tile_size_copies_extents() {
    let t = TilemapTextureSize::from(TilemapTileSize { x: 16, y: 32 });
    assert_eq!(t, TilemapTextureSize { x: 16, y: 32 });
}

#[test]
fn spacing_zero() {
    let s = TilemapSpacing::zero();
    assert_eq!((s.x, s.y), (0, 0));
}

#[test]
fn tilemap_type_constructors() {
    assert_eq!(TilemapType::square(true), TilemapType::Square { diagonal_neighbors: true });
    assert!(matches!(
        TilemapType::isometric_diamond(false),
        TilemapType::Isometric { diagonal_neighbors: false, .. }
    ));
    assert!(matches!(
        TilemapType::isometric_staggered(true),
        TilemapType::Isometric { diagonal_neighbors: true, .. }
    ));
    assert_eq!(TilemapType::default(), TilemapType::Square { diagonal_neighbors: false });
}

#[test]
fn storage_iter_mut_writes_through() {
    let mut storage = TileStorage::empty(size(2, 2));
    let a = Entity::from_raw(5);
    for slot in storage.iter_mut() {
        *slot = Some(a);
    }
    assert_eq!(storage.get(&TilePos::new(1, 1)), Some(a));
    assert_eq!(storage.iter().len(), 4);
    let copy = storage.clone();
    assert_eq!(copy.get(&TilePos::new(0, 1)), Some(a));
}

#[test]
fn storage_default_is_empty_map() {
    let storage = TileStorage::default();
    assert_eq!((storage.size.x, storage.size.y), (0, 0));
    assert!(storage.iter().is_empty());
    assert_eq!(storage.map_size().x, 0);
}
