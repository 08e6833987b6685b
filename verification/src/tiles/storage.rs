use crate::map::TilemapSize;
use crate::tiles::{lemma_flat_index_in_range_and_injective, TilePos};
use bevy::prelude::Entity;
use vstd::prelude::*;

verus! {

/// An ECS entity handle of bevy, carried through the storage unopened.
#[verifier::external_type_specification]
#[verifier::external_body]
pub struct ExEntity(Entity);

/// Used to store tile entities for fast look up.
/// Tile entities are stored in a grid. The grid is always filled with None.
///
/// The slots are kept in row-major order; every method that reads or writes them asks that
/// there be exactly one slot per tile of the map (`wf`).
#[derive(Debug, Clone)]
pub struct TileStorage {
    tiles: Vec<Option<Entity>>,
    pub size: TilemapSize,
}

impl TileStorage {
    /// The storage holds one slot per tile of its map.
    pub open spec fn wf(&self) -> bool {
        &&& self.slots().len() == self.map_size().tile_count()
        &&& self.map_size().tile_count() <= u32::MAX
    }

    /// The size of the map whose tiles the storage holds (its `size` field).
    pub closed spec fn spec_map_size(&self) -> TilemapSize {
        self.size
    }

    /// The size of the map whose tiles the storage holds (its `size` field).
    #[verifier::when_used_as_spec(spec_map_size)]
    pub fn map_size(&self) -> (s: TilemapSize)
        ensures
            s == self.spec_map_size(),
    {
        self.size
    }

    /// The slots of the storage, in row-major order.
    pub closed spec fn slots(&self) -> Seq<Option<Entity>> {
        self.tiles@
    }

    /// The entity stored at a position of the map, if any.
    pub open spec fn entity_at(&self, tile_pos: TilePos) -> Option<Entity> {
        self.slots()[tile_pos.flat_index(self.map_size())]
    }

    /// Creates a new tile storage that is empty.
    pub fn empty(size: TilemapSize) -> (s: Self)
        requires
            size.x * size.y <= u32::MAX,
        ensures
            s.wf(),
            s.map_size() == size,
            forall|p: TilePos| p.in_bounds(size) ==> (#[trigger] s.entity_at(p)) is None,
    {
        let n = size.count();
        let mut tiles: Vec<Option<Entity>> = Vec::new();
        let mut i: usize = 0;
        while i < n
            invariant
                i <= n,
                n == size.tile_count(),
                tiles@.len() == i,
                forall|j: int| 0 <= j < i ==> (#[trigger] tiles@[j]) is None,
            decreases n - i,
        {
            tiles.push(None);
            i = i + 1;
        }
        let s = Self { tiles, size };
        assert forall|p: TilePos| p.in_bounds(size) implies (#[trigger] s.entity_at(p)) is None by {
            lemma_flat_index_in_range_and_injective(p, p, size);
        }
        s
    }

    /// Gets a tile entity for the given tile position, if an entity is associated with that
    /// tile position.
    ///
    /// The position must lie within the extents of the underlying tile map.
    pub fn get(&self, tile_pos: &TilePos) -> (e: Option<Entity>)
        requires
            self.wf(),
            tile_pos.in_bounds(self.map_size()),
        ensures
            e == self.entity_at(*tile_pos),
    {
        proof {
            lemma_flat_index_in_range_and_injective(*tile_pos, *tile_pos, self.map_size());
        }
        self.tiles[tile_pos.to_index(&self.map_size())]
    }

    /// Gets a tile entity for the given tile position, if:
    /// 1) the tile position lies within the underlying tile map's extents *and*
    /// 2) there is an entity associated with that tile position;
    ///
    /// otherwise it returns `None`.
    pub fn checked_get(&self, tile_pos: &TilePos) -> (e: Option<Entity>)
        requires
            self.wf(),
        ensures
            e == (if tile_pos.in_bounds(self.map_size()) {
                self.entity_at(*tile_pos)
            } else {
                None
            }),
    {
        if tile_pos.within_map_bounds(&self.map_size()) {
            self.get(tile_pos)
        } else {
            None
        }
    }

    /// Sets a tile entity for the given tile position.
    ///
    /// If there is an entity already at that position, it will be replaced.
    /// The position must lie within the extents of the underlying tile map.
    pub fn set(&mut self, tile_pos: &TilePos, tile_entity: Entity)
        requires
            old(self).wf(),
            tile_pos.in_bounds(old(self).map_size()),
        ensures
            final(self).wf(),
            final(self).map_size() == old(self).map_size(),
            final(self).slots() == old(self).slots().update(
                tile_pos.flat_index(old(self).map_size()),
                Some(tile_entity),
            ),
    {
        proof {
            lemma_flat_index_in_range_and_injective(*tile_pos, *tile_pos, self.map_size());
        }
        let i = tile_pos.to_index(&self.map_size());
        self.tiles.set(i, Some(tile_entity));
    }

    /// Sets a tile entity for the given tile position, if the tile position lies within the
    /// underlying tile map's extents; otherwise nothing changes.
    pub fn checked_set(&mut self, tile_pos: &TilePos, tile_entity: Entity)
        requires
            old(self).wf(),
        ensures
            final(self).wf(),
            final(self).map_size() == old(self).map_size(),
            final(self).slots() == (if tile_pos.in_bounds(old(self).map_size()) {
                old(self).slots().update(tile_pos.flat_index(old(self).map_size()), Some(tile_entity))
            } else {
                old(self).slots()
            }),
    {
        if tile_pos.within_map_bounds(&self.map_size()) {
            self.set(tile_pos, tile_entity);
        }
    }

    /// Removes any stored `Entity` at the given tile position, leaving `None` in its place and
    /// returning the `Entity`.
    ///
    /// The position must lie within the extents of the underlying tile map.
    pub fn remove(&mut self, tile_pos: &TilePos) -> (e: Option<Entity>)
        requires
            old(self).wf(),
            tile_pos.in_bounds(old(self).map_size()),
        ensures
            e == old(self).entity_at(*tile_pos),
            final(self).wf(),
            final(self).map_size() == old(self).map_size(),
            final(self).slots() == old(self).slots().update(
                tile_pos.flat_index(old(self).map_size()),
                None,
            ),
    {
        proof {
            lemma_flat_index_in_range_and_injective(*tile_pos, *tile_pos, self.map_size());
        }
        let i = tile_pos.to_index(&self.map_size());
        let e = self.tiles[i];
        self.tiles.set(i, None);
        e
    }

    /// Removes any stored `Entity` at the given tile position, if the position lies within the
    /// extents of the underlying map; otherwise returns `None` and changes nothing.
    pub fn checked_remove(&mut self, tile_pos: &TilePos) -> (e: Option<Entity>)
        requires
            old(self).wf(),
        ensures
            final(self).wf(),
            final(self).map_size() == old(self).map_size(),
            tile_pos.in_bounds(old(self).map_size()) ==> {
                &&& e == old(self).entity_at(*tile_pos)
                &&& final(self).slots() == old(self).slots().update(
                    tile_pos.flat_index(old(self).map_size()),
                    None,
                )
            },
            !tile_pos.in_bounds(old(self).map_size()) ==> e is None && final(self).slots() == old(
                self,
            ).slots(),
    {
        if tile_pos.within_map_bounds(&self.map_size()) {
            self.remove(tile_pos)
        } else {
            None
        }
    }

    /// Mutable access to all slots of the storage, in row-major order. A slice cannot change
    /// its length, so the storage keeps one slot per tile; the contract leaves that unstated, as
    /// Verus holds no fact relating the final length of a mutable slice to its first.
    pub fn iter_mut(&mut self) -> (slots: &mut [Option<Entity>])
        ensures
            slots@ == old(self).slots(),
            final(self).slots() == final(slots)@,
            final(self).map_size() == old(self).map_size(),
    {
        self.tiles.as_mut_slice()
    }

    /// All slots of the storage, in row-major order.
    pub fn iter(&self) -> (v: Vec<Option<Entity>>)
        ensures
            v@ == self.slots(),
    {
        let mut v: Vec<Option<Entity>> = Vec::new();
        let mut i: usize = 0;
        while i < self.tiles.len()
            invariant
                i <= self.tiles@.len(),
                v@ == self.tiles@.subrange(0, i as int),
            decreases self.tiles@.len() - i,
        {
            v.push(self.tiles[i]);
            i = i + 1;
        }
        v
    }

    /// Removes all stored `Entity`s, leaving `None` in their place and returning them in
    /// row-major order.
    pub fn drain(&mut self) -> (v: Vec<Entity>)
        ensures
            old(self).wf() ==> final(self).wf(),
            final(self).map_size() == old(self).map_size(),
            final(self).slots().len() == old(self).slots().len(),
            forall|i: int| 0 <= i < final(self).slots().len() ==> (#[trigger] final(self).slots()[i]) is None,
            v@ == drained(old(self).slots()),
    {
        let mut v: Vec<Entity> = Vec::new();
        let mut i: usize = 0;
        let ghost before = self.tiles@;
        while i < self.tiles.len()
            invariant
                i <= self.tiles@.len(),
                self.tiles@.len() == before.len(),
                self.map_size() == old(self).map_size(),
                forall|j: int| 0 <= j < i ==> (#[trigger] self.tiles@[j]) is None,
                forall|j: int| i <= j < before.len() ==> (#[trigger] self.tiles@[j]) == before[j],
                v@ == drained(before.subrange(0, i as int)),
            decreases self.tiles@.len() - i,
        {
            let slot = self.tiles[i];
            proof {
                assert(before.subrange(0, i + 1).drop_last() == before.subrange(0, i as int));
            }
            match slot {
                Some(e) => v.push(e),
                None => {},
            }
            self.tiles.set(i, None);
            i = i + 1;
        }
        proof {
            assert(before.subrange(0, before.len() as int) == before);
        }
        v
    }
}

impl Default for TileStorage {
    /// The storage of a map without tiles.
    fn default() -> (s: Self)
        ensures
            s.wf(),
            s.map_size() == (TilemapSize { x: 0, y: 0 }),
            s.slots().len() == 0,
    {
        TileStorage { tiles: Vec::new(), size: TilemapSize { x: 0, y: 0 } }
    }
}

/// The entities held by a sequence of slots, in order.
pub open spec fn drained(slots: Seq<Option<Entity>>) -> Seq<Entity>
    decreases slots.len(),
{
    if slots.len() == 0 {
        Seq::empty()
    } else {
        let rest = drained(slots.drop_last());
        match slots.last() {
            Some(e) => rest.push(e),
            None => rest,
        }
    }
}

/// Storing an entity at a position and then reading that position gives the entity back, and
/// reading any other position gives what it held before.
pub proof fn lemma_set_then_get(s: TileStorage, t: TileStorage, p: TilePos, q: TilePos, e: Entity)
    requires
        s.wf(),
        p.in_bounds(s.map_size()),
        q.in_bounds(s.map_size()),
        t.map_size() == s.map_size(),
        t.slots() == s.slots().update(p.flat_index(s.map_size()), Some(e)),
    ensures
        t.wf(),
        t.entity_at(q) == (if q == p {
            Some(e)
        } else {
            s.entity_at(q)
        }),
{
    lemma_flat_index_in_range_and_injective(p, q, s.map_size());
    lemma_flat_index_in_range_and_injective(q, q, s.map_size());
}

/// Removing the entity at a position leaves that position empty and every other position as it
/// was.
pub proof fn lemma_remove_then_get(s: TileStorage, t: TileStorage, p: TilePos, q: TilePos)
    requires
        s.wf(),
        p.in_bounds(s.map_size()),
        q.in_bounds(s.map_size()),
        t.map_size() == s.map_size(),
        t.slots() == s.slots().update(p.flat_index(s.map_size()), None),
    ensures
        t.wf(),
        t.entity_at(q) == (if q == p {
            None
        } else {
            s.entity_at(q)
        }),
{
    lemma_flat_index_in_range_and_injective(p, q, s.map_size());
    lemma_flat_index_in_range_and_injective(q, q, s.map_size());
}

} // verus!
