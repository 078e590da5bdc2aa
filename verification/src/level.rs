//! The store of loaded chunks and the queries other parts of the engine
//! make of it.

use crate::block::{Block, BlockFaces};
use crate::chunk::Chunk;
use crate::position::{BlockPos, ChunkPos, LocalPos};
use bevy::ecs::entity::Entity;
use bevy::utils::HashMap;
use vstd::prelude::*;

verus! {

/// `bevy::ecs::entity::Entity`, the identifier of an entity. The store
/// carries the entity that renders each chunk and never looks inside one.
#[verifier::external_type_specification]
#[verifier::external_body]
pub struct ExEntity(Entity);

/// A chunk in the store with the entity that renders it.
#[derive(Debug)]
pub struct LoadedChunk {
    pub chunk: Chunk,
    pub entity: Entity,
}

/// The hash map from chunk position to loaded chunk: a
/// `bevy::utils::HashMap`, which is hashbrown's `HashMap`. Verus does not
/// look inside it; all that is known of it is what the functions below
/// say of [`table_entries`]. A position is stored as the tuple of its
/// three coordinates, which the map hashes and compares as the standard
/// library does tuples of integers.
#[verifier::external_body]
#[derive(Debug)]
pub struct ChunkTable {
    map: HashMap<(i32, i32, i32), LoadedChunk>,
}

/// What a [`ChunkTable`] holds: the loaded chunk stored under each position.
pub uninterp spec fn table_entries(table: ChunkTable) -> Map<ChunkPos, LoadedChunk>;

/// The store that holds no chunk.
pub open spec fn empty_store() -> Map<ChunkPos, LoadedChunk> {
    Map::empty()
}

/// `HashMap::new`: a map that holds nothing.
#[verifier::external_body]
fn table_new() -> (table: ChunkTable)
    ensures
        table_entries(table) == empty_store(),
{
    ChunkTable { map: HashMap::new() }
}

/// `HashMap::get`: a reference to the entry stored under `pos`, or nothing
/// if the map has no entry for `pos`.
#[verifier::external_body]
fn table_get(table: &ChunkTable, pos: ChunkPos) -> (found: Option<&LoadedChunk>)
    ensures
        found is Some <==> table_entries(*table).contains_key(pos),
        found is Some ==> *found->0 == table_entries(*table)[pos],
{
    table.map.get(&(pos.x, pos.y, pos.z))
}

/// `HashMap::get_mut`: a mutable reference to the entry stored under
/// `pos`, or nothing if the map has no entry for `pos`. What the caller
/// leaves behind the reference is what the map holds under `pos`
/// afterwards; no other entry changes, and none comes or goes.
#[verifier::external_body]
fn table_get_mut(table: &mut ChunkTable, pos: ChunkPos) -> (found: Option<&mut LoadedChunk>)
    ensures
        found is Some <==> table_entries(*old(table)).contains_key(pos),
        found is Some ==> *found->0 == table_entries(*old(table))[pos],
        found is Some ==> table_entries(*final(table)) == table_entries(*old(table)).insert(
            pos,
            *final(found->0),
        ),
        found is None ==> table_entries(*final(table)) == table_entries(*old(table)),
{
    table.map.get_mut(&(pos.x, pos.y, pos.z))
}

/// `HashMap::insert`: stores `loaded` under `pos`, in place of what was
/// stored there before, which it hands back; other entries stay.
#[verifier::external_body]
fn table_insert(table: &mut ChunkTable, pos: ChunkPos, loaded: LoadedChunk) -> (previous: Option<
    LoadedChunk,
>)
    ensures
        table_entries(*final(table)) == table_entries(*old(table)).insert(pos, loaded),
        previous is Some <==> table_entries(*old(table)).contains_key(pos),
        previous is Some ==> previous->0 == table_entries(*old(table))[pos],
{
    table.map.insert((pos.x, pos.y, pos.z), loaded)
}

/// `HashMap::remove`: takes out and hands back what is stored under `pos`,
/// if anything; other entries stay.
#[verifier::external_body]
fn table_remove(table: &mut ChunkTable, pos: ChunkPos) -> (removed: Option<LoadedChunk>)
    ensures
        table_entries(*final(table)) == table_entries(*old(table)).remove(pos),
        removed is Some <==> table_entries(*old(table)).contains_key(pos),
        removed is Some ==> removed->0 == table_entries(*old(table))[pos],
{
    table.map.remove(&(pos.x, pos.y, pos.z))
}

/// `HashMap::keys`, each turned back into a position and collected into
/// a vector: every position the map holds an entry for, each once. The order is the one in which the map happens to
/// walk its entries, of which nothing is said.
#[verifier::external_body]
fn table_keys(table: &ChunkTable) -> (keys: Vec<ChunkPos>)
    ensures
        keys@.no_duplicates(),
        forall|pos: ChunkPos| keys@.contains(pos) <==> table_entries(*table).contains_key(pos),
{
    table.map.keys().map(|key| ChunkPos::new(key.0, key.1, key.2)).collect()
}

/// The largest distance, in chunks, from the viewpoint's chunk at which a
/// chunk stays loaded.
pub const CHUNK_UNLOAD_DISTANCE: i32 = 10;

/// The chunk at `(x, y, z)`, if these are chunk coordinates.
pub open spec fn chunk_at(x: int, y: int, z: int) -> Option<ChunkPos> {
    if i32::MIN <= x <= i32::MAX && i32::MIN <= y <= i32::MAX && i32::MIN <= z <= i32::MAX {
        Some(ChunkPos { x: x as i32, y: y as i32, z: z as i32 })
    } else {
        None
    }
}

/// The `i`-th of the 27 cells of the cube around `pos`, x slowest and z
/// fastest, if its coordinates are chunk coordinates; cell 13 is `pos`.
pub open spec fn cube_cell(pos: ChunkPos, i: int) -> Option<ChunkPos> {
    chunk_at(pos.x + i / 9 - 1, pos.y + (i / 3) % 3 - 1, pos.z + i % 3 - 1)
}

/// The `i`-th of the six chunks that share a face with `pos`, in the order
/// x + 1, x - 1, y + 1, y - 1, z + 1, z - 1.
pub open spec fn face_cell(pos: ChunkPos, i: int) -> Option<ChunkPos> {
    let step: int = if i % 2 == 0 {
        1
    } else {
        -1
    };
    if i / 2 == 0 {
        chunk_at(pos.x + step, pos.y as int, pos.z as int)
    } else if i / 2 == 1 {
        chunk_at(pos.x as int, pos.y + step, pos.z as int)
    } else {
        chunk_at(pos.x as int, pos.y as int, pos.z + step)
    }
}

/// Whether a cell lies on the boundary of its chunk: some coordinate is 0
/// or 15.
pub open spec fn on_boundary(pos: LocalPos) -> bool {
    pos.x == 0 || pos.x == 15 || pos.y == 0 || pos.y == 15 || pos.z == 0 || pos.z == 15
}

/// Squared distance between two chunks, in chunks.
pub open spec fn chunk_distance_sq(a: ChunkPos, b: ChunkPos) -> int {
    (a.x - b.x) * (a.x - b.x) + (a.y - b.y) * (a.y - b.y) + (a.z - b.z) * (a.z - b.z)
}

/// Whether the chunk at `pos` is too far from the chunk at `center` to
/// stay loaded.
pub open spec fn is_far(pos: ChunkPos, center: ChunkPos) -> bool {
    chunk_distance_sq(pos, center) > CHUNK_UNLOAD_DISTANCE * CHUNK_UNLOAD_DISTANCE
}

/// Whether `pos` stands among the first `n` of `keys`.
spec fn among(keys: Seq<ChunkPos>, n: int, pos: ChunkPos) -> bool {
    exists|j: int| 0 <= j < n && keys[j] == pos
}

fn checked_chunk(x: i64, y: i64, z: i64) -> (cell: Option<ChunkPos>)
    ensures
        cell == chunk_at(x as int, y as int, z as int),
{
    if -0x8000_0000 <= x && x <= 0x7FFF_FFFF && -0x8000_0000 <= y && y <= 0x7FFF_FFFF
        && -0x8000_0000 <= z && z <= 0x7FFF_FFFF {
        Some(ChunkPos::new(x as i32, y as i32, z as i32))
    } else {
        None
    }
}

/// Tells whether the chunk at `pos` is too far from the chunk at `center`
/// to stay loaded.
pub fn too_far(pos: ChunkPos, center: ChunkPos) -> (far: bool)
    ensures
        far == is_far(pos, center),
{
    let dx: i64 = pos.x as i64 - center.x as i64;
    let dy: i64 = pos.y as i64 - center.y as i64;
    let dz: i64 = pos.z as i64 - center.z as i64;
    let limit: i64 = CHUNK_UNLOAD_DISTANCE as i64;
    if dx > limit || dx < -limit || dy > limit || dy < -limit || dz > limit || dz < -limit {
        assert(chunk_distance_sq(pos, center) > 100) by (nonlinear_arith)
            requires
                dx == pos.x - center.x,
                dy == pos.y - center.y,
                dz == pos.z - center.z,
                dx > 10 || dx < -10 || dy > 10 || dy < -10 || dz > 10 || dz < -10,
        ;
        true
    } else {
        assert(0 <= dx * dx <= 100 && 0 <= dy * dy <= 100 && 0 <= dz * dz <= 100) by (nonlinear_arith)
            requires
                -10 <= dx <= 10,
                -10 <= dy <= 10,
                -10 <= dz <= 10,
        ;
        dx * dx + dy * dy + dz * dz > limit * limit
    }
}

/// The loaded part of the world: each loaded chunk, with the entity that
/// renders it, under its chunk position.
#[derive(Debug)]
pub struct Level {
    chunks: ChunkTable,
}

impl View for Level {
    type V = Map<ChunkPos, LoadedChunk>;

    closed spec fn view(&self) -> Map<ChunkPos, LoadedChunk> {
        table_entries(self.chunks)
    }
}

impl Default for Level {
    fn default() -> (level: Self)
        ensures
            level@ == empty_store(),
    {
        Self::new()
    }
}

impl Level {
    /// Whether a chunk is loaded at `pos`.
    pub open spec fn is_loaded(self, pos: ChunkPos) -> bool {
        self@.contains_key(pos)
    }

    /// The block at `pos`: what the chunk that holds `pos` stores there,
    /// and air where that chunk is not loaded.
    #[verifier::opaque]
    pub open spec fn block_at(self, pos: BlockPos) -> Block {
        if self.is_loaded(pos.spec_chunk_pos()) {
            self@[pos.spec_chunk_pos()].chunk.block_at(pos.spec_local_pos())
        } else {
            Block::Air
        }
    }

    /// Whether the block at `pos` is solid; nothing is where no chunk is
    /// loaded.
    pub open spec fn solid_at(self, pos: BlockPos) -> bool {
        self.block_at(pos).spec_is_solid()
    }

    /// The faces of the block at `pos` that can be seen: those whose
    /// neighbouring block is not solid.
    pub open spec fn spec_visible_faces(self, pos: BlockPos) -> BlockFaces {
        BlockFaces {
            left: !self.solid_at(pos.offset(-1, 0, 0)),
            right: !self.solid_at(pos.offset(1, 0, 0)),
            front: !self.solid_at(pos.offset(0, 0, 1)),
            back: !self.solid_at(pos.offset(0, 0, -1)),
            top: !self.solid_at(pos.offset(0, 1, 0)),
            bottom: !self.solid_at(pos.offset(0, -1, 0)),
        }
    }

    /// The entities of the loaded chunks among the first `n` of the 27
    /// cells of the cube around `pos`, the cell of `pos` itself left out.
    pub open spec fn neighbors_upto(self, pos: ChunkPos, n: nat) -> Seq<Entity>
        decreases n,
    {
        if n == 0 {
            seq![]
        } else {
            let before = self.neighbors_upto(pos, (n - 1) as nat);
            match cube_cell(pos, n - 1) {
                Some(cell) if cell != pos && self.is_loaded(cell) => before.push(self@[cell].entity),
                _ => before,
            }
        }
    }

    /// The entities of the loaded chunks among the 26 chunks around `pos`,
    /// in the order of [`cube_cell`].
    pub open spec fn spec_loaded_neighbors(self, pos: ChunkPos) -> Seq<Entity> {
        self.neighbors_upto(pos, 27)
    }

    /// The entities of the loaded chunks among the first `n` of the six
    /// chunks that share a face with `pos`.
    pub open spec fn face_neighbors_upto(self, pos: ChunkPos, n: nat) -> Seq<Entity>
        decreases n,
    {
        if n == 0 {
            seq![]
        } else {
            let before = self.face_neighbors_upto(pos, (n - 1) as nat);
            match face_cell(pos, n - 1) {
                Some(cell) if self.is_loaded(cell) => before.push(self@[cell].entity),
                _ => before,
            }
        }
    }

    /// The entities whose meshes an edit at `local_pos` of the chunk at
    /// `chunk_pos` makes stale besides the chunk's own: those of the loaded
    /// chunks that share a face with it, if the edited cell lies on the
    /// chunk's boundary, and none otherwise.
    pub open spec fn spec_neighbors_to_update(self, chunk_pos: ChunkPos, local_pos: LocalPos) -> Seq<
        Entity,
    > {
        if on_boundary(local_pos) {
            self.face_neighbors_upto(chunk_pos, 6)
        } else {
            seq![]
        }
    }

    /// A store with no chunk loaded.
    pub fn new() -> (level: Self)
        ensures
            level@ == empty_store(),
    {
        Self { chunks: table_new() }
    }

    /// The chunk loaded at `pos`, if any.
    pub fn chunk(&self, pos: ChunkPos) -> (chunk: Option<&Chunk>)
        ensures
            chunk is Some <==> self.is_loaded(pos),
            chunk is Some ==> *chunk->0 == self@[pos].chunk,
    {
        match table_get(&self.chunks, pos) {
            Some(loaded) => Some(&loaded.chunk),
            None => None,
        }
    }

    /// The chunk loaded at `pos`, open to change, if any. Whatever the
    /// caller makes of the chunk is what the store holds afterwards; the
    /// chunk's entity and all other chunks stay as they are.
    pub fn chunk_mut(&mut self, pos: ChunkPos) -> (chunk: Option<&mut Chunk>)
        ensures
            chunk is Some <==> old(self).is_loaded(pos),
            chunk is Some ==> *chunk->0 == old(self)@[pos].chunk,
            chunk is Some ==> final(self)@ == old(self)@.insert(
                pos,
                LoadedChunk { chunk: *final(chunk->0), entity: old(self)@[pos].entity },
            ),
            chunk is None ==> final(self)@ == old(self)@,
    {
        match table_get_mut(&mut self.chunks, pos) {
            Some(loaded) => Some(&mut loaded.chunk),
            None => None,
        }
    }

    /// The entity that renders the chunk loaded at `pos`, if any.
    pub fn entity(&self, pos: ChunkPos) -> (entity: Option<Entity>)
        ensures
            entity is Some <==> self.is_loaded(pos),
            entity is Some ==> entity->0 == self@[pos].entity,
    {
        match table_get(&self.chunks, pos) {
            Some(loaded) => Some(loaded.entity),
            None => None,
        }
    }

    /// The block at `pos`, air where no chunk is loaded.
    pub fn block(&self, pos: BlockPos) -> (block: Block)
        ensures
            block == self.block_at(pos),
    {
        reveal(Level::block_at);
        let chunk_pos = pos.chunk_pos();
        let local_pos = pos.local_pos();
        match self.chunk(chunk_pos) {
            Some(chunk) => chunk.get(local_pos),
            None => Block::Air,
        }
    }

    /// Puts `chunk`, rendered by `entity`, into the store at `pos`, and
    /// hands back the entity of the chunk that was loaded there before.
    pub fn insert(&mut self, pos: ChunkPos, chunk: Chunk, entity: Entity) -> (previous: Option<
        Entity,
    >)
        ensures
            final(self)@ == old(self)@.insert(pos, LoadedChunk { chunk, entity }),
            previous is Some <==> old(self).is_loaded(pos),
            previous is Some ==> previous->0 == old(self)@[pos].entity,
    {
        match table_insert(&mut self.chunks, pos, LoadedChunk { chunk, entity }) {
            Some(loaded) => Some(loaded.entity),
            None => None,
        }
    }

    /// Takes the chunk at `pos` out of the store and hands it back.
    pub fn remove(&mut self, pos: ChunkPos) -> (removed: Option<LoadedChunk>)
        ensures
            final(self)@ == old(self)@.remove(pos),
            removed is Some <==> old(self).is_loaded(pos),
            removed is Some ==> removed->0 == old(self)@[pos],
    {
        table_remove(&mut self.chunks, pos)
    }

    /// The entities of the loaded chunks among the 26 chunks around `pos`:
    /// those whose meshes go stale when the chunk at `pos` changes as a
    /// whole.
    pub fn loaded_neighbors(&self, pos: ChunkPos) -> (entities: Vec<Entity>)
        ensures
            entities@ == self.spec_loaded_neighbors(pos),
    {
        let mut entities: Vec<Entity> = Vec::new();
        let mut i: i64 = 0;
        while i < 27
            invariant
                0 <= i <= 27,
                entities@ == self.neighbors_upto(pos, i as nat),
            decreases 27 - i,
        {
            let cell = checked_chunk(
                pos.x as i64 + i / 9 - 1,
                pos.y as i64 + (i / 3) % 3 - 1,
                pos.z as i64 + i % 3 - 1,
            );
            match cell {
                Some(cell) => {
                    if cell != pos {
                        match self.entity(cell) {
                            Some(entity) => {
                                entities.push(entity);
                            },
                            None => {},
                        }
                    }
                },
                None => {},
            }
            i += 1;
        }
        entities
    }

    /// The entities, besides the chunk's own, whose meshes an edit at
    /// `local_pos` of the chunk at `chunk_pos` makes stale.
    pub fn neighbors_to_update(&self, chunk_pos: ChunkPos, local_pos: LocalPos) -> (entities: Vec<
        Entity,
    >)
        ensures
            entities@ == self.spec_neighbors_to_update(chunk_pos, local_pos),
    {
        let mut entities: Vec<Entity> = Vec::new();
        if !(local_pos.x == 0 || local_pos.x == 15 || local_pos.y == 0 || local_pos.y == 15
            || local_pos.z == 0 || local_pos.z == 15) {
            return entities;
        }
        let mut i: i64 = 0;
        while i < 6
            invariant
                0 <= i <= 6,
                entities@ == self.face_neighbors_upto(chunk_pos, i as nat),
            decreases 6 - i,
        {
            let step: i64 = if i % 2 == 0 {
                1
            } else {
                -1
            };
            let x = chunk_pos.x as i64;
            let y = chunk_pos.y as i64;
            let z = chunk_pos.z as i64;
            let cell = if i / 2 == 0 {
                checked_chunk(x + step, y, z)
            } else if i / 2 == 1 {
                checked_chunk(x, y + step, z)
            } else {
                checked_chunk(x, y, z + step)
            };
            match cell {
                Some(cell) => {
                    match self.entity(cell) {
                        Some(entity) => {
                            entities.push(entity);
                        },
                        None => {},
                    }
                },
                None => {},
            }
            i += 1;
        }
        entities
    }

    /// Sets the block at `pos` to `block` if the chunk that holds `pos` is
    /// loaded, and hands back that chunk's entity: its mesh and its stored
    /// copy are stale now. Changes nothing where the chunk is not loaded.
    pub fn set_block(&mut self, pos: BlockPos, block: Block) -> (entity: Option<Entity>)
        ensures
            entity is Some <==> old(self).is_loaded(pos.spec_chunk_pos()),
            entity is Some ==> entity->0 == old(self)@[pos.spec_chunk_pos()].entity,
            final(self)@.dom() == old(self)@.dom(),
            forall|c: ChunkPos|
                old(self).is_loaded(c) ==> (#[trigger] final(self)@[c]).entity == old(
                    self,
                )@[c].entity,
            forall|c: ChunkPos|
                old(self).is_loaded(c) ==> (#[trigger] final(self)@[c]).chunk@ == if c
                    == pos.spec_chunk_pos() {
                    old(self)@[c].chunk@.update(pos.spec_local_pos().spec_index(), block)
                } else {
                    old(self)@[c].chunk@
                },
            forall|q: BlockPos|
                #[trigger] final(self).block_at(q) == if q == pos && old(self).is_loaded(
                    pos.spec_chunk_pos(),
                ) {
                    block
                } else {
                    old(self).block_at(q)
                },
    {
        reveal(Level::block_at);
        let chunk_pos = pos.chunk_pos();
        let local_pos = pos.local_pos();
        match self.chunk_mut(chunk_pos) {
            Some(chunk) => {
                chunk.set(local_pos, block);
            },
            None => {},
        }
        proof {
            assert forall|q: BlockPos|
                #[trigger] self.block_at(q) == if q == pos && old(self).is_loaded(chunk_pos) {
                    block
                } else {
                    old(self).block_at(q)
                } by {
                crate::position::lemma_block_round_trip(q);
                crate::position::lemma_block_round_trip(pos);
                if q.spec_chunk_pos() == chunk_pos && q.spec_local_pos().spec_index()
                    == local_pos.spec_index() {
                    crate::position::lemma_index_injective(q.spec_local_pos(), local_pos);
                }
            }
        }
        self.entity(chunk_pos)
    }

    /// Takes out of the store every chunk that is too far from the chunk at
    /// `center`, and hands them back with their positions, in no
    /// particular order.
    pub fn unload_distant(&mut self, center: ChunkPos) -> (unloaded: Vec<(ChunkPos, LoadedChunk)>)
        ensures
            forall|pos: ChunkPos|
                #[trigger] final(self)@.contains_key(pos) <==> old(self)@.contains_key(pos)
                    && !is_far(pos, center),
            forall|pos: ChunkPos|
                #[trigger] final(self)@.contains_key(pos) ==> final(self)@[pos] == old(
                    self,
                )@[pos],
            forall|k: int|
                0 <= k < unloaded@.len() ==> {
                    &&& is_far((#[trigger] unloaded@[k]).0, center)
                    &&& old(self)@.contains_key(unloaded@[k].0)
                    &&& unloaded@[k].1 == old(self)@[unloaded@[k].0]
                },
            forall|k: int, l: int|
                0 <= k < l < unloaded@.len() ==> unloaded@[k].0 != unloaded@[l].0,
            forall|pos: ChunkPos|
                old(self)@.contains_key(pos) && is_far(pos, center) ==> exists|k: int|
                    0 <= k < unloaded@.len() && (#[trigger] unloaded@[k]).0 == pos,
    {
        let keys = table_keys(&self.chunks);
        let mut unloaded: Vec<(ChunkPos, LoadedChunk)> = Vec::new();
        let mut i: usize = 0;
        while i < keys.len()
            invariant
                i <= keys.len(),
                keys@.no_duplicates(),
                forall|pos: ChunkPos| keys@.contains(pos) <==> old(self)@.contains_key(pos),
                forall|pos: ChunkPos|
                    #[trigger] self@.contains_key(pos) <==> old(self)@.contains_key(pos) && !(
                    is_far(pos, center) && among(keys@, i as int, pos)),
                forall|pos: ChunkPos|
                    #[trigger] self@.contains_key(pos) ==> self@[pos] == old(self)@[pos],
                forall|k: int|
                    0 <= k < unloaded@.len() ==> {
                        &&& is_far((#[trigger] unloaded@[k]).0, center)
                        &&& among(keys@, i as int, unloaded@[k].0)
                        &&& old(self)@.contains_key(unloaded@[k].0)
                        &&& unloaded@[k].1 == old(self)@[unloaded@[k].0]
                    },
                forall|k: int, l: int|
                    0 <= k < l < unloaded@.len() ==> unloaded@[k].0 != unloaded@[l].0,
                forall|j: int|
                    0 <= j < i && is_far(#[trigger] keys@[j], center) ==> exists|k: int|
                        0 <= k < unloaded@.len() && (#[trigger] unloaded@[k]).0 == keys@[j],
            decreases keys.len() - i,
        {
            let pos = keys[i];
            let ghost before = unloaded@;
            let ghost held = self@;
            proof {
                assert(keys@.contains(pos));
                assert(!among(keys@, i as int, pos)) by {
                    if among(keys@, i as int, pos) {
                        let j = choose|j: int| 0 <= j < i && keys@[j] == pos;
                        assert(keys@[j] == keys@[i as int]);
                    }
                }
                assert forall|p: ChunkPos|
                    #[trigger] among(keys@, i + 1, p) <==> (among(keys@, i as int, p) || p
                        == pos) by {
                    if among(keys@, i as int, p) {
                        let j = choose|j: int| 0 <= j < i && keys@[j] == p;
                        assert(0 <= j < i + 1 && keys@[j] == p);
                    }
                    if p == pos {
                        assert(keys@[i as int] == p);
                    }
                    if among(keys@, i + 1, p) {
                        let j = choose|j: int| 0 <= j < i + 1 && keys@[j] == p;
                        if j < i {
                            assert(among(keys@, i as int, p));
                        }
                    }
                }
            }
            if too_far(pos, center) {
                match table_remove(&mut self.chunks, pos) {
                    Some(loaded) => {
                        unloaded.push((pos, loaded));
                        assert(forall|k: int| 0 <= k < before.len() ==> unloaded@[k] == before[k]);
                        assert(unloaded@[before.len() as int].0 == pos);
                    },
                    None => {},
                }
            }
            assert forall|p: ChunkPos|
                #[trigger] self@.contains_key(p) <==> old(self)@.contains_key(p) && !(is_far(
                    p,
                    center,
                ) && among(keys@, i + 1, p)) by {
                assert(held.contains_key(p) <==> old(self)@.contains_key(p) && !(is_far(p, center)
                    && among(keys@, i as int, p)));
                assert(among(keys@, i + 1, p) <==> (among(keys@, i as int, p) || p == pos));
            }
            assert forall|j: int| 0 <= j < i + 1 && is_far(#[trigger] keys@[j], center) implies exists|
                k: int,
            |
                0 <= k < unloaded@.len() && (#[trigger] unloaded@[k]).0 == keys@[j] by {
                if j < i {
                    let k = choose|k: int| 0 <= k < before.len() && (#[trigger] before[k]).0 == keys@[j];
                    assert(unloaded@[k].0 == keys@[j]);
                } else {
                    assert(unloaded@[before.len() as int].0 == keys@[j]);
                }
            }
            i += 1;
        }
        proof {
            assert forall|pos: ChunkPos|
                #[trigger] self@.contains_key(pos) <==> old(self)@.contains_key(pos) && !is_far(
                    pos,
                    center,
                ) by {
                if old(self)@.contains_key(pos) {
                    assert(keys@.contains(pos));
                    let j = choose|j: int| 0 <= j < keys@.len() && keys@[j] == pos;
                    assert(among(keys@, keys@.len() as int, pos));
                }
            }
            assert forall|pos: ChunkPos|
                old(self)@.contains_key(pos) && is_far(pos, center) implies exists|k: int|
                0 <= k < unloaded@.len() && (#[trigger] unloaded@[k]).0 == pos by {
                assert(keys@.contains(pos));
                let j = choose|j: int| 0 <= j < keys@.len() && keys@[j] == pos;
                assert(is_far(keys@[j], center));
            }
        }
        unloaded
    }

    /// The faces of the block at `pos` that can be seen.
    pub fn visible_faces(&self, pos: BlockPos) -> (faces: BlockFaces)
        requires
            pos.has_neighbors(),
        ensures
            faces == self.spec_visible_faces(pos),
    {
        BlockFaces {
            left: !self.block(pos.left()).is_solid(),
            right: !self.block(pos.right()).is_solid(),
            front: !self.block(pos.front()).is_solid(),
            back: !self.block(pos.back()).is_solid(),
            top: !self.block(pos.top()).is_solid(),
            bottom: !self.block(pos.bottom()).is_solid(),
        }
    }
}

} // verus!
