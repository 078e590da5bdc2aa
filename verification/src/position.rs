//! Block, chunk and chunk-local coordinates and the conversions between them.
//!
//! A block position splits into the chunk that holds it and the position
//! inside that chunk by floor division and non-negative remainder, so
//! negative world coordinates land in the chunk below zero.

use std::ops::{Add, Mul};
use vstd::prelude::*;
use vstd::std_specs::ops::{AddSpecImpl, MulSpecImpl};

verus! {

/// Edge length of a chunk in blocks.
pub const CHUNK_SIZE: usize = 16;

/// Number of blocks in a chunk.
pub const CHUNK_INDICES: usize = CHUNK_SIZE * CHUNK_SIZE * CHUNK_SIZE;

/// Smallest chunk coordinate whose blocks fit the block coordinate range.
pub const MIN_CHUNK_COORD: i32 = -0x800_0000;

/// Largest chunk coordinate whose blocks fit the block coordinate range.
pub const MAX_CHUNK_COORD: i32 = 0x7FF_FFFF;

/// Position of one block in the world.
#[derive(Debug, Clone, Copy, PartialEq, Eq, Hash, Structural)]
pub struct BlockPos {
    pub x: i32,
    pub y: i32,
    pub z: i32,
}

/// Position of a block inside its chunk; valid when every component is
/// below [`CHUNK_SIZE`].
#[derive(Debug, Clone, Copy, PartialEq, Eq, Hash, Structural)]
pub struct LocalPos {
    pub x: usize,
    pub y: usize,
    pub z: usize,
}

/// Position of a chunk, in units of chunks.
#[derive(Debug, Clone, Copy, PartialEq, Eq, Hash, Structural)]
pub struct ChunkPos {
    pub x: i32,
    pub y: i32,
    pub z: i32,
}

/// Floor of `v / 16`.
pub open spec fn chunk_coord(v: int) -> int {
    v / 16
}

/// Remainder of `v` in `[0, 16)`.
pub open spec fn local_coord(v: int) -> int {
    v % 16
}

/// Whether `v` and `v + d` are both block coordinates.
pub open spec fn coord_fits(v: int, d: int) -> bool {
    i32::MIN <= v + d <= i32::MAX
}

fn floor_div_16(v: i32) -> (q: i32)
    ensures
        q == chunk_coord(v as int),
        MIN_CHUNK_COORD <= q <= MAX_CHUNK_COORD,
{
    v.checked_div_euclid(16).unwrap()
}

fn floor_rem_16(v: i32) -> (r: usize)
    ensures
        r == local_coord(v as int),
        r < CHUNK_SIZE,
{
    let r: i32 = v.checked_rem_euclid(16).unwrap();
    r as usize
}

impl BlockPos {
    pub fn new(x: i32, y: i32, z: i32) -> (p: Self)
        ensures
            p == (BlockPos { x, y, z }),
    {
        Self { x, y, z }
    }

    /// The chunk that holds this block.
    pub open spec fn spec_chunk_pos(self) -> ChunkPos {
        ChunkPos {
            x: chunk_coord(self.x as int) as i32,
            y: chunk_coord(self.y as int) as i32,
            z: chunk_coord(self.z as int) as i32,
        }
    }

    /// Where this block sits inside its chunk.
    pub open spec fn spec_local_pos(self) -> LocalPos {
        LocalPos {
            x: local_coord(self.x as int) as usize,
            y: local_coord(self.y as int) as usize,
            z: local_coord(self.z as int) as usize,
        }
    }

    /// This position moved by `(dx, dy, dz)`.
    pub open spec fn offset(self, dx: int, dy: int, dz: int) -> BlockPos {
        BlockPos { x: (self.x + dx) as i32, y: (self.y + dy) as i32, z: (self.z + dz) as i32 }
    }

    /// Whether all 26 positions around this one are block positions.
    pub open spec fn has_neighbors(self) -> bool {
        &&& i32::MIN < self.x < i32::MAX
        &&& i32::MIN < self.y < i32::MAX
        &&& i32::MIN < self.z < i32::MAX
    }

    #[verifier::when_used_as_spec(spec_chunk_pos)]
    pub fn chunk_pos(self) -> (c: ChunkPos)
        ensures
            c == self.spec_chunk_pos(),
            c.in_world(),
    {
        ChunkPos { x: floor_div_16(self.x), y: floor_div_16(self.y), z: floor_div_16(self.z) }
    }

    #[verifier::when_used_as_spec(spec_local_pos)]
    pub fn local_pos(self) -> (l: LocalPos)
        ensures
            l == self.spec_local_pos(),
            l.is_valid(),
    {
        LocalPos { x: floor_rem_16(self.x), y: floor_rem_16(self.y), z: floor_rem_16(self.z) }
    }

    /// The neighbour at `x - 1`.
    pub fn left(self) -> (p: Self)
        requires
            coord_fits(self.x as int, -1),
        ensures
            p == self.offset(-1, 0, 0),
    {
        Self { x: self.x - 1, y: self.y, z: self.z }
    }

    /// The neighbour at `x + 1`.
    pub fn right(self) -> (p: Self)
        requires
            coord_fits(self.x as int, 1),
        ensures
            p == self.offset(1, 0, 0),
    {
        Self { x: self.x + 1, y: self.y, z: self.z }
    }

    /// The neighbour at `z + 1`.
    pub fn front(self) -> (p: Self)
        requires
            coord_fits(self.z as int, 1),
        ensures
            p == self.offset(0, 0, 1),
    {
        Self { x: self.x, y: self.y, z: self.z + 1 }
    }

    /// The neighbour at `z - 1`.
    pub fn back(self) -> (p: Self)
        requires
            coord_fits(self.z as int, -1),
        ensures
            p == self.offset(0, 0, -1),
    {
        Self { x: self.x, y: self.y, z: self.z - 1 }
    }

    /// The neighbour at `y + 1`.
    pub fn top(self) -> (p: Self)
        requires
            coord_fits(self.y as int, 1),
        ensures
            p == self.offset(0, 1, 0),
    {
        Self { x: self.x, y: self.y + 1, z: self.z }
    }

    /// The neighbour at `y - 1`.
    pub fn bottom(self) -> (p: Self)
        requires
            coord_fits(self.y as int, -1),
        ensures
            p == self.offset(0, -1, 0),
    {
        Self { x: self.x, y: self.y - 1, z: self.z }
    }
}

impl AddSpecImpl for BlockPos {
    open spec fn obeys_add_spec() -> bool {
        true
    }

    open spec fn add_req(self, rhs: BlockPos) -> bool {
        &&& coord_fits(self.x as int, rhs.x as int)
        &&& coord_fits(self.y as int, rhs.y as int)
        &&& coord_fits(self.z as int, rhs.z as int)
    }

    open spec fn add_spec(self, rhs: BlockPos) -> BlockPos {
        self.offset(rhs.x as int, rhs.y as int, rhs.z as int)
    }
}

impl Add for BlockPos {
    type Output = Self;

    fn add(self, rhs: Self) -> (sum: Self) {
        Self { x: self.x + rhs.x, y: self.y + rhs.y, z: self.z + rhs.z }
    }
}

impl MulSpecImpl<i32> for BlockPos {
    open spec fn obeys_mul_spec() -> bool {
        true
    }

    open spec fn mul_req(self, rhs: i32) -> bool {
        &&& i32::MIN <= self.x * rhs <= i32::MAX
        &&& i32::MIN <= self.y * rhs <= i32::MAX
        &&& i32::MIN <= self.z * rhs <= i32::MAX
    }

    open spec fn mul_spec(self, rhs: i32) -> BlockPos {
        BlockPos { x: (self.x * rhs) as i32, y: (self.y * rhs) as i32, z: (self.z * rhs) as i32 }
    }
}

impl Mul<i32> for BlockPos {
    type Output = Self;

    fn mul(self, rhs: i32) -> (product: Self) {
        Self { x: self.x * rhs, y: self.y * rhs, z: self.z * rhs }
    }
}

impl LocalPos {
    pub fn new(x: usize, y: usize, z: usize) -> (p: Self)
        ensures
            p == (LocalPos { x, y, z }),
    {
        Self { x, y, z }
    }

    /// Every component lies in `[0, 16)`.
    pub open spec fn is_valid(self) -> bool {
        self.x < CHUNK_SIZE && self.y < CHUNK_SIZE && self.z < CHUNK_SIZE
    }

    /// The flat index `x + 16 y + 256 z`.
    pub open spec fn spec_index(self) -> int {
        self.x + self.y * 16 + self.z * 256
    }

    /// The position with flat index `index`.
    pub open spec fn spec_from_index(index: int) -> LocalPos {
        LocalPos {
            x: (index % 16) as usize,
            y: ((index / 16) % 16) as usize,
            z: (index / 256) as usize,
        }
    }

    /// The block of chunk `chunk_pos` that this position names.
    pub open spec fn spec_block_pos(self, chunk_pos: ChunkPos) -> BlockPos {
        BlockPos {
            x: (chunk_pos.x * 16 + self.x) as i32,
            y: (chunk_pos.y * 16 + self.y) as i32,
            z: (chunk_pos.z * 16 + self.z) as i32,
        }
    }

    /// Tells whether every component lies in `[0, 16)`.
    pub fn in_bounds(self) -> (ok: bool)
        ensures
            ok == self.is_valid(),
    {
        self.x < CHUNK_SIZE && self.y < CHUNK_SIZE && self.z < CHUNK_SIZE
    }

    pub fn from_index(index: usize) -> (p: Self)
        requires
            index < CHUNK_INDICES,
        ensures
            p == Self::spec_from_index(index as int),
            p.is_valid(),
            p.spec_index() == index,
    {
        let x = index % CHUNK_SIZE;
        let y = (index / CHUNK_SIZE) % CHUNK_SIZE;
        let z = index / (CHUNK_SIZE * CHUNK_SIZE);
        Self { x, y, z }
    }

    pub fn index(self) -> (i: usize)
        requires
            self.is_valid(),
        ensures
            i == self.spec_index(),
            i < CHUNK_INDICES,
    {
        self.x + self.y * CHUNK_SIZE + self.z * CHUNK_SIZE * CHUNK_SIZE
    }

    #[verifier::when_used_as_spec(spec_block_pos)]
    pub fn block_pos(self, chunk_pos: ChunkPos) -> (p: BlockPos)
        requires
            self.is_valid(),
            chunk_pos.in_world(),
        ensures
            p == self.spec_block_pos(chunk_pos),
            p.spec_chunk_pos() == chunk_pos,
            p.spec_local_pos() == self,
    {
        BlockPos::new(
            chunk_pos.x * (CHUNK_SIZE as i32) + (self.x as i32),
            chunk_pos.y * (CHUNK_SIZE as i32) + (self.y as i32),
            chunk_pos.z * (CHUNK_SIZE as i32) + (self.z as i32),
        )
    }
}

impl ChunkPos {
    pub fn new(x: i32, y: i32, z: i32) -> (p: Self)
        ensures
            p == (ChunkPos { x, y, z }),
    {
        Self { x, y, z }
    }

    /// Every block of this chunk has coordinates in the `i32` range.
    pub open spec fn in_world(self) -> bool {
        &&& MIN_CHUNK_COORD <= self.x <= MAX_CHUNK_COORD
        &&& MIN_CHUNK_COORD <= self.y <= MAX_CHUNK_COORD
        &&& MIN_CHUNK_COORD <= self.z <= MAX_CHUNK_COORD
    }

    /// This chunk and the 26 chunks around it all lie in the world.
    pub open spec fn interior(self) -> bool {
        &&& MIN_CHUNK_COORD < self.x < MAX_CHUNK_COORD
        &&& MIN_CHUNK_COORD < self.y < MAX_CHUNK_COORD
        &&& MIN_CHUNK_COORD < self.z < MAX_CHUNK_COORD
    }

    /// This position moved by `(dx, dy, dz)` chunks.
    pub open spec fn offset(self, dx: int, dy: int, dz: int) -> ChunkPos {
        ChunkPos { x: (self.x + dx) as i32, y: (self.y + dy) as i32, z: (self.z + dz) as i32 }
    }

    /// The block at the chunk's lowest corner.
    pub open spec fn spec_origin(self) -> BlockPos {
        BlockPos { x: (self.x * 16) as i32, y: (self.y * 16) as i32, z: (self.z * 16) as i32 }
    }

    /// Tells whether every block of this chunk has `i32` coordinates.
    pub fn is_in_world(self) -> (ok: bool)
        ensures
            ok == self.in_world(),
    {
        MIN_CHUNK_COORD <= self.x && self.x <= MAX_CHUNK_COORD && MIN_CHUNK_COORD <= self.y
            && self.y <= MAX_CHUNK_COORD && MIN_CHUNK_COORD <= self.z && self.z
            <= MAX_CHUNK_COORD
    }

    /// Tells whether this chunk and the 26 chunks around it all lie in the
    /// world.
    pub fn is_interior(self) -> (ok: bool)
        ensures
            ok == self.interior(),
    {
        MIN_CHUNK_COORD < self.x && self.x < MAX_CHUNK_COORD && MIN_CHUNK_COORD < self.y && self.y
            < MAX_CHUNK_COORD && MIN_CHUNK_COORD < self.z && self.z < MAX_CHUNK_COORD
    }

    /// The block at the chunk's lowest corner, whose coordinates are the
    /// chunk's times [`CHUNK_SIZE`].
    #[verifier::when_used_as_spec(spec_origin)]
    pub fn origin(self) -> (p: BlockPos)
        requires
            self.in_world(),
        ensures
            p == self.spec_origin(),
            p.spec_chunk_pos() == self,
    {
        BlockPos::new(self.x * 16, self.y * 16, self.z * 16)
    }
}

impl AddSpecImpl for ChunkPos {
    open spec fn obeys_add_spec() -> bool {
        true
    }

    open spec fn add_req(self, rhs: ChunkPos) -> bool {
        &&& coord_fits(self.x as int, rhs.x as int)
        &&& coord_fits(self.y as int, rhs.y as int)
        &&& coord_fits(self.z as int, rhs.z as int)
    }

    open spec fn add_spec(self, rhs: ChunkPos) -> ChunkPos {
        self.offset(rhs.x as int, rhs.y as int, rhs.z as int)
    }
}

impl Add for ChunkPos {
    type Output = Self;

    fn add(self, rhs: Self) -> (sum: Self) {
        Self { x: self.x + rhs.x, y: self.y + rhs.y, z: self.z + rhs.z }
    }
}

/// Splitting a block position into chunk and local part and joining them
/// again gives the position back.
pub proof fn lemma_block_round_trip(p: BlockPos)
    ensures
        p.spec_chunk_pos().in_world(),
        p.spec_local_pos().is_valid(),
        p.spec_local_pos().spec_block_pos(p.spec_chunk_pos()) == p,
{
}

/// Joining a chunk position and a valid local position and splitting the
/// result gives both back.
pub proof fn lemma_join_round_trip(c: ChunkPos, l: LocalPos)
    requires
        c.in_world(),
        l.is_valid(),
    ensures
        l.spec_block_pos(c).spec_chunk_pos() == c,
        l.spec_block_pos(c).spec_local_pos() == l,
{
}

/// Every index below 4096 names a valid local position whose flat index
/// is that index.
pub proof fn lemma_index_round_trip(index: int)
    requires
        0 <= index < CHUNK_INDICES,
    ensures
        LocalPos::spec_from_index(index).is_valid(),
        LocalPos::spec_from_index(index).spec_index() == index,
{
}

/// Every valid local position has a flat index below 4096 that names it.
pub proof fn lemma_position_round_trip(p: LocalPos)
    requires
        p.is_valid(),
    ensures
        0 <= p.spec_index() < CHUNK_INDICES,
        LocalPos::spec_from_index(p.spec_index()) == p,
{
}

/// Two valid local positions with the same flat index are the same.
pub proof fn lemma_index_injective(p: LocalPos, q: LocalPos)
    requires
        p.is_valid(),
        q.is_valid(),
        p.spec_index() == q.spec_index(),
    ensures
        p == q,
{
}

} // verus!
