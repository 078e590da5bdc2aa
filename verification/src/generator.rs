//! Terrain and structures: which block stands where in a freshly
//! generated chunk.
//!
//! Terrain comes from samples of the world's noise fields, which the
//! caller takes: where the ground is solid, and how moist and how
//! gravelly it is. Structures, which are trees and small houses, stand on
//! a coarse grid. Whether a grid point bears a structure, where exactly,
//! of which kind and size, and which leaves of a tree are missing is
//! decided by hashing a position together with the world seed, never by a
//! generator that is carried from one decision to the next: so a structure
//! that reaches over a chunk border comes out the same from both sides.

use crate::block::Block;
use crate::chunk::Chunk;
use crate::position::{BlockPos, ChunkPos, LocalPos, CHUNK_INDICES, CHUNK_SIZE};
use rand::{Rng, SeedableRng};
use rand_chacha::ChaCha8Rng;
use std::collections::hash_map::DefaultHasher;
use std::hash::Hasher;
use vstd::bytes::{spec_u32_to_le_bytes, u32_to_le_bytes};
use vstd::prelude::*;
use vstd::std_specs::hash::DefaultHasherAdditionalSpecFns;

verus! {

/// Height of the shortest tree trunk.
pub const TREE_HEIGHT: i32 = 6;

/// How far a structure may reach sideways at most; bounds the distance at
/// which one can matter to a chunk.
pub const TREE_RADIUS: i32 = 5;

/// Distance between the grid points at which a structure may stand.
pub const STRUCTURE_ATTEMPT_SPACING: i32 = 10;

/// Side of the smallest house.
pub const HOUSE_SIZE: i32 = 5;

/// One structure in this many is a house; the others are trees.
pub const HOUSE_ODDS: u32 = 5;

/// How far beyond a chunk's faces grid points are looked at.
pub const STRUCTURE_REACH: i32 = TREE_HEIGHT + TREE_RADIUS + 1;

/// Number of columns in a chunk.
pub const CHUNK_COLUMNS: usize = CHUNK_SIZE * CHUNK_SIZE;

/// How many cells above a solid cell are looked at to find the open air.
pub const SURFACE_PROBE: usize = 5;

/// Number of layers of a chunk's solidity samples: its own sixteen and
/// those looked at above its top layer.
pub const SOLID_LAYERS: usize = 21;

/// Number of solidity samples for a chunk.
pub const SOLID_SAMPLES: usize = 5376;

/// What `ChaCha8Rng::seed_from_u64(key)` answers when first asked for a
/// `random_ratio(numerator, denominator)`.
pub uninterp spec fn seeded_ratio(key: u64, numerator: u32, denominator: u32) -> bool;

/// What `ChaCha8Rng::seed_from_u64(key)` answers when first asked for a
/// `random_range(low..high)`.
pub uninterp spec fn seeded_range(key: u64, low: i32, high: i32) -> i32;

/// Seeds a ChaCha8 generator with `key` by `SeedableRng::seed_from_u64` and
/// takes one `Rng::random_ratio(numerator, denominator)` from it, which
/// wants a denominator other than zero and a numerator no larger. The
/// answer depends on the three numbers alone, in every run and on every
/// machine: the generator and the way it is seeded are fixed algorithms.
#[verifier::external_body]
fn draw_ratio(key: u64, numerator: u32, denominator: u32) -> (hit: bool)
    requires
        0 < denominator,
        numerator <= denominator,
    ensures
        hit == seeded_ratio(key, numerator, denominator),
{
    ChaCha8Rng::seed_from_u64(key).random_ratio(numerator, denominator)
}

/// Seeds a ChaCha8 generator with `key` by `SeedableRng::seed_from_u64` and
/// takes one `Rng::random_range(low..high)` from it, which wants a range
/// that is not empty. The answer depends on the three numbers alone and
/// lies in the range, its upper end left out.
#[verifier::external_body]
fn draw_range(key: u64, low: i32, high: i32) -> (value: i32)
    requires
        low < high,
    ensures
        value == seeded_range(key, low, high),
        low <= value < high,
{
    ChaCha8Rng::seed_from_u64(key).random_range(low..high)
}

/// The hash of a block position: what the default hasher makes of its
/// three coordinates, each written as four little-endian bytes.
pub open spec fn spec_position_hash(pos: BlockPos) -> u64 {
    DefaultHasher::spec_finish(
        seq![
            spec_u32_to_le_bytes(pos.x as u32),
            spec_u32_to_le_bytes(pos.y as u32),
            spec_u32_to_le_bytes(pos.z as u32),
        ],
    )
}

/// The key from which the decisions about `pos` are drawn in a world with
/// seed `seed`.
pub open spec fn spec_structure_key(seed: u32, pos: BlockPos) -> u64 {
    spec_position_hash(pos) ^ (seed as u64)
}

/// `key + step`, wrapping around.
pub open spec fn key_after(key: u64, step: int) -> u64 {
    if key + step > u64::MAX {
        (key + step - 0x1_0000_0000_0000_0000) as u64
    } else {
        (key + step) as u64
    }
}

/// Whether a grid point bears a structure: one time in ten.
pub open spec fn cell_spawns(key: u64) -> bool {
    seeded_ratio(key, 1, 10)
}

/// How far a structure stands from its grid point along x and z: up to
/// two blocks either way.
pub open spec fn cell_jitter(key: u64) -> (int, int) {
    (
        seeded_range(key_after(key, 1), -2i32, 3i32) as int,
        seeded_range(key_after(key, 2), -2i32, 3i32) as int,
    )
}

/// What a grid point bears: a house one time in five, else a tree.
pub open spec fn cell_kind(key: u64) -> StructureKind {
    if seeded_ratio(key_after(key, 3), 1, HOUSE_ODDS) {
        StructureKind::House
    } else {
        StructureKind::Tree
    }
}

/// Whether the leaf on the rim of a canopy at `pos` is missing: one time
/// in two.
pub open spec fn leaf_missing(seed: u32, pos: BlockPos) -> bool {
    seeded_ratio(key_after(spec_structure_key(seed, pos), 3), 1, 2)
}

/// Height of the trunk of the tree that stands at `origin`: 6 to 8.
pub open spec fn spec_tree_height(origin: BlockPos) -> int {
    TREE_HEIGHT + spec_position_hash(origin) % 3
}

/// The kinds of structure.
#[derive(Debug, Clone, Copy, PartialEq, Eq, Structural)]
pub enum StructureKind {
    Tree,
    House,
}

/// A structure that stands in the world.
#[derive(Debug, Clone, Copy, PartialEq, Eq, Structural)]
pub struct StructureSite {
    /// The block above the ground at which the structure stands: the foot
    /// of a tree's trunk, the middle of a house's floor.
    pub origin: BlockPos,
    pub kind: StructureKind,
}

/// Side of the house that stands at `origin`: 5 to 7.
pub open spec fn spec_house_size(origin: BlockPos) -> int {
    HOUSE_SIZE + (spec_position_hash(origin) / 3) % 3
}

/// The block a house of side `size` has at `(dx, dy, dz)` from its origin,
/// if it reaches there. The house is a cube that stands on its origin's
/// layer with the origin in the middle of its floor. Its outermost layer
/// on all six sides is wood, but for a door, one cell wide and two high,
/// in the middle of the wall with the lowest z, one above the floor. What
/// lies inside is air.
pub open spec fn house_shape(dx: int, dy: int, dz: int, size: int) -> Option<Block> {
    let low = -(size / 2);
    let high = low + size - 1;
    if low <= dx <= high && low <= dz <= high && 0 <= dy < size {
        if dz == low && dx == 0 && (dy == 1 || dy == 2) {
            Some(Block::Air)
        } else if dx == low || dx == high || dz == low || dz == high || dy == 0 || dy == size - 1 {
            Some(Block::Wood)
        } else {
            Some(Block::Air)
        }
    } else {
        None
    }
}

/// The block that the house at `origin` puts at `pos`, if it puts one
/// there.
pub open spec fn spec_house_block(pos: BlockPos, origin: BlockPos) -> Option<Block> {
    house_shape(pos.x - origin.x, pos.y - origin.y, pos.z - origin.z, spec_house_size(origin))
}

/// The block that the structure `site` puts at `pos` in a world with seed
/// `seed`, if it puts one there.
pub open spec fn spec_structure_block(seed: u32, pos: BlockPos, site: StructureSite) -> Option<
    Block,
> {
    match site.kind {
        StructureKind::Tree => spec_tree_block(seed, pos, site.origin),
        StructureKind::House => spec_house_block(pos, site.origin),
    }
}

/// What a tree is at one cell.
#[derive(Debug, Clone, Copy, PartialEq, Eq, Structural)]
pub enum TreeCell {
    /// The tree does not reach here.
    Nothing,
    /// Part of the trunk.
    Trunk,
    /// A leaf inside the canopy.
    Leaf,
    /// A leaf on the rim of the canopy, which may be missing.
    RimLeaf,
}

/// Half the side of the canopy at `level` blocks above its lowest layer:
/// 1 on the lowest and the highest of its five layers, 2 between.
pub open spec fn canopy_radius(level: int) -> int {
    if level == 0 || level == 4 {
        1
    } else {
        2
    }
}

/// What a tree with a trunk of `height` is at `(dx, dy, dz)` from its
/// origin. The trunk is the column above the origin. The canopy is five
/// layers high, starts four below the trunk's top, and is in each layer a
/// square of the layer's radius with its corners cut off.
pub open spec fn tree_shape(dx: int, dy: int, dz: int, height: int) -> TreeCell {
    let level = dy - (height - 4);
    let radius = canopy_radius(level);
    if dx == 0 && dz == 0 && 0 <= dy < height {
        TreeCell::Trunk
    } else if 0 <= level < 5 && -radius <= dx <= radius && -radius <= dz <= radius && dx * dx + dz
        * dz <= radius * radius + 1 {
        if dx == radius || dx == -radius || dz == radius || dz == -radius {
            TreeCell::RimLeaf
        } else {
            TreeCell::Leaf
        }
    } else {
        TreeCell::Nothing
    }
}

/// The block that the tree at `origin` puts at `pos` in a world with seed
/// `seed`, if it puts one there.
pub open spec fn spec_tree_block(seed: u32, pos: BlockPos, origin: BlockPos) -> Option<Block> {
    match tree_shape(
        pos.x - origin.x,
        pos.y - origin.y,
        pos.z - origin.z,
        spec_tree_height(origin),
    ) {
        TreeCell::Nothing => None,
        TreeCell::Trunk => Some(Block::Wood),
        TreeCell::Leaf => Some(Block::Leaves),
        TreeCell::RimLeaf => if leaf_missing(seed, pos) {
            None
        } else {
            Some(Block::Leaves)
        },
    }
}

/// The block at `pos` once the first `n` structures of `sites` have been
/// put over `ground`: a later structure's block replaces an earlier
/// one's, and any structure's block replaces the ground.
pub open spec fn with_structures(
    seed: u32,
    sites: Seq<StructureSite>,
    n: nat,
    pos: BlockPos,
    ground: Block,
) -> Block
    decreases n,
{
    if n == 0 {
        ground
    } else {
        match spec_structure_block(seed, pos, sites[n - 1]) {
            Some(block) => block,
            None => with_structures(seed, sites, (n - 1) as nat, pos, ground),
        }
    }
}

/// The block of solid ground that lies `distance` cells below the first
/// open cell above it: at distance 1 grass, or gravel where the ground is
/// gravelly, or sand where it is dry; at distance 2 and 3 dirt, or sand
/// where it is dry; rock further down.
///
/// Moisture and gravel only vary the soil: ground that is moist and not
/// gravelly is grass, dirt and rock by distance alone. Dry ground is sand
/// as deep as soil goes, and gravel shows on a moist surface only.
pub open spec fn spec_soil_block(distance: int, moist: bool, gravelly: bool) -> Block {
    if distance <= 1 {
        if !moist {
            Block::Sand
        } else if gravelly {
            Block::Gravel
        } else {
            Block::Grass
        }
    } else if distance <= 3 {
        if moist {
            Block::Dirt
        } else {
            Block::Sand
        }
    } else {
        Block::Rock
    }
}

/// The block of the ground at height `y` in a column whose surface lies at
/// `height`: air above the surface, and from the surface down the soil
/// that belongs to the distance from the open air.
pub open spec fn spec_terrain_block(y: int, height: int, moist: bool, gravelly: bool) -> Block {
    if y > height {
        Block::Air
    } else {
        spec_soil_block(height - y + 1, moist, gravelly)
    }
}

/// The lowest grid line whose structures can matter to a chunk with
/// coordinate `chunk_coord` along one axis.
pub open spec fn grid_low(chunk_coord: int) -> int {
    (16 * chunk_coord - STRUCTURE_REACH) / 10
}

/// The highest such grid line.
pub open spec fn grid_high(chunk_coord: int) -> int {
    (16 * chunk_coord + 16 + STRUCTURE_REACH + 9) / 10
}

/// The grid points on the grid line `x` (in grid steps) along z, as
/// `(x, z)` in blocks, z ascending from the grid line `low_z`.
pub open spec fn grid_row(x: int, low_z: int, count: nat) -> Seq<(i32, i32)> {
    Seq::new(count, |j: int| ((10 * x) as i32, (10 * (low_z + j)) as i32))
}

/// The grid points of the first `rows` grid lines along x.
pub open spec fn grid_rows(chunk_pos: ChunkPos, rows: nat) -> Seq<(i32, i32)>
    decreases rows,
{
    if rows == 0 {
        seq![]
    } else {
        grid_rows(chunk_pos, (rows - 1) as nat) + grid_row(
            grid_low(chunk_pos.x as int) + rows - 1,
            grid_low(chunk_pos.z as int),
            (grid_high(chunk_pos.z as int) - grid_low(chunk_pos.z as int) + 1) as nat,
        )
    }
}

/// The grid points whose structures can matter to the chunk at
/// `chunk_pos`, as `(x, z)` in blocks: x slowest, both ascending.
pub open spec fn spec_structure_cells(chunk_pos: ChunkPos) -> Seq<(i32, i32)> {
    grid_rows(
        chunk_pos,
        (grid_high(chunk_pos.x as int) - grid_low(chunk_pos.x as int) + 1) as nat,
    )
}

/// Whether grid points around the chunk at `chunk_pos`, and the
/// structures that stand by them, have block coordinates.
pub open spec fn structure_margin(chunk_pos: ChunkPos) -> bool {
    &&& crate::position::MIN_CHUNK_COORD + 2 <= chunk_pos.x <= crate::position::MAX_CHUNK_COORD - 2
    &&& crate::position::MIN_CHUNK_COORD + 2 <= chunk_pos.z <= crate::position::MAX_CHUNK_COORD - 2
    &&& chunk_pos.in_world()
}

/// Where the structure of a grid point stands along x and z and of which
/// kind it is, given how the grid point's draws came out: there is none
/// unless it spawns.
pub open spec fn spec_site(
    base_x: int,
    base_z: int,
    spawn: bool,
    jitter: (int, int),
    kind: StructureKind,
) -> Option<(int, int, StructureKind)> {
    if spawn {
        Some((base_x + jitter.0, base_z + jitter.1, kind))
    } else {
        None
    }
}

/// Samples of the world's noise fields over one chunk.
#[derive(Debug)]
pub struct TerrainSamples {
    solid: Vec<bool>,
    gravel: Vec<bool>,
    moist: Vec<bool>,
}

/// What the samples of one chunk say.
pub struct TerrainView {
    /// Whether the ground is solid at each cell of the chunk and of the
    /// five layers above it, by `x + 16 z + 256 y`.
    pub solid: Seq<bool>,
    /// Whether the surface is gravelly in each column, by `x + 16 z`.
    pub gravel: Seq<bool>,
    /// Whether the ground is moist at each cell, by flat index.
    pub moist: Seq<bool>,
}

impl TerrainView {
    /// One solidity sample per cell of 21 layers, one gravel sample per
    /// column, one moisture sample per cell of the chunk.
    pub open spec fn wf(self) -> bool {
        &&& self.solid.len() == SOLID_SAMPLES
        &&& self.gravel.len() == CHUNK_COLUMNS
        &&& self.moist.len() == CHUNK_INDICES
    }

    /// Whether the ground is solid `up` cells above `local`.
    pub open spec fn solid_above(self, local: LocalPos, up: int) -> bool {
        self.solid[local.x + 16 * local.z + 256 * (local.y + up)]
    }

    /// Distance from `local` to the first cell above it that is not
    /// solid, looking from `from` cells up and no further than five: six
    /// if all five are solid.
    pub open spec fn open_air_above(self, local: LocalPos, from: int) -> int
        decreases 6 - from,
    {
        if from > SURFACE_PROBE || from < 1 {
            SURFACE_PROBE + 1
        } else if !self.solid_above(local, from) {
            from
        } else {
            self.open_air_above(local, from + 1)
        }
    }

    /// The ground's block at `local`: air where the ground is not solid,
    /// else the soil that belongs to the distance from the open air.
    pub open spec fn ground(self, local: LocalPos) -> Block {
        if !self.solid_above(local, 0) {
            Block::Air
        } else {
            spec_soil_block(
                self.open_air_above(local, 1),
                self.moist[local.spec_index()],
                self.gravel[local.x + 16 * local.z],
            )
        }
    }
}

/// The solidity samples of the chunk at height `chunk_y` over ground whose
/// surface lies at `heights` in each column: a cell is solid up to and
/// including the surface.
pub open spec fn solid_below(chunk_y: int, heights: Seq<i32>) -> Seq<bool> {
    Seq::new(SOLID_SAMPLES as nat, |i: int| chunk_y * 16 + i / 256 <= heights[i % 256])
}

impl View for TerrainSamples {
    type V = TerrainView;

    closed spec fn view(&self) -> TerrainView {
        TerrainView { solid: self.solid@, gravel: self.gravel@, moist: self.moist@ }
    }
}

impl TerrainSamples {
    #[verifier::type_invariant]
    spec fn inv(self) -> bool {
        self@.wf()
    }

    /// Samples from one solidity flag per cell of the chunk and of the
    /// five layers above it, by `x + 16 z + 256 y`, one gravel flag per
    /// column, by `x + 16 z`, and one moisture flag per cell, by flat
    /// index; nothing where a count is wrong.
    pub fn new(solid: Vec<bool>, gravel: Vec<bool>, moist: Vec<bool>) -> (samples: Option<Self>)
        ensures
            samples is Some <==> solid@.len() == SOLID_SAMPLES && gravel@.len() == CHUNK_COLUMNS
                && moist@.len() == CHUNK_INDICES,
            samples is Some ==> samples->0@ == (TerrainView {
                solid: solid@,
                gravel: gravel@,
                moist: moist@,
            }),
    {
        if solid.len() == SOLID_SAMPLES && gravel.len() == CHUNK_COLUMNS && moist.len()
            == CHUNK_INDICES {
            Some(Self { solid, gravel, moist })
        } else {
            None
        }
    }

    /// Samples for the chunk at `chunk_pos` over ground whose surface lies
    /// at `heights` in each column, by `x + 16 z`: the ground is solid up
    /// to and including the surface. Nothing where a count is wrong.
    pub fn from_heights(chunk_pos: ChunkPos, heights: &Vec<i32>, gravel: Vec<bool>, moist: Vec<bool>)
        -> (samples: Option<Self>)
        ensures
            samples is Some <==> heights@.len() == CHUNK_COLUMNS && gravel@.len() == CHUNK_COLUMNS
                && moist@.len() == CHUNK_INDICES,
            samples is Some ==> samples->0@ == (TerrainView {
                solid: solid_below(chunk_pos.y as int, heights@),
                gravel: gravel@,
                moist: moist@,
            }),
    {
        if heights.len() != CHUNK_COLUMNS {
            return None;
        }
        let mut solid: Vec<bool> = Vec::new();
        let mut i: usize = 0;
        while i < SOLID_SAMPLES
            invariant
                i <= SOLID_SAMPLES,
                heights@.len() == CHUNK_COLUMNS,
                solid@.len() == i,
                forall|k: int|
                    0 <= k < i ==> #[trigger] solid@[k] == (chunk_pos.y * 16 + k / 256
                        <= heights@[k % 256]),
            decreases SOLID_SAMPLES - i,
        {
            let y: i64 = (chunk_pos.y as i64) * 16 + ((i / 256) as i64);
            solid.push(y <= heights[i % 256] as i64);
            i += 1;
        }
        assert(solid@ =~= solid_below(chunk_pos.y as int, heights@));
        Self::new(solid, gravel, moist)
    }

    /// The ground's block at `local`.
    pub fn ground(&self, local: LocalPos) -> (block: Block)
        requires
            local.is_valid(),
        ensures
            self@.wf(),
            block == self@.ground(local),
    {
        proof {
            use_type_invariant(self);
        }
        let column = local.x + 16 * local.z;
        if !self.solid[column + 256 * local.y] {
            return Block::Air;
        }
        let mut distance: usize = 1;
        while distance <= SURFACE_PROBE && self.solid[column + 256 * (local.y + distance)]
            invariant
                1 <= distance <= SURFACE_PROBE + 1,
                local.is_valid(),
                column == local.x + 16 * local.z,
                self@.wf(),
                self@.open_air_above(local, 1) == self@.open_air_above(local, distance as int),
            decreases SURFACE_PROBE + 1 - distance,
        {
            distance += 1;
        }
        soil_block(distance as u32, self.moist[local.index()], self.gravel[column])
    }
}

/// The block of solid ground `distance` cells below the first open cell
/// above it; see [`spec_soil_block`].
pub fn soil_block(distance: u32, moist: bool, gravelly: bool) -> (block: Block)
    ensures
        block == spec_soil_block(distance as int, moist, gravelly),
{
    if distance <= 1 {
        if !moist {
            Block::Sand
        } else if gravelly {
            Block::Gravel
        } else {
            Block::Grass
        }
    } else if distance <= 3 {
        if moist {
            Block::Dirt
        } else {
            Block::Sand
        }
    } else {
        Block::Rock
    }
}

/// The hash of a block position; see [`spec_position_hash`].
pub fn position_hash(pos: BlockPos) -> (hash: u64)
    ensures
        hash == spec_position_hash(pos),
{
    let mut hasher = DefaultHasher::new();
    let x = u32_to_le_bytes(#[verifier::truncate] (pos.x as u32));
    let y = u32_to_le_bytes(#[verifier::truncate] (pos.y as u32));
    let z = u32_to_le_bytes(#[verifier::truncate] (pos.z as u32));
    hasher.write(x.as_slice());
    hasher.write(y.as_slice());
    hasher.write(z.as_slice());
    assert(hasher@ =~= seq![
        spec_u32_to_le_bytes(pos.x as u32),
        spec_u32_to_le_bytes(pos.y as u32),
        spec_u32_to_le_bytes(pos.z as u32),
    ]);
    hasher.finish()
}

/// What a tree with a trunk of `height` is at `(dx, dy, dz)` from its
/// origin; see [`tree_shape`].
pub fn tree_cell(dx: i64, dy: i64, dz: i64, height: i64) -> (cell: TreeCell)
    ensures
        cell == tree_shape(dx as int, dy as int, dz as int, height as int),
{
    if dx == 0 && dz == 0 && 0 <= dy && dy < height {
        return TreeCell::Trunk;
    }
    let level: i128 = (dy as i128) - ((height as i128) - 4);
    if 0 <= level && level < 5 {
        let radius: i64 = if level == 0 || level == 4 {
            1
        } else {
            2
        };
        if -radius <= dx && dx <= radius && -radius <= dz && dz <= radius {
            assert(0 <= dx * dx <= 4 && 0 <= dz * dz <= 4 && 0 <= radius * radius <= 4) by (nonlinear_arith)
                requires
                    -2 <= dx <= 2,
                    -2 <= dz <= 2,
                    1 <= radius <= 2,
            ;
            if dx * dx + dz * dz <= radius * radius + 1 {
                if dx == radius || dx == -radius || dz == radius || dz == -radius {
                    return TreeCell::RimLeaf;
                }
                return TreeCell::Leaf;
            }
        }
    }
    TreeCell::Nothing
}

/// Where the structure of the grid point at `(base_x, base_z)` stands and
/// of which kind it is, given that the grid point's draws came out as
/// `spawn`, `jitter` and `kind`.
pub fn site_from_draws(
    base_x: i32,
    base_z: i32,
    spawn: bool,
    jitter: (i32, i32),
    kind: StructureKind,
) -> (site: Option<(i32, i32, StructureKind)>)
    requires
        i32::MIN <= base_x + jitter.0 <= i32::MAX,
        i32::MIN <= base_z + jitter.1 <= i32::MAX,
    ensures
        site == match spec_site(
            base_x as int,
            base_z as int,
            spawn,
            (jitter.0 as int, jitter.1 as int),
            kind,
        ) {
            Some(at) => Some((at.0 as i32, at.1 as i32, at.2)),
            None => None,
        },
{
    if spawn {
        Some((base_x + jitter.0, base_z + jitter.1, kind))
    } else {
        None
    }
}

/// The block a house of side `size` has at `(dx, dy, dz)` from its origin;
/// see [`house_shape`].
pub fn house_cell(dx: i64, dy: i64, dz: i64, size: i64) -> (block: Option<Block>)
    ensures
        block == house_shape(dx as int, dy as int, dz as int, size as int),
{
    if size <= 0 {
        return None;
    }
    let low = -(size / 2);
    let high = low + size - 1;
    if low <= dx && dx <= high && low <= dz && dz <= high && 0 <= dy && dy < size {
        if dz == low && dx == 0 && (dy == 1 || dy == 2) {
            Some(Block::Air)
        } else if dx == low || dx == high || dz == low || dz == high || dy == 0 || dy == size - 1 {
            Some(Block::Wood)
        } else {
            Some(Block::Air)
        }
    } else {
        None
    }
}

/// Where a structure stands that is built at `(x, z)` on ground whose
/// surface lies at `ground_height`: one block above the surface.
pub fn structure_origin(x: i32, z: i32, ground_height: i32) -> (origin: BlockPos)
    requires
        ground_height < i32::MAX,
    ensures
        origin == (BlockPos { x, y: (ground_height + 1) as i32, z }),
{
    BlockPos::new(x, ground_height + 1, z)
}

/// Tells whether grid points around the chunk at `chunk_pos`, and the
/// structures that stand by them, have block coordinates.
pub fn has_structure_margin(chunk_pos: ChunkPos) -> (ok: bool)
    ensures
        ok == structure_margin(chunk_pos),
{
    crate::position::MIN_CHUNK_COORD + 2 <= chunk_pos.x && chunk_pos.x
        <= crate::position::MAX_CHUNK_COORD - 2 && crate::position::MIN_CHUNK_COORD + 2
        <= chunk_pos.z && chunk_pos.z <= crate::position::MAX_CHUNK_COORD - 2
        && chunk_pos.is_in_world()
}

fn floor_div_10(v: i64) -> (q: i64)
    requires
        -0x1_0000_0000 <= v <= 0x1_0000_0000,
    ensures
        q == v / 10,
{
    v.checked_div_euclid(10).unwrap()
}

/// The grid points whose structures can matter to the chunk at
/// `chunk_pos`; see [`spec_structure_cells`]. Each lies far enough inside
/// the range of block coordinates for a structure to stand two blocks from
/// it.
pub fn structure_cells(chunk_pos: ChunkPos) -> (cells: Vec<(i32, i32)>)
    requires
        structure_margin(chunk_pos),
    ensures
        cells@ == spec_structure_cells(chunk_pos),
        forall|k: int|
            0 <= k < cells@.len() ==> {
                &&& i32::MIN + 2 <= (#[trigger] cells@[k]).0 <= i32::MAX - 2
                &&& i32::MIN + 2 <= cells@[k].1 <= i32::MAX - 2
            },
{
    let reach = STRUCTURE_REACH as i64;
    let low_x = floor_div_10(16 * (chunk_pos.x as i64) - reach);
    let high_x = floor_div_10(16 * (chunk_pos.x as i64) + 16 + reach + 9);
    let low_z = floor_div_10(16 * (chunk_pos.z as i64) - reach);
    let high_z = floor_div_10(16 * (chunk_pos.z as i64) + 16 + reach + 9);
    let ghost count_z = (high_z - low_z + 1) as nat;
    let mut cells: Vec<(i32, i32)> = Vec::new();
    let mut x = low_x;
    while x <= high_x
        invariant
            structure_margin(chunk_pos),
            low_x == grid_low(chunk_pos.x as int),
            high_x == grid_high(chunk_pos.x as int),
            low_z == grid_low(chunk_pos.z as int),
            high_z == grid_high(chunk_pos.z as int),
            count_z == high_z - low_z + 1,
            low_x <= x <= high_x + 1,
            cells@ == grid_rows(chunk_pos, (x - low_x) as nat),
            forall|k: int|
                0 <= k < cells@.len() ==> {
                    &&& i32::MIN + 2 <= (#[trigger] cells@[k]).0 <= i32::MAX - 2
                    &&& i32::MIN + 2 <= cells@[k].1 <= i32::MAX - 2
                },
        decreases high_x + 1 - x,
    {
        let ghost before = cells@;
        let mut z = low_z;
        while z <= high_z
            invariant
                structure_margin(chunk_pos),
                low_x == grid_low(chunk_pos.x as int),
                high_x == grid_high(chunk_pos.x as int),
                low_z == grid_low(chunk_pos.z as int),
                high_z == grid_high(chunk_pos.z as int),
                count_z == high_z - low_z + 1,
                low_x <= x <= high_x,
                low_z <= z <= high_z + 1,
                cells@ == before + grid_row(x as int, low_z as int, (z - low_z) as nat),
                forall|k: int|
                    0 <= k < cells@.len() ==> {
                        &&& i32::MIN + 2 <= (#[trigger] cells@[k]).0 <= i32::MAX - 2
                        &&& i32::MIN + 2 <= cells@[k].1 <= i32::MAX - 2
                    },
            decreases high_z + 1 - z,
        {
            let ghost row = cells@;
            cells.push(((10 * x) as i32, (10 * z) as i32));
            assert(cells@ =~= before + grid_row(x as int, low_z as int, (z + 1 - low_z) as nat));
            assert forall|k: int| 0 <= k < cells@.len() implies {
                &&& i32::MIN + 2 <= (#[trigger] cells@[k]).0 <= i32::MAX - 2
                &&& i32::MIN + 2 <= cells@[k].1 <= i32::MAX - 2
            } by {
                if k < row.len() {
                    assert(cells@[k] == row[k]);
                }
            }
            z += 1;
        }
        x += 1;
    }
    cells
}

/// The block that the house at `origin` puts at `block_pos`, if it puts
/// one there.
pub fn get_house_block(block_pos: BlockPos, origin: BlockPos) -> (block: Option<Block>)
    ensures
        block == spec_house_block(block_pos, origin),
{
    let size = (HOUSE_SIZE as i64) + (((position_hash(origin) / 3) % 3) as i64);
    house_cell(
        block_pos.x as i64 - origin.x as i64,
        block_pos.y as i64 - origin.y as i64,
        block_pos.z as i64 - origin.z as i64,
        size,
    )
}

/// The rules by which one world is generated, fixed by the world's seed.
#[derive(Debug, Clone, Copy, PartialEq, Eq, Structural)]
pub struct LevelGenerator {
    seed: u32,
}

impl LevelGenerator {
    /// The world's seed.
    pub closed spec fn spec_seed(self) -> u32 {
        self.seed
    }

    /// The block at `local` of the chunk at `chunk_pos`: the ground with
    /// the structures `sites` over it.
    pub open spec fn spec_block(
        self,
        chunk_pos: ChunkPos,
        terrain: TerrainView,
        sites: Seq<StructureSite>,
        local: LocalPos,
    ) -> Block {
        with_structures(
            self.spec_seed(),
            sites,
            sites.len(),
            local.spec_block_pos(chunk_pos),
            terrain.ground(local),
        )
    }

    /// The blocks of the chunk at `chunk_pos` by flat index.
    pub open spec fn spec_chunk(
        self,
        chunk_pos: ChunkPos,
        terrain: TerrainView,
        sites: Seq<StructureSite>,
    ) -> Seq<Block> {
        Seq::new(
            CHUNK_INDICES as nat,
            |i: int| self.spec_block(chunk_pos, terrain, sites, LocalPos::spec_from_index(i)),
        )
    }

    /// Where the structure of the grid point at `(base_x, base_z)`, whose
    /// ground lies at `base_height`, stands along x and z and of which
    /// kind it is, if the grid point bears one.
    pub open spec fn spec_structure_site(self, base_x: i32, base_z: i32, base_height: i32) -> Option<
        (int, int, StructureKind),
    > {
        let key = spec_structure_key(
            self.spec_seed(),
            BlockPos { x: base_x, y: (base_height + 1) as i32, z: base_z },
        );
        spec_site(
            base_x as int,
            base_z as int,
            cell_spawns(key),
            cell_jitter(key),
            cell_kind(key),
        )
    }

    /// The rules of the world with seed `seed`.
    pub fn new(seed: u32) -> (generator: Self)
        ensures
            generator.spec_seed() == seed,
    {
        Self { seed }
    }

    /// The world's seed, which also seeds the noise field of large-scale
    /// density.
    #[verifier::when_used_as_spec(spec_seed)]
    pub fn seed(self) -> (seed: u32)
        ensures
            seed == self.spec_seed(),
    {
        self.seed
    }

    /// The seed of the noise field of terrain detail: the world's seed
    /// plus one, wrapping around.
    pub fn terrain_seed(self) -> (seed: u32)
        ensures
            seed == if self.spec_seed() == u32::MAX {
                0
            } else {
                self.spec_seed() + 1
            },
    {
        self.seed.wrapping_add(1)
    }

    /// The seed of the noise field of moisture: the world's seed plus two,
    /// wrapping around.
    pub fn moisture_seed(self) -> (seed: u32)
        ensures
            seed == if self.spec_seed() >= u32::MAX - 1 {
                self.spec_seed() - (u32::MAX - 1)
            } else {
                self.spec_seed() + 2
            },
    {
        self.seed.wrapping_add(2)
    }

    /// The key from which the decisions about `pos` are drawn.
    pub fn structure_key(self, pos: BlockPos) -> (key: u64)
        ensures
            key == spec_structure_key(self.spec_seed(), pos),
    {
        position_hash(pos) ^ (self.seed as u64)
    }

    /// Where the structure of the grid point at `(base_x, base_z)`, whose
    /// ground lies at `base_height`, stands along x and z and of which
    /// kind it is, if the grid point bears one. A structure stands at most
    /// two blocks from its grid point along either axis.
    pub fn structure_site(self, base_x: i32, base_z: i32, base_height: i32) -> (site: Option<
        (i32, i32, StructureKind),
    >)
        requires
            i32::MIN + 2 <= base_x <= i32::MAX - 2,
            i32::MIN + 2 <= base_z <= i32::MAX - 2,
            base_height < i32::MAX,
        ensures
            site == match self.spec_structure_site(base_x, base_z, base_height) {
                Some(at) => Some((at.0 as i32, at.1 as i32, at.2)),
                None => None,
            },
            match site {
                Some(at) => -2 <= at.0 - base_x <= 2 && -2 <= at.1 - base_z <= 2,
                None => true,
            },
    {
        let key = self.structure_key(BlockPos::new(base_x, base_height + 1, base_z));
        if draw_ratio(key, 1, 10) {
            let offset_x = draw_range(key.wrapping_add(1), -2, 3);
            let offset_z = draw_range(key.wrapping_add(2), -2, 3);
            let kind = if draw_ratio(key.wrapping_add(3), 1, HOUSE_ODDS) {
                StructureKind::House
            } else {
                StructureKind::Tree
            };
            site_from_draws(base_x, base_z, true, (offset_x, offset_z), kind)
        } else {
            None
        }
    }

    /// The blocks of the chunk at `chunk_pos`: the ground as `terrain`
    /// samples it, with the structures `sites` put over it one after the
    /// other.
    pub fn generate_chunk(
        self,
        chunk_pos: ChunkPos,
        terrain: &TerrainSamples,
        sites: &Vec<StructureSite>,
    ) -> (chunk: Chunk)
        requires
            chunk_pos.in_world(),
        ensures
            chunk@ == self.spec_chunk(chunk_pos, terrain@, sites@),
    {
        let mut chunk = Chunk::new();
        let mut i: usize = 0;
        while i < CHUNK_INDICES
            invariant
                i <= CHUNK_INDICES,
                chunk_pos.in_world(),
                chunk@.len() == CHUNK_INDICES,
                forall|j: int|
                    0 <= j < i ==> #[trigger] chunk@[j] == terrain@.ground(LocalPos::spec_from_index(j)),
            decreases CHUNK_INDICES - i,
        {
            let local = LocalPos::from_index(i);
            let block = terrain.ground(local);
            chunk.set(local, block);
            i += 1;
        }
        let mut t: usize = 0;
        while t < sites.len()
            invariant
                t <= sites.len(),
                chunk_pos.in_world(),
                chunk@.len() == CHUNK_INDICES,
                forall|j: int|
                    0 <= j < CHUNK_INDICES ==> #[trigger] chunk@[j] == with_structures(
                        self.spec_seed(),
                        sites@,
                        t as nat,
                        LocalPos::spec_from_index(j).spec_block_pos(chunk_pos),
                        terrain@.ground(LocalPos::spec_from_index(j)),
                    ),
            decreases sites.len() - t,
        {
            let site = sites[t];
            let mut i: usize = 0;
            while i < CHUNK_INDICES
                invariant
                    i <= CHUNK_INDICES,
                    t < sites.len(),
                    site == sites@[t as int],
                    chunk_pos.in_world(),
                    chunk@.len() == CHUNK_INDICES,
                    forall|j: int|
                        0 <= j < CHUNK_INDICES ==> #[trigger] chunk@[j] == with_structures(
                            self.spec_seed(),
                            sites@,
                            if j < i {
                                (t + 1) as nat
                            } else {
                                t as nat
                            },
                            LocalPos::spec_from_index(j).spec_block_pos(chunk_pos),
                            terrain@.ground(LocalPos::spec_from_index(j)),
                        ),
                decreases CHUNK_INDICES - i,
            {
                let local = LocalPos::from_index(i);
                let block_pos = local.block_pos(chunk_pos);
                match self.get_structure_block(block_pos, site) {
                    Some(block) => {
                        chunk.set(local, block);
                    },
                    None => {},
                }
                i += 1;
            }
            t += 1;
        }
        assert(chunk@ =~= self.spec_chunk(chunk_pos, terrain@, sites@));
        chunk
    }

    /// The block that the structure `site` puts at `block_pos`, if it puts
    /// one there.
    pub fn get_structure_block(self, block_pos: BlockPos, site: StructureSite) -> (block: Option<
        Block,
    >)
        ensures
            block == spec_structure_block(self.spec_seed(), block_pos, site),
    {
        match site.kind {
            StructureKind::Tree => self.get_tree_block(block_pos, site.origin),
            StructureKind::House => get_house_block(block_pos, site.origin),
        }
    }

    /// The block that the tree at `origin` puts at `block_pos`, if it puts
    /// one there.
    pub fn get_tree_block(self, block_pos: BlockPos, origin: BlockPos) -> (block: Option<Block>)
        ensures
            block == spec_tree_block(self.spec_seed(), block_pos, origin),
    {
        let height = (TREE_HEIGHT as i64) + ((position_hash(origin) % 3) as i64);
        let cell = tree_cell(
            block_pos.x as i64 - origin.x as i64,
            block_pos.y as i64 - origin.y as i64,
            block_pos.z as i64 - origin.z as i64,
            height,
        );
        match cell {
            TreeCell::Nothing => None,
            TreeCell::Trunk => Some(Block::Wood),
            TreeCell::Leaf => Some(Block::Leaves),
            TreeCell::RimLeaf => {
                if draw_ratio(self.structure_key(block_pos).wrapping_add(3), 1, 2) {
                    None
                } else {
                    Some(Block::Leaves)
                }
            },
        }
    }
}

/// Over ground given by the height of its surface, the layers come out as
/// [`spec_terrain_block`] lists them: air above the surface, grass or
/// gravel or sand on it, dirt or sand for two blocks below, then rock.
pub proof fn lemma_heightmap_layers(
    chunk_y: int,
    heights: Seq<i32>,
    gravel: Seq<bool>,
    moist: Seq<bool>,
    local: LocalPos,
)
    requires
        local.is_valid(),
        heights.len() == CHUNK_COLUMNS,
    ensures
        (TerrainView { solid: solid_below(chunk_y, heights), gravel, moist }).ground(local)
            == spec_terrain_block(
            chunk_y * 16 + local.y,
            heights[local.x + 16 * local.z] as int,
            moist[local.spec_index()],
            gravel[local.x + 16 * local.z],
        ),
{
    let terrain = TerrainView { solid: solid_below(chunk_y, heights), gravel, moist };
    let column = local.x + 16 * local.z;
    let height = heights[column] as int;
    let y = chunk_y * 16 + local.y;
    assert forall|up: int| 0 <= up <= 5 implies #[trigger] terrain.solid_above(local, up) == (y + up
        <= height) by {
        let i = column + 256 * (local.y + up);
        assert(i / 256 == local.y + up && i % 256 == column);
    }
    reveal_with_fuel(TerrainView::open_air_above, 7);
    assert(terrain.solid_above(local, 0) == (y <= height));
    assert(terrain.solid_above(local, 1) == (y + 1 <= height));
    assert(terrain.solid_above(local, 2) == (y + 2 <= height));
    assert(terrain.solid_above(local, 3) == (y + 3 <= height));
    assert(terrain.solid_above(local, 4) == (y + 4 <= height));
    assert(terrain.solid_above(local, 5) == (y + 5 <= height));
}

/// A structure reaches at most three blocks sideways from its origin and
/// less than nine blocks up, and never below it.
pub proof fn lemma_structure_reach(seed: u32, pos: BlockPos, site: StructureSite)
    requires
        spec_structure_block(seed, pos, site) is Some,
    ensures
        -3 <= pos.x - site.origin.x <= 3,
        -3 <= pos.z - site.origin.z <= 3,
        0 <= pos.y - site.origin.y < 9,
{
}

/// The grid points looked at for a chunk cover every structure that can
/// reach into it: if a structure that stands within two blocks of the grid
/// point `(10 gx, 10 gz)` puts a block into the chunk, the grid point is
/// among the chunk's structure cells.
pub proof fn lemma_cells_cover(
    seed: u32,
    chunk_pos: ChunkPos,
    pos: BlockPos,
    site: StructureSite,
    gx: int,
    gz: int,
)
    requires
        structure_margin(chunk_pos),
        pos.spec_chunk_pos() == chunk_pos,
        spec_structure_block(seed, pos, site) is Some,
        -2 <= site.origin.x - 10 * gx <= 2,
        -2 <= site.origin.z - 10 * gz <= 2,
    ensures
        spec_structure_cells(chunk_pos).contains(((10 * gx) as i32, (10 * gz) as i32)),
{
    lemma_structure_reach(seed, pos, site);
    crate::position::lemma_block_round_trip(pos);
    let low_x = grid_low(chunk_pos.x as int);
    let low_z = grid_low(chunk_pos.z as int);
    let count_x = grid_high(chunk_pos.x as int) - low_x + 1;
    let count_z = grid_high(chunk_pos.z as int) - low_z + 1;
    assert(low_x <= gx <= grid_high(chunk_pos.x as int));
    assert(low_z <= gz <= grid_high(chunk_pos.z as int));
    lemma_grid_rows(chunk_pos, count_x as nat, gx - low_x, gz - low_z);
}

/// The grid point `column` steps along z on the `row`-th grid line stands
/// among the grid points of any number of grid lines beyond `row`.
proof fn lemma_grid_rows(chunk_pos: ChunkPos, rows: nat, row: int, column: int)
    requires
        0 <= row < rows,
        0 <= column <= grid_high(chunk_pos.z as int) - grid_low(chunk_pos.z as int),
    ensures
        grid_rows(chunk_pos, rows).contains(
            (
                (10 * (grid_low(chunk_pos.x as int) + row)) as i32,
                (10 * (grid_low(chunk_pos.z as int) + column)) as i32,
            ),
        ),
    decreases rows,
{
    let before = grid_rows(chunk_pos, (rows - 1) as nat);
    let last = grid_row(
        grid_low(chunk_pos.x as int) + rows - 1,
        grid_low(chunk_pos.z as int),
        (grid_high(chunk_pos.z as int) - grid_low(chunk_pos.z as int) + 1) as nat,
    );
    let cell = (
        (10 * (grid_low(chunk_pos.x as int) + row)) as i32,
        (10 * (grid_low(chunk_pos.z as int) + column)) as i32,
    );
    if row == rows - 1 {
        assert(last[column] == cell);
        assert((before + last)[before.len() + column] == cell);
    } else {
        lemma_grid_rows(chunk_pos, (rows - 1) as nat, row, column);
        let k = choose|k: int| 0 <= k < before.len() && before[k] == cell;
        assert((before + last)[k] == cell);
    }
}

/// Generation is repeatable: what is generated depends on the world's
/// seed and on what is asked for, and on nothing else. Two generators of
/// one seed place the same structures and make the same chunks.
pub proof fn lemma_generation_repeatable(
    first: LevelGenerator,
    second: LevelGenerator,
    chunk_pos: ChunkPos,
    terrain: TerrainView,
    sites: Seq<StructureSite>,
    base_x: i32,
    base_z: i32,
    base_height: i32,
)
    requires
        first.spec_seed() == second.spec_seed(),
    ensures
        first.spec_chunk(chunk_pos, terrain, sites) == second.spec_chunk(chunk_pos, terrain, sites),
        first.spec_structure_site(base_x, base_z, base_height) == second.spec_structure_site(
            base_x,
            base_z,
            base_height,
        ),
{
    assert(first.spec_chunk(chunk_pos, terrain, sites) =~= second.spec_chunk(
        chunk_pos,
        terrain,
        sites,
    ));
}

/// Generation is seamless: the block a generated chunk holds at a place
/// is the ground there with the structures over it, and what the
/// structures put there depends on the world's seed, the place in the
/// world and the structures, not on the chunk the place is generated
/// with.
pub proof fn lemma_generation_seamless(
    generator: LevelGenerator,
    terrain: TerrainView,
    sites: Seq<StructureSite>,
    pos: BlockPos,
)
    ensures
        generator.spec_chunk(pos.spec_chunk_pos(), terrain, sites)[pos.spec_local_pos().spec_index()]
            == with_structures(
            generator.spec_seed(),
            sites,
            sites.len(),
            pos,
            terrain.ground(pos.spec_local_pos()),
        ),
{
    crate::position::lemma_block_round_trip(pos);
    crate::position::lemma_position_round_trip(pos.spec_local_pos());
}

/// A structure that does not reach a place changes nothing there: with a
/// further structure that puts no block at `pos`, the same block comes
/// out at `pos`.
pub proof fn lemma_unreaching_structure(
    seed: u32,
    sites: Seq<StructureSite>,
    extra: StructureSite,
    pos: BlockPos,
    ground: Block,
)
    requires
        spec_structure_block(seed, pos, extra) is None,
    ensures
        with_structures(seed, sites.push(extra), sites.len() + 1, pos, ground) == with_structures(
            seed,
            sites,
            sites.len(),
            pos,
            ground,
        ),
{
    lemma_with_structures_prefix(seed, sites, sites.push(extra), sites.len(), pos, ground);
}

/// The block under the first `n` structures depends on those `n`
/// structures alone.
proof fn lemma_with_structures_prefix(
    seed: u32,
    a: Seq<StructureSite>,
    b: Seq<StructureSite>,
    n: nat,
    pos: BlockPos,
    ground: Block,
)
    requires
        n <= a.len(),
        n <= b.len(),
        forall|k: int| 0 <= k < n ==> a[k] == b[k],
    ensures
        with_structures(seed, a, n, pos, ground) == with_structures(seed, b, n, pos, ground),
    decreases n,
{
    if n > 0 {
        lemma_with_structures_prefix(seed, a, b, (n - 1) as nat, pos, ground);
    }
}

} // verus!
