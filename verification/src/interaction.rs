//! What the player points at, and the highlight that shows it.

use crate::block::Block;
use crate::level::Level;
use crate::position::{BlockPos, LocalPos};
use crate::voxel_mesh::VoxelFace;
use bevy::ecs::entity::Entity;
use vstd::prelude::*;

verus! {

/// Number of stages in which a block visibly breaks.
pub const BREAK_STAGES: u32 = 10;

/// The block the player points at and the free cell in front of it.
#[derive(Debug, Clone, Copy, PartialEq, Eq, Structural)]
pub struct FocusedBlock {
    /// The block pointed at, if the ray hit one.
    pub block_pos: Option<BlockPos>,
    /// The cell in front of the face that was hit, if it is free.
    pub air_pos: Option<BlockPos>,
    /// The face that was hit.
    pub face: Option<VoxelFace>,
}

impl Default for FocusedBlock {
    fn default() -> (focus: Self)
        ensures
            focus == FocusedBlock::nothing(),
    {
        Self { block_pos: None, air_pos: None, face: None }
    }
}

/// The face of a block whose outward normal is `(x, y, z)`: the first axis
/// along which the normal is not zero decides, x before y before z, and a
/// zero normal counts as pointing to the front.
pub open spec fn spec_face_from_normal(x: int, y: int, z: int) -> VoxelFace {
    if x < 0 {
        VoxelFace::Left
    } else if x > 0 {
        VoxelFace::Right
    } else if y < 0 {
        VoxelFace::Bottom
    } else if y > 0 {
        VoxelFace::Top
    } else if z < 0 {
        VoxelFace::Back
    } else {
        VoxelFace::Front
    }
}

/// The stage of breaking to show on the focused block: one more than the
/// tenths of the work done, at most eleven, if the focused block is the
/// one being broken, and one otherwise.
pub open spec fn spec_break_stage(focused: BlockPos, breaking: Option<BlockPos>, tenths: u32) -> u32 {
    if breaking == Some(focused) {
        if tenths < BREAK_STAGES {
            (tenths + 1) as u32
        } else {
            (BREAK_STAGES + 1) as u32
        }
    } else {
        1
    }
}

/// The face of a block whose outward normal is `(x, y, z)`.
pub fn face_from_normal(x: i32, y: i32, z: i32) -> (face: VoxelFace)
    ensures
        face == spec_face_from_normal(x as int, y as int, z as int),
{
    if x < 0 {
        VoxelFace::Left
    } else if x > 0 {
        VoxelFace::Right
    } else if y < 0 {
        VoxelFace::Bottom
    } else if y > 0 {
        VoxelFace::Top
    } else if z < 0 {
        VoxelFace::Back
    } else {
        VoxelFace::Front
    }
}

/// The stage of breaking to show on the focused block.
pub fn break_stage(focused: BlockPos, breaking: Option<BlockPos>, tenths: u32) -> (stage: u32)
    ensures
        stage == spec_break_stage(focused, breaking, tenths),
        1 <= stage <= BREAK_STAGES + 1,
{
    match breaking {
        Some(pos) => {
            if pos == focused {
                if tenths < BREAK_STAGES {
                    tenths + 1
                } else {
                    BREAK_STAGES + 1
                }
            } else {
                1
            }
        },
        None => 1,
    }
}

impl FocusedBlock {
    /// Nothing is pointed at.
    pub open spec fn nothing() -> FocusedBlock {
        FocusedBlock { block_pos: None, air_pos: None, face: None }
    }

    /// The focus after a ray hit the face `face` of the block at `hit`,
    /// with `beside` the cell in front of that face: the block counts if it
    /// is not air, the cell if it is air.
    pub open spec fn spec_from_hit(level: Level, hit: BlockPos, beside: BlockPos, face: VoxelFace)
        -> FocusedBlock {
        FocusedBlock {
            block_pos: if level.block_at(hit) != Block::Air {
                Some(hit)
            } else {
                None
            },
            air_pos: if level.block_at(beside) == Block::Air {
                Some(beside)
            } else {
                None
            },
            face: Some(face),
        }
    }

    /// The focus after a ray hit the face `face` of the block at `hit`.
    pub fn from_hit(level: &Level, hit: BlockPos, beside: BlockPos, face: VoxelFace) -> (focus: Self)
        ensures
            focus == Self::spec_from_hit(*level, hit, beside, face),
    {
        let block_pos = if level.block(hit) != Block::Air {
            Some(hit)
        } else {
            None
        };
        let air_pos = if level.block(beside) == Block::Air {
            Some(beside)
        } else {
            None
        };
        Self { block_pos, air_pos, face: Some(face) }
    }
}

/// Sets the block at `pos` and hands back the entities whose meshes and
/// stored copies are stale afterwards: that of the chunk that holds `pos`,
/// if it is loaded, then those of the loaded chunks beside it, if `pos`
/// lies on the chunk's boundary.
pub fn edit_block(level: &mut Level, pos: BlockPos, block: Block) -> (stale: Vec<Entity>)
    ensures
        forall|q: BlockPos|
            #[trigger] final(level).block_at(q) == if q == pos && old(level).is_loaded(
                pos.spec_chunk_pos(),
            ) {
                block
            } else {
                old(level).block_at(q)
            },
        final(level)@.dom() == old(level)@.dom(),
        forall|c: crate::position::ChunkPos|
            old(level).is_loaded(c) ==> (#[trigger] final(level)@[c]).entity == old(
                level,
            )@[c].entity,
        stale@ == (if old(level).is_loaded(pos.spec_chunk_pos()) {
            seq![old(level)@[pos.spec_chunk_pos()].entity]
        } else {
            seq![]
        }) + old(level).spec_neighbors_to_update(pos.spec_chunk_pos(), pos.spec_local_pos()),
{
    let chunk_pos = pos.chunk_pos();
    let local_pos = pos.local_pos();
    let mut stale: Vec<Entity> = Vec::new();
    match level.set_block(pos, block) {
        Some(entity) => {
            stale.push(entity);
        },
        None => {},
    }
    let ghost own = stale@;
    let mut beside = level.neighbors_to_update(chunk_pos, local_pos);
    proof {
        lemma_same_entities(*old(level), *level, chunk_pos, local_pos);
    }
    stale.append(&mut beside);
    stale
}

/// Two stores that hold the same chunks with the same entities have the
/// same entities to update around any edit.
proof fn lemma_same_entities(
    a: Level,
    b: Level,
    chunk_pos: crate::position::ChunkPos,
    local_pos: LocalPos,
)
    requires
        a@.dom() == b@.dom(),
        forall|c: crate::position::ChunkPos|
            a.is_loaded(c) ==> (#[trigger] b@[c]).entity == a@[c].entity,
    ensures
        a.spec_neighbors_to_update(chunk_pos, local_pos) == b.spec_neighbors_to_update(
            chunk_pos,
            local_pos,
        ),
{
    reveal_with_fuel(Level::face_neighbors_upto, 7);
}

/// The cell and face to highlight in a chunk, and the stage of breaking to
/// show there; nothing is highlighted while the stage is zero.
#[derive(Debug, Clone, Copy, PartialEq, Eq, Structural)]
pub struct BlockInteraction {
    x: u32,
    y: u32,
    z: u32,
    face: u32,
    value: u32,
}

impl Default for BlockInteraction {
    fn default() -> (interaction: Self)
        ensures
            interaction.words() == seq![0u32, 0u32, 0u32, 0u32, 0u32],
    {
        Self { x: 0, y: 0, z: 0, face: 0, value: 0 }
    }
}

impl BlockInteraction {
    /// The five words of the highlight: the cell's coordinates, the
    /// face's number, and the stage.
    pub closed spec fn words(self) -> Seq<u32> {
        seq![self.x, self.y, self.z, self.face, self.value]
    }

    /// Whether anything is highlighted.
    pub open spec fn spec_is_set(&self) -> bool {
        self.words()[4] > 0
    }

    /// The highlight that these five words stand for.
    pub fn from_words(words: [u32; 5]) -> (interaction: Self)
        ensures
            interaction.words() == words@,
    {
        let interaction = Self {
            x: words[0],
            y: words[1],
            z: words[2],
            face: words[3],
            value: words[4],
        };
        assert(interaction.words() =~= words@);
        interaction
    }

    /// Highlights the face `face` of the cell at `pos` at stage `value`.
    pub fn set(&mut self, pos: LocalPos, face: VoxelFace, value: u32)
        ensures
            final(self).words() == seq![
                pos.x as u32,
                pos.y as u32,
                pos.z as u32,
                face.spec_id(),
                value,
            ],
    {
        self.x = #[verifier::truncate] (pos.x as u32);
        self.y = #[verifier::truncate] (pos.y as u32);
        self.z = #[verifier::truncate] (pos.z as u32);
        self.face = face.id();
        self.value = value;
    }

    /// Takes the highlight away; the cell and face stay as they were.
    pub fn unset(&mut self)
        ensures
            final(self).words() == old(self).words().update(4, 0u32),
    {
        self.value = 0;
        assert(self.words() =~= old(self).words().update(4, 0u32));
    }

    #[verifier::when_used_as_spec(spec_is_set)]
    pub fn is_set(&self) -> (set: bool)
        ensures
            set == self.spec_is_set(),
    {
        self.value > 0
    }

    /// The five words of the highlight, as the shader reads them.
    pub fn to_words(&self) -> (words: [u32; 5])
        ensures
            words@ == self.words(),
    {
        let words = [self.x, self.y, self.z, self.face, self.value];
        assert(words@ =~= self.words());
        words
    }
}

} // verus!
