//! A chunk: the blocks of one 16 x 16 x 16 cube of the world.

use crate::block::{mesh_with_block, Block};
use crate::level::Level;
use crate::position::{ChunkPos, LocalPos, CHUNK_INDICES};
use crate::voxel_mesh::{MeshView, VoxelMesh};
use vstd::prelude::*;

verus! {

/// The blocks of one chunk, stored by flat index.
#[derive(Debug)]
pub struct Chunk {
    blocks: Vec<Block>,
}

impl View for Chunk {
    type V = Seq<Block>;

    closed spec fn view(&self) -> Seq<Block> {
        self.blocks@
    }
}

/// The mesh of the first `n` cells, by flat index, of a chunk at
/// `chunk_pos` that holds `blocks`: for each cell that is not air, the
/// faces of its block whose neighbour in `level` is not solid.
pub open spec fn chunk_mesh(blocks: Seq<Block>, level: Level, chunk_pos: ChunkPos, n: nat) -> MeshView
    decreases n,
{
    if n == 0 {
        MeshView::empty()
    } else {
        let before = chunk_mesh(blocks, level, chunk_pos, (n - 1) as nat);
        let block = blocks[n - 1];
        let pos = LocalPos::spec_from_index(n - 1).spec_block_pos(chunk_pos);
        if block is Air {
            before
        } else {
            mesh_with_block(before, level, pos, block, level.spec_visible_faces(pos))
        }
    }
}

/// The mesh of a chunk is made of whole faces: it has four vertices and
/// six indices for each face, at most six faces for each cell, and every
/// index names one of its vertices.
pub proof fn lemma_chunk_mesh_wf(blocks: Seq<Block>, level: Level, chunk_pos: ChunkPos, n: nat)
    requires
        n <= CHUNK_INDICES,
    ensures
        chunk_mesh(blocks, level, chunk_pos, n).wf(),
        chunk_mesh(blocks, level, chunk_pos, n).voxels.len() <= 24 * n,
    decreases n,
{
    if n > 0 {
        lemma_chunk_mesh_wf(blocks, level, chunk_pos, (n - 1) as nat);
        let before = chunk_mesh(blocks, level, chunk_pos, (n - 1) as nat);
        let pos = LocalPos::spec_from_index(n - 1).spec_block_pos(chunk_pos);
        crate::block::lemma_mesh_with_faces_wf(
            before,
            level,
            pos,
            blocks[n - 1],
            level.spec_visible_faces(pos),
            6,
        );
    }
}

impl Clone for Chunk {
    fn clone(&self) -> (copy: Self)
        ensures
            copy@ == self@,
    {
        proof {
            use_type_invariant(self);
        }
        let blocks = self.blocks.clone();
        assert(blocks@ =~= self.blocks@);
        Self { blocks }
    }
}

impl Default for Chunk {
    fn default() -> (chunk: Self)
        ensures
            chunk@ == Seq::new(CHUNK_INDICES as nat, |i: int| Block::Air),
    {
        let mut blocks: Vec<Block> = Vec::new();
        let mut i: usize = 0;
        while i < CHUNK_INDICES
            invariant
                i <= CHUNK_INDICES,
                blocks@ == Seq::new(i as nat, |k: int| Block::Air),
            decreases CHUNK_INDICES - i,
        {
            blocks.push(Block::Air);
            i += 1;
        }
        Self { blocks }
    }
}

impl Chunk {
    /// The chunk holds exactly one block per flat index.
    #[verifier::type_invariant]
    pub open spec fn wf(self) -> bool {
        self@.len() == CHUNK_INDICES
    }

    /// The block at `pos`, air where `pos` is not a valid position.
    pub open spec fn block_at(self, pos: LocalPos) -> Block {
        if pos.is_valid() {
            self@[pos.spec_index()]
        } else {
            Block::Air
        }
    }

    /// A chunk of air.
    pub fn new() -> (chunk: Self)
        ensures
            chunk@ == Seq::new(CHUNK_INDICES as nat, |i: int| Block::Air),
    {
        Self::default()
    }

    /// A chunk holding `blocks` by flat index, if there are exactly 4096.
    pub fn from_blocks(blocks: Vec<Block>) -> (chunk: Option<Self>)
        ensures
            chunk is Some <==> blocks@.len() == CHUNK_INDICES,
            chunk is Some ==> chunk->0@ == blocks@,
    {
        if blocks.len() == CHUNK_INDICES {
            Some(Self { blocks })
        } else {
            None
        }
    }

    /// The chunk's blocks by flat index.
    pub fn blocks(&self) -> (blocks: &Vec<Block>)
        ensures
            blocks@ == self@,
            blocks@.len() == CHUNK_INDICES,
    {
        proof {
            use_type_invariant(self);
        }
        &self.blocks
    }

    /// The block at `pos`; air where `pos` lies outside the chunk.
    pub fn get(&self, pos: LocalPos) -> (block: Block)
        ensures
            block == self.block_at(pos),
            self.wf(),
    {
        proof {
            use_type_invariant(self);
        }
        if pos.in_bounds() {
            self.blocks[pos.index()]
        } else {
            Block::Air
        }
    }

    /// Puts `block` at `pos`; changes nothing where `pos` lies outside the
    /// chunk.
    pub fn set(&mut self, pos: LocalPos, block: Block)
        ensures
            old(self).wf(),
            final(self).wf(),
            final(self)@ == if pos.is_valid() {
                old(self)@.update(pos.spec_index(), block)
            } else {
                old(self)@
            },
    {
        proof {
            use_type_invariant(&*self);
        }
        if pos.in_bounds() {
            let index = pos.index();
            self.blocks[index] = block;
        }
    }

    /// The mesh of this chunk standing at `chunk_pos` in `level`: the
    /// visible faces of every block that is not air, cell by cell in the
    /// order of the flat index.
    pub fn render(&self, level: &Level, chunk_pos: ChunkPos) -> (mesh: VoxelMesh)
        requires
            chunk_pos.interior(),
        ensures
            mesh@ == chunk_mesh(self@, *level, chunk_pos, CHUNK_INDICES as nat),
            mesh@.wf(),
    {
        proof {
            use_type_invariant(self);
            lemma_chunk_mesh_wf(self@, *level, chunk_pos, CHUNK_INDICES as nat);
        }
        let mut mesh = VoxelMesh::new();
        let mut index: usize = 0;
        while index < CHUNK_INDICES
            invariant
                index <= CHUNK_INDICES,
                self.blocks@.len() == CHUNK_INDICES,
                chunk_pos.interior(),
                mesh@.voxels.len() <= 24 * index,
                mesh@ == chunk_mesh(self@, *level, chunk_pos, index as nat),
            decreases CHUNK_INDICES - index,
        {
            let block = self.blocks[index];
            if block != Block::Air {
                let block_pos = LocalPos::from_index(index).block_pos(chunk_pos);
                let faces = level.visible_faces(block_pos);
                proof {
                    crate::block::lemma_block_mesh_size(mesh@, *level, block_pos, block, faces);
                }
                block.render(&mut mesh, level, block_pos, faces);
            }
            index += 1;
        }
        mesh
    }
}

} // verus!
