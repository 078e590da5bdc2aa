//! The mesh of a chunk: one packed word per vertex, six indices per face,
//! and the ambient occlusion of each face corner.

use crate::level::Level;
use crate::position::{BlockPos, LocalPos};
use vstd::prelude::*;

verus! {

/// A corner of a block face.
#[derive(Debug, Clone, Copy, PartialEq, Eq, PartialOrd, Ord, Structural)]
pub enum VoxelCorner {
    TopLeft,
    TopRight,
    BottomLeft,
    BottomRight,
}

/// A face of a block, named by the direction it looks in.
#[derive(Debug, Clone, Copy, PartialEq, Eq, Structural)]
pub enum VoxelFace {
    Top,
    Bottom,
    Left,
    Right,
    Front,
    Back,
}

impl VoxelCorner {
    /// The two-bit number of the corner in a packed vertex.
    pub open spec fn spec_to_index(self) -> u32 {
        match self {
            VoxelCorner::TopLeft => 0,
            VoxelCorner::TopRight => 1,
            VoxelCorner::BottomLeft => 2,
            VoxelCorner::BottomRight => 3,
        }
    }

    #[verifier::when_used_as_spec(spec_to_index)]
    pub fn to_index(self) -> (index: u32)
        ensures
            index == self.spec_to_index(),
    {
        match self {
            Self::TopLeft => 0,
            Self::TopRight => 1,
            Self::BottomLeft => 2,
            Self::BottomRight => 3,
        }
    }
}

impl VoxelFace {
    /// The three-bit number of the face in a packed vertex.
    pub open spec fn spec_id(self) -> u32 {
        match self {
            VoxelFace::Top => 0,
            VoxelFace::Bottom => 1,
            VoxelFace::Left => 2,
            VoxelFace::Right => 3,
            VoxelFace::Front => 4,
            VoxelFace::Back => 5,
        }
    }

    /// The direction the face looks in.
    pub open spec fn normal(self) -> (int, int, int) {
        match self {
            VoxelFace::Top => (0, 1, 0),
            VoxelFace::Bottom => (0, -1, 0),
            VoxelFace::Left => (-1, 0, 0),
            VoxelFace::Right => (1, 0, 0),
            VoxelFace::Front => (0, 0, 1),
            VoxelFace::Back => (0, 0, -1),
        }
    }

    /// The corners of the face in the order its four vertices are emitted.
    pub open spec fn corners(self) -> Seq<VoxelCorner> {
        match self {
            VoxelFace::Top | VoxelFace::Bottom => seq![
                VoxelCorner::BottomLeft,
                VoxelCorner::BottomRight,
                VoxelCorner::TopRight,
                VoxelCorner::TopLeft,
            ],
            _ => seq![
                VoxelCorner::BottomLeft,
                VoxelCorner::TopLeft,
                VoxelCorner::TopRight,
                VoxelCorner::BottomRight,
            ],
        }
    }

    /// The two triangles of the face, as positions among its four
    /// vertices; the order turns with the face so that both wind outward.
    pub open spec fn winding(self) -> Seq<int> {
        match self {
            VoxelFace::Top | VoxelFace::Left | VoxelFace::Front => seq![0, 1, 2, 0, 2, 3],
            VoxelFace::Bottom | VoxelFace::Right | VoxelFace::Back => seq![0, 2, 1, 0, 3, 2],
        }
    }

    /// For the vertex emitted at place `k`, the directions within the
    /// face's plane of the two edges that meet at it.
    pub open spec fn corner_sides(self, k: int) -> ((int, int, int), (int, int, int)) {
        let left = (-1, 0, 0);
        let right = (1, 0, 0);
        let down = (0, -1, 0);
        let up = (0, 1, 0);
        let back = (0, 0, -1);
        let front = (0, 0, 1);
        match self {
            VoxelFace::Top | VoxelFace::Bottom => if k == 0 {
                (left, front)
            } else if k == 1 {
                (right, front)
            } else if k == 2 {
                (right, back)
            } else {
                (left, back)
            },
            VoxelFace::Left | VoxelFace::Right => if k == 0 {
                (up, back)
            } else if k == 1 {
                (down, back)
            } else if k == 2 {
                (down, front)
            } else {
                (up, front)
            },
            VoxelFace::Front => if k == 0 {
                (left, up)
            } else if k == 1 {
                (left, down)
            } else if k == 2 {
                (right, down)
            } else {
                (right, up)
            },
            VoxelFace::Back => if k == 0 {
                (up, left)
            } else if k == 1 {
                (down, left)
            } else if k == 2 {
                (down, right)
            } else {
                (up, right)
            },
        }
    }

    #[verifier::when_used_as_spec(spec_id)]
    pub fn id(self) -> (id: u32)
        ensures
            id == self.spec_id(),
    {
        match self {
            Self::Top => 0,
            Self::Bottom => 1,
            Self::Left => 2,
            Self::Right => 3,
            Self::Front => 4,
            Self::Back => 5,
        }
    }
}

/// Occlusion level of a face corner from the solidity of the two cells
/// along its edges and of the cell diagonally across: 0 where both edge
/// cells are solid, 2 where none of the three is, 1 otherwise.
pub open spec fn spec_corner_ao(side1: bool, side2: bool, corner: bool) -> u32 {
    if side1 && side2 {
        0
    } else if !side1 && !side2 && !corner {
        2
    } else {
        1
    }
}

/// Occlusion level of the corner of the face `face` of the block at `pos`
/// whose vertex is emitted at place `k`.
pub open spec fn corner_occlusion(level: Level, pos: BlockPos, face: VoxelFace, k: int) -> u32 {
    let n = face.normal();
    let (a, b) = face.corner_sides(k);
    spec_corner_ao(
        level.solid_at(pos.offset(n.0 + a.0, n.1 + a.1, n.2 + a.2)),
        level.solid_at(pos.offset(n.0 + b.0, n.1 + b.1, n.2 + b.2)),
        level.solid_at(pos.offset(n.0 + a.0 + b.0, n.1 + a.1 + b.1, n.2 + a.2 + b.2)),
    )
}

/// Occlusion levels of the four vertices of a face, in emission order.
pub open spec fn spec_ambient_occlusion(level: Level, pos: BlockPos, face: VoxelFace) -> Seq<u32> {
    Seq::new(4, |k: int| corner_occlusion(level, pos, face, k))
}

/// The word that stands for one vertex: local position in bits 20 to 31
/// (four bits per axis, x highest), corner in bits 18 and 19, face in bits
/// 15 to 17, occlusion in bits 13 and 14, texture in bits 0 to 12.
pub open spec fn pack_vertex(
    pos: LocalPos,
    corner: VoxelCorner,
    face: VoxelFace,
    tex_index: u32,
    ao: u32,
) -> u32 {
    (((pos.x & 0x0F) as u32) << 28) | (((pos.y & 0x0F) as u32) << 24) | (((pos.z & 0x0F) as u32)
        << 20) | (corner.spec_to_index() << 18) | (face.spec_id() << 15) | ((ao & 0x3) << 13) | (
    tex_index & 0x1FFF)
}

/// Each part of a vertex can be read back from its word, as long as the
/// local position is valid and the occlusion level and the texture index
/// fit their bits.
pub proof fn lemma_pack_fields(
    pos: LocalPos,
    corner: VoxelCorner,
    face: VoxelFace,
    tex_index: u32,
    ao: u32,
)
    requires
        pos.is_valid(),
        tex_index < 0x2000,
        ao < 4,
    ensures
        (pack_vertex(pos, corner, face, tex_index, ao) >> 28) & 0x0F == pos.x,
        (pack_vertex(pos, corner, face, tex_index, ao) >> 24) & 0x0F == pos.y,
        (pack_vertex(pos, corner, face, tex_index, ao) >> 20) & 0x0F == pos.z,
        (pack_vertex(pos, corner, face, tex_index, ao) >> 18) & 0x03 == corner.spec_to_index(),
        (pack_vertex(pos, corner, face, tex_index, ao) >> 15) & 0x07 == face.spec_id(),
        (pack_vertex(pos, corner, face, tex_index, ao) >> 13) & 0x03 == ao,
        pack_vertex(pos, corner, face, tex_index, ao) & 0x1FFF == tex_index,
{
    let px = pos.x;
    let py = pos.y;
    let pz = pos.z;
    assert(px & 0x0F == px) by (bit_vector)
        requires
            px < 16,
    ;
    assert(py & 0x0F == py) by (bit_vector)
        requires
            py < 16,
    ;
    assert(pz & 0x0F == pz) by (bit_vector)
        requires
            pz < 16,
    ;
    let x = (pos.x & 0x0F) as u32;
    let y = (pos.y & 0x0F) as u32;
    let z = (pos.z & 0x0F) as u32;
    let c = corner.spec_to_index();
    let f = face.spec_id();
    let w = (x << 28) | (y << 24) | (z << 20) | (c << 18) | (f << 15) | ((ao & 0x3) << 13) | (
    tex_index & 0x1FFF);
    assert(w == pack_vertex(pos, corner, face, tex_index, ao));
    assert((w >> 28) & 0x0F == x && (w >> 24) & 0x0F == y && (w >> 20) & 0x0F == z && (w >> 18)
        & 0x03 == c && (w >> 15) & 0x07 == f && (w >> 13) & 0x03 == ao && w & 0x1FFF
        == tex_index) by (bit_vector)
        requires
            x < 16,
            y < 16,
            z < 16,
            c < 4,
            f < 8,
            ao < 4,
            tex_index < 0x2000,
            w == (x << 28) | (y << 24) | (z << 20) | (c << 18) | (f << 15) | ((ao & 0x3) << 13) | (
            tex_index & 0x1FFF),
    ;
}

/// The four vertex words of a face of the block at `pos`.
pub open spec fn face_voxels(level: Level, pos: BlockPos, face: VoxelFace, tex_index: u32) -> Seq<
    u32,
> {
    Seq::new(
        4,
        |k: int|
            pack_vertex(
                pos.spec_local_pos(),
                face.corners()[k],
                face,
                tex_index,
                corner_occlusion(level, pos, face, k),
            ),
    )
}

/// The six indices of a face whose first vertex has index `base`.
pub open spec fn face_indices(face: VoxelFace, base: int) -> Seq<u32> {
    Seq::new(6, |k: int| (base + face.winding()[k]) as u32)
}

/// What a mesh holds.
pub struct MeshView {
    /// One packed word per vertex.
    pub voxels: Seq<u32>,
    /// Three vertex indices per triangle.
    pub indices: Seq<u32>,
    /// The local position of each vertex.
    pub positions: Seq<LocalPos>,
}

impl MeshView {
    /// The mesh with no vertex.
    pub open spec fn empty() -> MeshView {
        MeshView { voxels: seq![], indices: seq![], positions: seq![] }
    }

    /// The mesh is made of whole faces: every vertex has a position, four
    /// vertices go with six indices, and every index names a vertex.
    pub open spec fn wf(self) -> bool {
        &&& self.positions.len() == self.voxels.len()
        &&& self.voxels.len() % 4 == 0
        &&& self.indices.len() * 4 == self.voxels.len() * 6
        &&& forall|i: int|
            0 <= i < self.indices.len() ==> (#[trigger] self.indices[i]) < self.voxels.len()
    }

    /// This mesh with one more vertex.
    pub open spec fn with_vertex(self, pos: LocalPos, word: u32) -> MeshView {
        MeshView {
            voxels: self.voxels.push(word),
            indices: self.indices,
            positions: self.positions.push(pos),
        }
    }

    /// This mesh with the face `face` of the block at `pos` added: four
    /// vertices and two triangles over them.
    pub open spec fn with_face(self, level: Level, pos: BlockPos, face: VoxelFace, tex_index: u32)
        -> MeshView {
        MeshView {
            voxels: self.voxels + face_voxels(level, pos, face, tex_index),
            indices: self.indices + face_indices(face, self.voxels.len() as int),
            positions: self.positions + Seq::new(4, |k: int| pos.spec_local_pos()),
        }
    }
}

/// Adding a face to a mesh made of whole faces gives a mesh made of whole
/// faces, with four more vertices and six more indices.
pub proof fn lemma_with_face_wf(
    mesh: MeshView,
    level: Level,
    pos: BlockPos,
    face: VoxelFace,
    tex_index: u32,
)
    requires
        mesh.wf(),
        mesh.voxels.len() + 4 <= u32::MAX,
    ensures
        mesh.with_face(level, pos, face, tex_index).wf(),
        mesh.with_face(level, pos, face, tex_index).voxels.len() == mesh.voxels.len() + 4,
        mesh.with_face(level, pos, face, tex_index).indices.len() == mesh.indices.len() + 6,
{
    let after = mesh.with_face(level, pos, face, tex_index);
    let added = face_indices(face, mesh.voxels.len() as int);
    assert forall|i: int| 0 <= i < after.indices.len() implies (#[trigger] after.indices[i])
        < after.voxels.len() by {
        if i < mesh.indices.len() {
            assert(after.indices[i] == mesh.indices[i]);
        } else {
            let k = i - mesh.indices.len();
            assert(after.indices[i] == added[k]);
            assert(0 <= face.winding()[k] <= 3);
        }
    }
}

/// Vertex words, triangle indices and vertex positions of a mesh under
/// construction.
#[derive(Debug, Default)]
pub struct VoxelMesh {
    voxels: Vec<u32>,
    indices: Vec<u32>,
    positions: Vec<LocalPos>,
}

impl View for VoxelMesh {
    type V = MeshView;

    closed spec fn view(&self) -> MeshView {
        MeshView { voxels: self.voxels@, indices: self.indices@, positions: self.positions@ }
    }
}

impl VoxelMesh {
    /// An empty mesh.
    pub fn new() -> (mesh: Self)
        ensures
            mesh@ == MeshView::empty(),
    {
        Self { voxels: Vec::new(), indices: Vec::new(), positions: Vec::new() }
    }

    /// The packed vertex words.
    pub fn voxels(&self) -> (voxels: &Vec<u32>)
        ensures
            voxels@ == self@.voxels,
    {
        &self.voxels
    }

    /// The triangle indices.
    pub fn indices(&self) -> (indices: &Vec<u32>)
        ensures
            indices@ == self@.indices,
    {
        &self.indices
    }

    /// The local position of each vertex.
    pub fn positions(&self) -> (positions: &Vec<LocalPos>)
        ensures
            positions@ == self@.positions,
    {
        &self.positions
    }

    /// Appends one vertex and returns its index.
    pub fn add_vertex(
        &mut self,
        pos: LocalPos,
        corner: VoxelCorner,
        face: VoxelFace,
        tex_index: u32,
        ao: u32,
    ) -> (index: u32)
        requires
            old(self)@.voxels.len() < u32::MAX,
        ensures
            final(self)@ == old(self)@.with_vertex(pos, pack_vertex(pos, corner, face, tex_index, ao)),
            index == old(self)@.voxels.len(),
    {
        self.positions.push(pos);
        let x = ((pos.x & 0x0F) as u32) << 28;
        let y = ((pos.y & 0x0F) as u32) << 24;
        let z = ((pos.z & 0x0F) as u32) << 20;
        let corner = (corner.to_index()) << 18;
        let face = (face.id()) << 15;
        let ao = (ao & 0x3) << 13;
        let tex_index = tex_index & 0x1FFF;
        let voxel = x | y | z | corner | face | ao | tex_index;
        self.voxels.push(voxel);
        (self.voxels.len() - 1) as u32
    }

    /// Appends the six indices of two triangles.
    pub fn add_indices(&mut self, indices: [u32; 6])
        ensures
            final(self)@ == (MeshView { indices: old(self)@.indices + indices@, ..old(self)@ }),
    {
        let mut k: usize = 0;
        while k < 6
            invariant
                k <= 6,
                self.voxels == old(self).voxels,
                self.positions == old(self).positions,
                self.indices@ == old(self).indices@ + indices@.subrange(0, k as int),
            decreases 6 - k,
        {
            self.indices.push(indices[k]);
            k += 1;
        }
        assert(indices@.subrange(0, 6) == indices@);
    }

    /// Occlusion levels of the four vertices of the face `face` of the block
    /// at `block_pos`, in emission order: each from the cells beside the
    /// face's plane along the corner's two edges and diagonally across.
    pub fn ambient_occlusion(&self, level: &Level, block_pos: BlockPos, face: VoxelFace) -> (ao: [
        u32;
        4
    ])
        requires
            block_pos.has_neighbors(),
        ensures
            ao@ == spec_ambient_occlusion(*level, block_pos, face),
            forall|k: int| 0 <= k < 4 ==> ao@[k] <= 2,
    {
        let ao = match face {
            VoxelFace::Top => {
                let top = block_pos.top();
                let s1 = level.block(top.back()).is_solid();
                let s2 = level.block(top.right()).is_solid();
                let s3 = level.block(top.front()).is_solid();
                let s4 = level.block(top.left()).is_solid();
                let c1 = level.block(top.back().left()).is_solid();
                let c2 = level.block(top.back().right()).is_solid();
                let c3 = level.block(top.front().right()).is_solid();
                let c4 = level.block(top.front().left()).is_solid();
                [
                    calculate_corner_ao(s4, s3, c4),
                    calculate_corner_ao(s2, s3, c3),
                    calculate_corner_ao(s2, s1, c2),
                    calculate_corner_ao(s4, s1, c1),
                ]
            },
            VoxelFace::Bottom => {
                let bottom = block_pos.bottom();
                let s1 = level.block(bottom.back()).is_solid();
                let s2 = level.block(bottom.right()).is_solid();
                let s3 = level.block(bottom.front()).is_solid();
                let s4 = level.block(bottom.left()).is_solid();
                let c1 = level.block(bottom.back().left()).is_solid();
                let c2 = level.block(bottom.back().right()).is_solid();
                let c3 = level.block(bottom.front().right()).is_solid();
                let c4 = level.block(bottom.front().left()).is_solid();
                [
                    calculate_corner_ao(s4, s3, c4),
                    calculate_corner_ao(s2, s3, c3),
                    calculate_corner_ao(s2, s1, c2),
                    calculate_corner_ao(s4, s1, c1),
                ]
            },
            VoxelFace::Left => {
                let left = block_pos.left();
                let s1 = level.block(left.back()).is_solid();
                let s2 = level.block(left.top()).is_solid();
                let s3 = level.block(left.front()).is_solid();
                let s4 = level.block(left.bottom()).is_solid();
                let c1 = level.block(left.bottom().back()).is_solid();
                let c2 = level.block(left.top().back()).is_solid();
                let c3 = level.block(left.top().front()).is_solid();
                let c4 = level.block(left.bottom().front()).is_solid();
                [
                    calculate_corner_ao(s2, s1, c2),
                    calculate_corner_ao(s4, s1, c1),
                    calculate_corner_ao(s4, s3, c4),
                    calculate_corner_ao(s2, s3, c3),
                ]
            },
            VoxelFace::Right => {
                let right = block_pos.right();
                let s1 = level.block(right.back()).is_solid();
                let s2 = level.block(right.top()).is_solid();
                let s3 = level.block(right.front()).is_solid();
                let s4 = level.block(right.bottom()).is_solid();
                let c1 = level.block(right.bottom().back()).is_solid();
                let c2 = level.block(right.top().back()).is_solid();
                let c3 = level.block(right.top().front()).is_solid();
                let c4 = level.block(right.bottom().front()).is_solid();
                [
                    calculate_corner_ao(s2, s1, c2),
                    calculate_corner_ao(s4, s1, c1),
                    calculate_corner_ao(s4, s3, c4),
                    calculate_corner_ao(s2, s3, c3),
                ]
            },
            VoxelFace::Front => {
                let front = block_pos.front();
                let s1 = level.block(front.bottom()).is_solid();
                let s2 = level.block(front.right()).is_solid();
                let s3 = level.block(front.top()).is_solid();
                let s4 = level.block(front.left()).is_solid();
                let c1 = level.block(front.bottom().left()).is_solid();
                let c2 = level.block(front.bottom().right()).is_solid();
                let c3 = level.block(front.top().right()).is_solid();
                let c4 = level.block(front.top().left()).is_solid();
                [
                    calculate_corner_ao(s4, s3, c4),
                    calculate_corner_ao(s4, s1, c1),
                    calculate_corner_ao(s2, s1, c2),
                    calculate_corner_ao(s2, s3, c3),
                ]
            },
            VoxelFace::Back => {
                let back = block_pos.back();
                let s1 = level.block(back.left()).is_solid();
                let s2 = level.block(back.top()).is_solid();
                let s3 = level.block(back.right()).is_solid();
                let s4 = level.block(back.bottom()).is_solid();
                let c1 = level.block(back.bottom().left()).is_solid();
                let c2 = level.block(back.bottom().right()).is_solid();
                let c3 = level.block(back.top().right()).is_solid();
                let c4 = level.block(back.top().left()).is_solid();
                [
                    calculate_corner_ao(s2, s1, c4),
                    calculate_corner_ao(s4, s1, c1),
                    calculate_corner_ao(s4, s3, c2),
                    calculate_corner_ao(s2, s3, c3),
                ]
            },
        };
        assert(ao@ =~= spec_ambient_occlusion(*level, block_pos, face));
        ao
    }

    /// Appends the face `face` of the block at `block_pos`: its four
    /// vertices with their occlusion levels, and two triangles over them.
    pub fn render_face(
        &mut self,
        level: &Level,
        block_pos: BlockPos,
        face: VoxelFace,
        tex_index: u32,
    )
        requires
            block_pos.has_neighbors(),
            old(self)@.voxels.len() + 4 <= u32::MAX,
        ensures
            final(self)@ == old(self)@.with_face(*level, block_pos, face, tex_index),
    {
        let pos = block_pos.local_pos();
        let ao = self.ambient_occlusion(level, block_pos, face);
        match face {
            VoxelFace::Top => {
                let a = self.add_vertex(pos, VoxelCorner::BottomLeft, face, tex_index, ao[0]);
                let b = self.add_vertex(pos, VoxelCorner::BottomRight, face, tex_index, ao[1]);
                let c = self.add_vertex(pos, VoxelCorner::TopRight, face, tex_index, ao[2]);
                let d = self.add_vertex(pos, VoxelCorner::TopLeft, face, tex_index, ao[3]);
                self.add_indices([a, b, c, a, c, d]);
            },
            VoxelFace::Bottom => {
                let a = self.add_vertex(pos, VoxelCorner::BottomLeft, face, tex_index, ao[0]);
                let b = self.add_vertex(pos, VoxelCorner::BottomRight, face, tex_index, ao[1]);
                let c = self.add_vertex(pos, VoxelCorner::TopRight, face, tex_index, ao[2]);
                let d = self.add_vertex(pos, VoxelCorner::TopLeft, face, tex_index, ao[3]);
                self.add_indices([a, c, b, a, d, c]);
            },
            VoxelFace::Left => {
                let a = self.add_vertex(pos, VoxelCorner::BottomLeft, face, tex_index, ao[0]);
                let b = self.add_vertex(pos, VoxelCorner::TopLeft, face, tex_index, ao[1]);
                let c = self.add_vertex(pos, VoxelCorner::TopRight, face, tex_index, ao[2]);
                let d = self.add_vertex(pos, VoxelCorner::BottomRight, face, tex_index, ao[3]);
                self.add_indices([a, b, c, a, c, d]);
            },
            VoxelFace::Right => {
                let a = self.add_vertex(pos, VoxelCorner::BottomLeft, face, tex_index, ao[0]);
                let b = self.add_vertex(pos, VoxelCorner::TopLeft, face, tex_index, ao[1]);
                let c = self.add_vertex(pos, VoxelCorner::TopRight, face, tex_index, ao[2]);
                let d = self.add_vertex(pos, VoxelCorner::BottomRight, face, tex_index, ao[3]);
                self.add_indices([a, c, b, a, d, c]);
            },
            VoxelFace::Front => {
                let a = self.add_vertex(pos, VoxelCorner::BottomLeft, face, tex_index, ao[0]);
                let b = self.add_vertex(pos, VoxelCorner::TopLeft, face, tex_index, ao[1]);
                let c = self.add_vertex(pos, VoxelCorner::TopRight, face, tex_index, ao[2]);
                let d = self.add_vertex(pos, VoxelCorner::BottomRight, face, tex_index, ao[3]);
                self.add_indices([a, b, c, a, c, d]);
            },
            VoxelFace::Back => {
                let a = self.add_vertex(pos, VoxelCorner::BottomLeft, face, tex_index, ao[0]);
                let b = self.add_vertex(pos, VoxelCorner::TopLeft, face, tex_index, ao[1]);
                let c = self.add_vertex(pos, VoxelCorner::TopRight, face, tex_index, ao[2]);
                let d = self.add_vertex(pos, VoxelCorner::BottomRight, face, tex_index, ao[3]);
                self.add_indices([a, c, b, a, d, c]);
            },
        }
        proof {
            let want = old(self)@.with_face(*level, block_pos, face, tex_index);
            assert(self@.voxels =~= want.voxels);
            assert(self@.indices =~= want.indices);
            assert(self@.positions =~= want.positions);
        }
    }
}

/// Occlusion level of a face corner; see [`spec_corner_ao`].
pub fn calculate_corner_ao(side1: bool, side2: bool, corner: bool) -> (ao: u32)
    ensures
        ao == spec_corner_ao(side1, side2, corner),
        ao <= 2,
{
    match (side1, side2, corner) {
        (true, true, _) => 0,
        (true, false, false) | (false, true, false) => 1,
        (false, false, true) => 1,
        (false, false, false) => 2,
        _ => 1,
    }
}

} // verus!
