//! Block kinds and their fixed attributes.

use crate::item::{Item, ItemKind, Material, ToolPart};
use crate::level::Level;
use crate::position::BlockPos;
use crate::voxel_mesh::{MeshView, VoxelFace, VoxelMesh};
use rand::Rng;
use vstd::prelude::*;

verus! {

/// Which faces of a block can be seen: those whose neighbour is not solid.
#[derive(Debug, Clone, Copy, PartialEq, Eq, Structural)]
pub struct BlockFaces {
    pub left: bool,
    pub right: bool,
    pub front: bool,
    pub back: bool,
    pub top: bool,
    pub bottom: bool,
}

impl BlockFaces {
    /// Whether `face` can be seen.
    pub open spec fn spec_get(self, face: VoxelFace) -> bool {
        match face {
            VoxelFace::Left => self.left,
            VoxelFace::Right => self.right,
            VoxelFace::Front => self.front,
            VoxelFace::Back => self.back,
            VoxelFace::Top => self.top,
            VoxelFace::Bottom => self.bottom,
        }
    }

    /// How many faces can be seen.
    pub open spec fn count(self) -> nat {
        let one = |b: bool| if b { 1nat } else { 0nat };
        one(self.left) + one(self.right) + one(self.front) + one(self.back) + one(self.top) + one(
            self.bottom,
        )
    }

    #[verifier::when_used_as_spec(spec_get)]
    pub fn get(self, face: VoxelFace) -> (visible: bool)
        ensures
            visible == self.spec_get(face),
    {
        match face {
            VoxelFace::Left => self.left,
            VoxelFace::Right => self.right,
            VoxelFace::Front => self.front,
            VoxelFace::Back => self.back,
            VoxelFace::Top => self.top,
            VoxelFace::Bottom => self.bottom,
        }
    }
}

/// The order in which the faces of a block are added to a mesh.
pub open spec fn face_order() -> Seq<VoxelFace> {
    seq![
        VoxelFace::Left,
        VoxelFace::Right,
        VoxelFace::Front,
        VoxelFace::Back,
        VoxelFace::Top,
        VoxelFace::Bottom,
    ]
}

/// `mesh` with the first `n` faces, in [`face_order`], of the block
/// `block` at `pos` added, as far as `faces` shows them and the block has a
/// texture for them.
pub open spec fn mesh_with_faces(
    mesh: MeshView,
    level: Level,
    pos: BlockPos,
    block: Block,
    faces: BlockFaces,
    n: nat,
) -> MeshView
    decreases n,
{
    if n == 0 {
        mesh
    } else {
        let before = mesh_with_faces(mesh, level, pos, block, faces, (n - 1) as nat);
        let face = face_order()[n - 1];
        match block.spec_texture(face) {
            Some(tex_index) if faces.spec_get(face) => before.with_face(
                level,
                pos,
                face,
                tex_index,
            ),
            _ => before,
        }
    }
}

/// `mesh` with every face of the block that `faces` shows added.
pub open spec fn mesh_with_block(
    mesh: MeshView,
    level: Level,
    pos: BlockPos,
    block: Block,
    faces: BlockFaces,
) -> MeshView {
    mesh_with_faces(mesh, level, pos, block, faces, 6)
}

/// Adding a block adds four vertices and six indices for each face shown,
/// unless the block is air, which adds nothing.
pub proof fn lemma_block_mesh_size(
    mesh: MeshView,
    level: Level,
    pos: BlockPos,
    block: Block,
    faces: BlockFaces,
)
    ensures
        mesh_with_block(mesh, level, pos, block, faces).voxels.len() == mesh.voxels.len() + (
        if block is Air {
            0
        } else {
            4 * faces.count()
        }),
        mesh_with_block(mesh, level, pos, block, faces).indices.len() == mesh.indices.len() + (
        if block is Air {
            0
        } else {
            6 * faces.count()
        }),
{
    reveal_with_fuel(mesh_with_faces, 7);
}

/// Adding the first `n` faces of a block to a mesh made of whole faces
/// gives a mesh made of whole faces, with at most four more vertices for
/// each.
pub proof fn lemma_mesh_with_faces_wf(
    mesh: MeshView,
    level: Level,
    pos: BlockPos,
    block: Block,
    faces: BlockFaces,
    n: nat,
)
    requires
        mesh.wf(),
        n <= 6,
        mesh.voxels.len() + 4 * n <= u32::MAX,
    ensures
        mesh_with_faces(mesh, level, pos, block, faces, n).wf(),
        mesh.voxels.len() <= mesh_with_faces(mesh, level, pos, block, faces, n).voxels.len()
            <= mesh.voxels.len() + 4 * n,
    decreases n,
{
    if n > 0 {
        lemma_mesh_with_faces_wf(mesh, level, pos, block, faces, (n - 1) as nat);
        let before = mesh_with_faces(mesh, level, pos, block, faces, (n - 1) as nat);
        let face = face_order()[n - 1];
        match block.spec_texture(face) {
            Some(tex_index) => {
                crate::voxel_mesh::lemma_with_face_wf(before, level, pos, face, tex_index);
            },
            None => {},
        }
    }
}

/// Faces are culled against solid neighbours: a block whose six
/// neighbours are all solid adds nothing to a mesh, and a block other than
/// air with no solid neighbour adds all six faces, which are 24 vertices
/// and 36 indices.
pub proof fn lemma_face_culling(mesh: MeshView, level: Level, pos: BlockPos, block: Block)
    ensures
        level.spec_visible_faces(pos).count() == 0 ==> mesh_with_block(
            mesh,
            level,
            pos,
            block,
            level.spec_visible_faces(pos),
        ) == mesh,
        level.spec_visible_faces(pos).count() == 0 <==> level.solid_at(pos.offset(-1, 0, 0))
            && level.solid_at(pos.offset(1, 0, 0)) && level.solid_at(pos.offset(0, 0, 1))
            && level.solid_at(pos.offset(0, 0, -1)) && level.solid_at(pos.offset(0, 1, 0))
            && level.solid_at(pos.offset(0, -1, 0)),
        level.spec_visible_faces(pos).count() == 6 <==> !level.solid_at(pos.offset(-1, 0, 0))
            && !level.solid_at(pos.offset(1, 0, 0)) && !level.solid_at(pos.offset(0, 0, 1))
            && !level.solid_at(pos.offset(0, 0, -1)) && !level.solid_at(pos.offset(0, 1, 0))
            && !level.solid_at(pos.offset(0, -1, 0)),
        level.spec_visible_faces(pos).count() == 6 && !(block is Air) ==> {
            let after = mesh_with_block(mesh, level, pos, block, level.spec_visible_faces(pos));
            &&& after.voxels.len() == mesh.voxels.len() + 24
            &&& after.indices.len() == mesh.indices.len() + 36
        },
{
    reveal_with_fuel(mesh_with_faces, 7);
    lemma_block_mesh_size(mesh, level, pos, block, level.spec_visible_faces(pos));
}

/// The kinds of block a cell of the world can hold.
#[derive(Debug, Clone, Copy, PartialEq, Eq, Structural)]
pub enum Block {
    Air,
    Rock,
    Dirt,
    Grass,
    Leaves,
    Wood,
    Sand,
    Water,
    Gravel,
}

impl Default for Block {
    fn default() -> (block: Self)
        ensures
            block == Block::Air,
    {
        Block::Air
    }
}

impl Block {
    /// Whether the block stops movement and hides the faces behind it.
    pub open spec fn spec_is_solid(self) -> bool {
        !(self is Air || self is Leaves || self is Water)
    }

    /// Whether a player holding `item` can break the block: soil-like
    /// blocks and leaves by hand, rock only with a pickaxe, the rest never.
    pub open spec fn spec_is_breakable_by(self, item: Option<Item>) -> bool {
        match self {
            Block::Dirt | Block::Grass | Block::Sand | Block::Gravel | Block::Leaves => true,
            Block::Rock => item is Some && item->0.kind.is_pickaxe(),
            Block::Air | Block::Wood | Block::Water => false,
        }
    }

    /// What breaking the block leaves behind, given how its two chance
    /// draws came out.
    pub open spec fn spec_drops_given(self, first: bool, second: bool) -> Seq<Item> {
        let one = |kind: ItemKind| Item { kind, count: 1 };
        match self {
            Block::Leaves => (if first {
                seq![one(ItemKind::Twig)]
            } else {
                seq![]
            }) + (if second {
                seq![one(ItemKind::PlantFiber)]
            } else {
                seq![]
            }),
            Block::Grass => seq![one(ItemKind::Soil)] + (if first {
                seq![one(ItemKind::PlantFiber)]
            } else {
                seq![]
            }),
            Block::Gravel => if first {
                seq![one(ItemKind::Flint)]
            } else {
                seq![]
            },
            Block::Dirt => seq![one(ItemKind::Soil), one(ItemKind::SmallBottle)],
            Block::Sand => seq![
                one(ItemKind::Handle(ToolPart::fresh(Material::Twig))),
                one(ItemKind::PickaxeHead(ToolPart::fresh(Material::Flint))),
                one(ItemKind::Binding(ToolPart::fresh(Material::PlantFiber))),
                one(
                    ItemKind::Pickaxe {
                        handle: ToolPart::fresh(Material::Twig),
                        binding: ToolPart::fresh(Material::PlantFiber),
                        head: ToolPart::fresh(Material::Flint),
                    },
                ),
            ],
            _ => seq![],
        }
    }

    /// The chance, as `(numerator, denominator)`, of the block's first and
    /// second chance draw; `(0, 1)` where the block has no such draw.
    pub open spec fn drop_chances(self) -> ((u32, u32), (u32, u32)) {
        match self {
            Block::Leaves => ((1, 10), (1, 40)),
            Block::Grass => ((1, 10), (0, 1)),
            Block::Gravel => ((1, 10), (0, 1)),
            _ => ((0, 1), (0, 1)),
        }
    }

    /// The texture layer of the block's face `face`; air has none.
    pub open spec fn spec_texture(self, face: VoxelFace) -> Option<u32> {
        match self {
            Block::Air => None,
            Block::Rock => Some(0),
            Block::Dirt => Some(1),
            Block::Grass => Some(
                if face is Top {
                    3
                } else if face is Bottom {
                    1
                } else {
                    2
                },
            ),
            Block::Leaves => Some(4),
            Block::Wood => Some(
                if face is Top || face is Bottom {
                    6
                } else {
                    5
                },
            ),
            Block::Sand => Some(7),
            Block::Water => Some(8),
            Block::Gravel => Some(9),
        }
    }

    #[verifier::when_used_as_spec(spec_texture)]
    pub fn texture(self, face: VoxelFace) -> (tex_index: Option<u32>)
        ensures
            tex_index == self.spec_texture(face),
    {
        match (self, face) {
            (Self::Air, _) => None,
            (Self::Rock, _) => Some(0),
            (Self::Dirt, _) => Some(1),
            (Self::Grass, VoxelFace::Top) => Some(3),
            (Self::Grass, VoxelFace::Bottom) => Some(1),
            (Self::Grass, _) => Some(2),
            (Self::Leaves, _) => Some(4),
            (Self::Wood, VoxelFace::Top | VoxelFace::Bottom) => Some(6),
            (Self::Wood, _) => Some(5),
            (Self::Sand, _) => Some(7),
            (Self::Water, _) => Some(8),
            (Self::Gravel, _) => Some(9),
        }
    }

    /// Adds to `mesh` every face of this block, standing at `block_pos`,
    /// that `faces` shows.
    pub fn render(self, mesh: &mut VoxelMesh, level: &Level, block_pos: BlockPos, faces: BlockFaces)
        requires
            block_pos.has_neighbors(),
            old(mesh)@.voxels.len() + 24 <= u32::MAX,
        ensures
            final(mesh)@ == mesh_with_block(old(mesh)@, *level, block_pos, self, faces),
    {
        let order = [
            VoxelFace::Left,
            VoxelFace::Right,
            VoxelFace::Front,
            VoxelFace::Back,
            VoxelFace::Top,
            VoxelFace::Bottom,
        ];
        assert(order@ =~= face_order());
        let mut k: usize = 0;
        while k < 6
            invariant
                k <= 6,
                order@ == face_order(),
                block_pos.has_neighbors(),
                old(mesh)@.voxels.len() + 24 <= u32::MAX,
                mesh@.voxels.len() <= old(mesh)@.voxels.len() + 4 * k,
                mesh@ == mesh_with_faces(old(mesh)@, *level, block_pos, self, faces, k as nat),
            decreases 6 - k,
        {
            let face = order[k];
            if faces.get(face) {
                match self.texture(face) {
                    Some(tex_index) => {
                        mesh.render_face(level, block_pos, face, tex_index);
                    },
                    None => {},
                }
            }
            k += 1;
        }
    }

    #[verifier::when_used_as_spec(spec_is_solid)]
    pub fn is_solid(self) -> (solid: bool)
        ensures
            solid == self.spec_is_solid(),
    {
        !matches!(self, Self::Air | Self::Leaves | Self::Water)
    }

    #[verifier::when_used_as_spec(spec_is_breakable_by)]
    pub fn is_breakable_by(self, item: Option<Item>) -> (breakable: bool)
        ensures
            breakable == self.spec_is_breakable_by(item),
    {
        match (item, self) {
            (_, Self::Dirt | Self::Grass | Self::Sand | Self::Gravel | Self::Leaves)
            | (Some(Item { kind: ItemKind::Pickaxe { .. }, .. }), Self::Rock) => true,
            (_, Self::Rock | Self::Air | Self::Wood | Self::Water) => false,
        }
    }

    /// The items the block leaves behind when its chance draws came out as
    /// `first` and `second`.
    pub fn drops_given(self, first: bool, second: bool) -> (items: Vec<Item>)
        ensures
            items@ == self.spec_drops_given(first, second),
    {
        let mut items: Vec<Item> = Vec::new();
        match self {
            Self::Leaves => {
                if first {
                    items.push(Item::new(ItemKind::Twig, 1));
                }
                if second {
                    items.push(Item::new(ItemKind::PlantFiber, 1));
                }
            },
            Self::Grass => {
                items.push(Item::new(ItemKind::Soil, 1));
                if first {
                    items.push(Item::new(ItemKind::PlantFiber, 1));
                }
            },
            Self::Gravel => {
                if first {
                    items.push(Item::new(ItemKind::Flint, 1));
                }
            },
            Self::Dirt => {
                items.push(Item::new(ItemKind::Soil, 1));
                items.push(Item::new(ItemKind::SmallBottle, 1));
            },
            Self::Sand => {
                items.push(Item::new(ItemKind::Handle(ToolPart::new(Material::Twig)), 1));
                items.push(Item::new(ItemKind::PickaxeHead(ToolPart::new(Material::Flint)), 1));
                items.push(Item::new(ItemKind::Binding(ToolPart::new(Material::PlantFiber)), 1));
                items.push(
                    Item::new(
                        ItemKind::Pickaxe {
                            handle: ToolPart::new(Material::Twig),
                            binding: ToolPart::new(Material::PlantFiber),
                            head: ToolPart::new(Material::Flint),
                        },
                        1,
                    ),
                );
            },
            _ => {},
        }
        items
    }

    /// The items the block leaves behind when broken. Leaves, grass and
    /// gravel draw their extra items by chance; whatever the draws give,
    /// the result is what [`Block::drops_given`] makes of them, and a draw
    /// the block does not have counts as failed.
    pub fn drops(&self) -> (items: Vec<Item>)
        ensures
            exists|first: bool, second: bool|
                {
                    &&& items@ == self.spec_drops_given(first, second)
                    &&& (self.drop_chances().0.0 == 0 ==> !first)
                    &&& (self.drop_chances().1.0 == 0 ==> !second)
                },
    {
        let (first, second) = match self {
            Self::Leaves => {
                let first = chance(1, 10);
                let second = chance(1, 40);
                (first, second)
            },
            Self::Grass | Self::Gravel => (chance(1, 10), false),
            _ => (false, false),
        };
        self.drops_given(first, second)
    }
}

/// One draw from the thread's random generator, `rand::rng()`, through
/// `Rng::random_ratio`: true with chance `numerator` in `denominator`.
/// The draw is never true when `numerator` is zero and always true when the
/// two are equal; nothing else is known of a single outcome. The thread's
/// generator is seeded from the operating system when it is first used, and
/// nothing is promised should that fail.
#[verifier::external_body]
fn chance(numerator: u32, denominator: u32) -> (hit: bool)
    requires
        0 < denominator,
        numerator <= denominator,
    ensures
        numerator == 0 ==> !hit,
        numerator == denominator ==> hit,
{
    rand::rng().random_ratio(numerator, denominator)
}

} // verus!
