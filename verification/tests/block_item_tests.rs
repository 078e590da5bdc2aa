use voxel_world::block::{Block, BlockFaces};
use voxel_world::item::{Item, ItemKind, Material, ToolPart};
use voxel_world::voxel_mesh::VoxelFace;

const ALL_BLOCKS: [Block; 9] = [
    Block::Air,
    Block::Rock,
    Block::Dirt,
    Block::Grass,
    Block::Leaves,
    Block::Wood,
    Block::Sand,
    Block::Water,
    Block::Gravel,
];

fn flint_pickaxe() -> Item {
    Item::new(
        ItemKind::Pickaxe {
            handle: ToolPart::new(Material::Twig),
            binding: ToolPart::new(Material::PlantFiber),
            head: ToolPart::new(Material::Flint),
        },
        1,
    )
}

#[test]
fn air_leaves_and_water_are_not_solid() {
    for block in ALL_BLOCKS {
        let expected = !matches!(block, Block::Air | Block::Leaves | Block::Water);
        assert_eq!(block.is_solid(), expected, "{:?}", block);
    }
    assert_eq!(Block::default(), Block::Air);
}

#[test]
fn soil_breaks_by_hand_and_rock_only_with_a_pickaxe() {
    for block in [Block::Dirt, Block::Grass, Block::Sand, Block::Gravel, Block::Leaves] {
        assert!(block.is_breakable_by(None));
        assert!(block.is_breakable_by(Some(Item::new(ItemKind::Twig, 3))));
        assert!(block.is_breakable_by(Some(flint_pickaxe())));
    }
    assert!(!Block::Rock.is_breakable_by(None));
    assert!(!Block::Rock.is_breakable_by(Some(Item::new(ItemKind::Flint, 1))));
    assert!(!Block::Rock.is_breakable_by(Some(Item::new(
        ItemKind::PickaxeHead(ToolPart::new(Material::Flint)),
        1
    ))));
    assert!(Block::Rock.is_breakable_by(Some(flint_pickaxe())));
    for block in [Block::Air, Block::Wood, Block::Water] {
        assert!(!block.is_breakable_by(None));
        assert!(!block.is_breakable_by(Some(flint_pickaxe())));
    }
}

#[test]
fn drops_follow_the_draws() {
    let one = |kind| Item::new(kind, 1);
    assert_eq!(Block::Leaves.drops_given(false, false), vec![]);
    assert_eq!(Block::Leaves.drops_given(true, false), vec![one(ItemKind::Twig)]);
    assert_eq!(Block::Leaves.drops_given(false, true), vec![one(ItemKind::PlantFiber)]);
    assert_eq!(
        Block::Leaves.drops_given(true, true),
        vec![one(ItemKind::Twig), one(ItemKind::PlantFiber)]
    );
    assert_eq!(Block::Grass.drops_given(false, true), vec![one(ItemKind::Soil)]);
    assert_eq!(
        Block::Grass.drops_given(true, false),
        vec![one(ItemKind::Soil), one(ItemKind::PlantFiber)]
    );
    assert_eq!(Block::Gravel.drops_given(false, false), vec![]);
    assert_eq!(Block::Gravel.drops_given(true, true), vec![one(ItemKind::Flint)]);
    assert_eq!(
        Block::Dirt.drops_given(true, true),
        vec![one(ItemKind::Soil), one(ItemKind::SmallBottle)]
    );
    assert_eq!(
        Block::Sand.drops_given(false, false),
        vec![
            one(ItemKind::Handle(ToolPart { material: Material::Twig, durability: 100 })),
            one(ItemKind::PickaxeHead(ToolPart { material: Material::Flint, durability: 200 })),
            one(ItemKind::Binding(ToolPart { material: Material::PlantFiber, durability: 100 })),
            flint_pickaxe(),
        ]
    );
    for block in [Block::Air, Block::Rock, Block::Wood, Block::Water] {
        assert_eq!(block.drops_given(true, true), vec![]);
    }
}

#[test]
fn drops_without_chance_are_fixed() {
    for _ in 0..20 {
        assert_eq!(Block::Dirt.drops(), Block::Dirt.drops_given(false, false));
        assert_eq!(Block::Sand.drops(), Block::Sand.drops_given(false, false));
        assert_eq!(Block::Rock.drops(), vec![]);
        assert_eq!(Block::Air.drops(), vec![]);
    }
}

#[test]
fn drops_with_chance_are_one_of_the_outcomes() {
    let mut with_fiber = 0;
    let mut without_fiber = 0;
    for _ in 0..2000 {
        let grass = Block::Grass.drops();
        if grass == Block::Grass.drops_given(true, false) {
            with_fiber += 1;
        } else {
            assert_eq!(grass, Block::Grass.drops_given(false, false));
            without_fiber += 1;
        }
        let leaves = Block::Leaves.drops();
        assert!([(false, false), (true, false), (false, true), (true, true)]
            .iter()
            .any(|&(a, b)| leaves == Block::Leaves.drops_given(a, b)));
        let gravel = Block::Gravel.drops();
        assert!(gravel.len() <= 1);
    }
    // one draw in ten succeeds: both outcomes show up in 2000 draws
    assert!(with_fiber > 0);
    assert!(without_fiber > with_fiber);
}

#[test]
fn textures_by_block_and_face() {
    let faces = [
        VoxelFace::Top,
        VoxelFace::Bottom,
        VoxelFace::Left,
        VoxelFace::Right,
        VoxelFace::Front,
        VoxelFace::Back,
    ];
    for face in faces {
        assert_eq!(Block::Air.texture(face), None);
        assert_eq!(Block::Rock.texture(face), Some(0));
        assert_eq!(Block::Dirt.texture(face), Some(1));
        assert_eq!(Block::Leaves.texture(face), Some(4));
        assert_eq!(Block::Sand.texture(face), Some(7));
        assert_eq!(Block::Water.texture(face), Some(8));
        assert_eq!(Block::Gravel.texture(face), Some(9));
    }
    assert_eq!(Block::Grass.texture(VoxelFace::Top), Some(3));
    assert_eq!(Block::Grass.texture(VoxelFace::Bottom), Some(1));
    assert_eq!(Block::Grass.texture(VoxelFace::Left), Some(2));
    assert_eq!(Block::Grass.texture(VoxelFace::Back), Some(2));
    assert_eq!(Block::Wood.texture(VoxelFace::Top), Some(6));
    assert_eq!(Block::Wood.texture(VoxelFace::Bottom), Some(6));
    assert_eq!(Block::Wood.texture(VoxelFace::Right), Some(5));
    assert_eq!(Block::Wood.texture(VoxelFace::Front), Some(5));
}

#[test]
fn block_faces_answer_by_face() {
    let faces = BlockFaces {
        left: true,
        right: false,
        front: true,
        back: false,
        top: true,
        bottom: false,
    };
    assert!(faces.get(VoxelFace::Left));
    assert!(!faces.get(VoxelFace::Right));
    assert!(faces.get(VoxelFace::Front));
    assert!(!faces.get(VoxelFace::Back));
    assert!(faces.get(VoxelFace::Top));
    assert!(!faces.get(VoxelFace::Bottom));
}

#[test]
fn material_durability_and_fresh_parts() {
    assert_eq!(Material::Twig.durability(), 100);
    assert_eq!(Material::PlantFiber.durability(), 100);
    assert_eq!(Material::Flint.durability(), 200);
    assert_eq!(Material::Glass.durability(), 100);
    assert_eq!(
        ToolPart::new(Material::Flint),
        ToolPart { material: Material::Flint, durability: 200 }
    );
    assert_eq!(Item::new(ItemKind::Soil, 7), Item { kind: ItemKind::Soil, count: 7 });
}

#[test]
fn raw_materials_and_bottles_stack() {
    let part = ToolPart::new(Material::Twig);
    for kind in [
        ItemKind::Twig,
        ItemKind::PlantFiber,
        ItemKind::Flint,
        ItemKind::Soil,
        ItemKind::Glass,
        ItemKind::SmallBottle,
        ItemKind::MediumBottle,
        ItemKind::LargeBottle,
    ] {
        assert!(kind.is_stackable());
    }
    for kind in [
        ItemKind::Handle(part),
        ItemKind::Binding(part),
        ItemKind::PickaxeHead(part),
        ItemKind::ShovelHead(part),
        ItemKind::Pickaxe { handle: part, binding: part, head: part },
        ItemKind::Shovel { handle: part, binding: part, head: part },
    ] {
        assert!(!kind.is_stackable());
    }
}

#[test]
fn labels_name_material_and_part() {
    assert_eq!(Material::PlantFiber.label(), "Plant Fiber");
    assert_eq!(Material::Twig.label(), "Twig");
    assert_eq!(ToolPart::new(Material::Glass).label(), "Glass");
    assert_eq!(ToolPart { material: Material::Flint, durability: 0 }.label(), "Broken Flint");
    assert_eq!(ItemKind::Soil.label(), "Soil");
    assert_eq!(ItemKind::LargeBottle.label(), "Large Bottle");
    assert_eq!(ItemKind::Handle(ToolPart::new(Material::Twig)).label(), "Twig Handle");
    assert_eq!(ItemKind::Binding(ToolPart::new(Material::PlantFiber)).label(), "Plant Fiber Binding");
    assert_eq!(
        ItemKind::PickaxeHead(ToolPart { material: Material::Flint, durability: 0 }).label(),
        "Broken Flint Pickaxe Head"
    );
    assert_eq!(ItemKind::ShovelHead(ToolPart::new(Material::Glass)).label(), "Glass Shovel Head");
    let twig = ToolPart::new(Material::Twig);
    let flint = ToolPart::new(Material::Flint);
    assert_eq!(ItemKind::Pickaxe { handle: twig, binding: twig, head: flint }.label(), "Flint Pickaxe");
    assert_eq!(ItemKind::Shovel { handle: flint, binding: flint, head: twig }.label(), "Twig Shovel");
}
