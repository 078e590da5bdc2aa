use bevy::ecs::entity::Entity;
use voxel_world::block::Block;
use voxel_world::chunk::Chunk;
use voxel_world::interaction::{
    break_stage, edit_block, face_from_normal, BlockInteraction, FocusedBlock,
};
use voxel_world::level::Level;
use voxel_world::physics::get_potential_collisions;
use voxel_world::position::{BlockPos, ChunkPos, LocalPos};
use voxel_world::voxel_mesh::VoxelFace;

#[test]
fn faces_from_normals() {
    assert_eq!(face_from_normal(-1, 0, 0), VoxelFace::Left);
    assert_eq!(face_from_normal(1, 0, 0), VoxelFace::Right);
    assert_eq!(face_from_normal(0, -1, 0), VoxelFace::Bottom);
    assert_eq!(face_from_normal(0, 1, 0), VoxelFace::Top);
    assert_eq!(face_from_normal(0, 0, -1), VoxelFace::Back);
    assert_eq!(face_from_normal(0, 0, 1), VoxelFace::Front);
    assert_eq!(face_from_normal(0, 0, 0), VoxelFace::Front);
    assert_eq!(face_from_normal(-1, 1, 1), VoxelFace::Left);
}

#[test]
fn break_stages_run_from_one_to_eleven() {
    let pos = BlockPos::new(1, 2, 3);
    assert_eq!(break_stage(pos, None, 5), 1);
    assert_eq!(break_stage(pos, Some(BlockPos::new(1, 2, 4)), 5), 1);
    assert_eq!(break_stage(pos, Some(pos), 0), 1);
    assert_eq!(break_stage(pos, Some(pos), 5), 6);
    assert_eq!(break_stage(pos, Some(pos), 9), 10);
    assert_eq!(break_stage(pos, Some(pos), 10), 11);
    assert_eq!(break_stage(pos, Some(pos), u32::MAX), 11);
}

#[test]
fn focus_keeps_solid_hit_and_free_cell() {
    let mut level = Level::new();
    level.insert(ChunkPos::new(0, 0, 0), Chunk::new(), Entity::from_raw(0));
    level.set_block(BlockPos::new(2, 2, 2), Block::Rock);
    level.set_block(BlockPos::new(2, 3, 2), Block::Water);
    let focus = FocusedBlock::from_hit(&level, BlockPos::new(2, 2, 2), BlockPos::new(3, 2, 2), VoxelFace::Right);
    assert_eq!(
        focus,
        FocusedBlock {
            block_pos: Some(BlockPos::new(2, 2, 2)),
            air_pos: Some(BlockPos::new(3, 2, 2)),
            face: Some(VoxelFace::Right),
        }
    );
    // water in front of the face: no room to place a block
    let focus = FocusedBlock::from_hit(&level, BlockPos::new(2, 2, 2), BlockPos::new(2, 3, 2), VoxelFace::Top);
    assert_eq!(focus.block_pos, Some(BlockPos::new(2, 2, 2)));
    assert_eq!(focus.air_pos, None);
    // the ray hit air
    let focus = FocusedBlock::from_hit(&level, BlockPos::new(9, 9, 9), BlockPos::new(9, 9, 8), VoxelFace::Back);
    assert_eq!(focus.block_pos, None);
    assert_eq!(focus.air_pos, Some(BlockPos::new(9, 9, 8)));
    assert_eq!(focus.face, Some(VoxelFace::Back));
    assert_eq!(FocusedBlock::default(), FocusedBlock { block_pos: None, air_pos: None, face: None });
}

#[test]
fn edits_report_stale_entities() {
    let mut level = Level::new();
    level.insert(ChunkPos::new(0, 0, 0), Chunk::new(), Entity::from_raw(1));
    level.insert(ChunkPos::new(-1, 0, 0), Chunk::new(), Entity::from_raw(2));
    level.insert(ChunkPos::new(0, 0, 1), Chunk::new(), Entity::from_raw(3));
    // inside the chunk only the chunk itself is stale
    assert_eq!(edit_block(&mut level, BlockPos::new(5, 5, 5), Block::Rock), vec![Entity::from_raw(1)]);
    assert_eq!(level.block(BlockPos::new(5, 5, 5)), Block::Rock);
    // on its boundary the loaded chunks beside it are stale too
    assert_eq!(
        edit_block(&mut level, BlockPos::new(0, 5, 5), Block::Rock),
        vec![Entity::from_raw(1), Entity::from_raw(2), Entity::from_raw(3)]
    );
    assert_eq!(
        edit_block(&mut level, BlockPos::new(5, 5, 5), Block::Air),
        vec![Entity::from_raw(1)]
    );
    assert_eq!(level.block(BlockPos::new(5, 5, 5)), Block::Air);
    // where no chunk is loaded nothing is set, but neighbours on the boundary are reported
    assert_eq!(edit_block(&mut level, BlockPos::new(16, 0, 0), Block::Rock), vec![Entity::from_raw(1)]);
    assert_eq!(level.block(BlockPos::new(16, 0, 0)), Block::Air);
    assert_eq!(edit_block(&mut level, BlockPos::new(40, 40, 40), Block::Rock), vec![]);
}

#[test]
fn highlight_set_and_unset() {
    let mut highlight = BlockInteraction::default();
    assert!(!highlight.is_set());
    assert_eq!(highlight.to_words(), [0, 0, 0, 0, 0]);
    highlight.set(LocalPos::new(1, 2, 3), VoxelFace::Front, 7);
    assert!(highlight.is_set());
    assert_eq!(highlight.to_words(), [1, 2, 3, 4, 7]);
    highlight.unset();
    assert!(!highlight.is_set());
    assert_eq!(highlight.to_words(), [1, 2, 3, 4, 0]);
    highlight.set(LocalPos::new(15, 0, 15), VoxelFace::Top, 0);
    assert!(!highlight.is_set());
    assert_eq!(highlight.to_words(), [15, 0, 15, 0, 0]);
}

#[test]
fn collisions_list_solid_blocks_in_the_box() {
    let mut level = Level::new();
    level.insert(ChunkPos::new(0, 0, 0), Chunk::new(), Entity::from_raw(0));
    level.insert(ChunkPos::new(-1, 0, 0), Chunk::new(), Entity::from_raw(1));
    // a floor of rock at height 0 under the box, leaves and water in it
    for x in -3..3 {
        for z in 0..4 {
            level.set_block(BlockPos::new(x, 0, z), Block::Rock);
        }
    }
    level.set_block(BlockPos::new(0, 1, 1), Block::Leaves);
    level.set_block(BlockPos::new(0, 2, 1), Block::Water);
    level.set_block(BlockPos::new(1, 2, 2), Block::Wood);
    let found = get_potential_collisions(&level, BlockPos::new(-1, 0, 1), BlockPos::new(1, 2, 2));
    assert_eq!(
        found,
        vec![
            BlockPos::new(-1, 0, 1),
            BlockPos::new(-1, 0, 2),
            BlockPos::new(0, 0, 1),
            BlockPos::new(0, 0, 2),
            BlockPos::new(1, 0, 1),
            BlockPos::new(1, 0, 2),
            BlockPos::new(1, 2, 2),
        ]
    );
    assert_eq!(get_potential_collisions(&level, BlockPos::new(0, 1, 0), BlockPos::new(0, 5, 1)), vec![]);
    assert_eq!(get_potential_collisions(&level, BlockPos::new(1, 0, 1), BlockPos::new(0, 0, 1)), vec![]);
    assert_eq!(
        get_potential_collisions(&level, BlockPos::new(2, 0, 3), BlockPos::new(2, 0, 3)),
        vec![BlockPos::new(2, 0, 3)]
    );
    assert_eq!(
        get_potential_collisions(&level, BlockPos::new(i32::MAX - 1, 0, 0), BlockPos::new(i32::MAX, 1, 1)),
        vec![]
    );
}
