use bevy::ecs::entity::Entity;
use voxel_world::block::{Block, BlockFaces};
use voxel_world::chunk::Chunk;
use voxel_world::level::{too_far, Level};
use voxel_world::position::{BlockPos, ChunkPos, LocalPos};

fn solid_chunk(block: Block) -> Chunk {
    Chunk::from_blocks(vec![block; 4096]).unwrap()
}

#[test]
fn new_chunk_is_air() {
    let chunk = Chunk::new();
    assert_eq!(chunk.blocks().len(), 4096);
    assert!(chunk.blocks().iter().all(|&b| b == Block::Air));
    assert_eq!(Chunk::default().blocks(), chunk.blocks());
}

#[test]
fn chunk_set_then_get() {
    let mut chunk = Chunk::new();
    chunk.set(LocalPos::new(1, 2, 3), Block::Rock);
    assert_eq!(chunk.get(LocalPos::new(1, 2, 3)), Block::Rock);
    assert_eq!(chunk.get(LocalPos::new(3, 2, 1)), Block::Air);
    assert_eq!(chunk.blocks()[1 + 2 * 16 + 3 * 256], Block::Rock);
    assert_eq!(chunk.blocks().iter().filter(|&&b| b != Block::Air).count(), 1);
    chunk.set(LocalPos::new(1, 2, 3), Block::Water);
    assert_eq!(chunk.get(LocalPos::new(1, 2, 3)), Block::Water);
}

#[test]
fn chunk_ignores_positions_outside() {
    let mut chunk = solid_chunk(Block::Dirt);
    assert_eq!(chunk.get(LocalPos::new(16, 0, 0)), Block::Air);
    assert_eq!(chunk.get(LocalPos::new(0, 99, 0)), Block::Air);
    assert_eq!(chunk.get(LocalPos::new(0, 0, usize::MAX)), Block::Air);
    chunk.set(LocalPos::new(16, 0, 0), Block::Rock);
    chunk.set(LocalPos::new(0, 0, 16), Block::Rock);
    assert!(chunk.blocks().iter().all(|&b| b == Block::Dirt));
}

#[test]
fn chunk_from_blocks_wants_4096() {
    assert!(Chunk::from_blocks(vec![]).is_none());
    assert!(Chunk::from_blocks(vec![Block::Air; 4095]).is_none());
    assert!(Chunk::from_blocks(vec![Block::Air; 4097]).is_none());
    let mut blocks = vec![Block::Air; 4096];
    blocks[4095] = Block::Wood;
    let chunk = Chunk::from_blocks(blocks.clone()).unwrap();
    assert_eq!(chunk.blocks(), &blocks);
    assert_eq!(chunk.get(LocalPos::new(15, 15, 15)), Block::Wood);
    assert_eq!(chunk.clone().blocks(), &blocks);
}

#[test]
fn empty_level_is_air_everywhere() {
    let level = Level::new();
    assert!(level.chunk(ChunkPos::new(0, 0, 0)).is_none());
    assert!(level.entity(ChunkPos::new(0, 0, 0)).is_none());
    assert_eq!(level.block(BlockPos::new(0, 0, 0)), Block::Air);
    assert_eq!(level.block(BlockPos::new(-1, i32::MIN, i32::MAX)), Block::Air);
}

#[test]
fn level_finds_blocks_through_chunks() {
    let mut level = Level::new();
    let mut chunk = Chunk::new();
    chunk.set(LocalPos::new(15, 0, 15), Block::Grass);
    assert_eq!(level.insert(ChunkPos::new(-1, 2, -1), chunk, Entity::from_raw(7)), None);
    assert_eq!(level.block(BlockPos::new(-1, 32, -1)), Block::Grass);
    assert_eq!(level.block(BlockPos::new(15, 32, 15)), Block::Air);
    assert_eq!(level.block(BlockPos::new(-1, 33, -1)), Block::Air);
    assert_eq!(level.entity(ChunkPos::new(-1, 2, -1)), Some(Entity::from_raw(7)));
    assert_eq!(level.entity(ChunkPos::new(1, 2, 1)), None);
    assert_eq!(
        level.chunk(ChunkPos::new(-1, 2, -1)).unwrap().get(LocalPos::new(15, 0, 15)),
        Block::Grass
    );
    // a second insert at the same place replaces the chunk and hands the old entity back
    assert_eq!(
        level.insert(ChunkPos::new(-1, 2, -1), Chunk::new(), Entity::from_raw(8)),
        Some(Entity::from_raw(7))
    );
    assert_eq!(level.block(BlockPos::new(-1, 32, -1)), Block::Air);
    assert_eq!(level.entity(ChunkPos::new(-1, 2, -1)), Some(Entity::from_raw(8)));
}

#[test]
fn chunk_mut_edits_the_stored_chunk() {
    let mut level = Level::new();
    level.insert(ChunkPos::new(0, 0, 0), Chunk::new(), Entity::from_raw(1));
    level.insert(ChunkPos::new(1, 0, 0), Chunk::new(), Entity::from_raw(2));
    assert!(level.chunk_mut(ChunkPos::new(5, 5, 5)).is_none());
    level.chunk_mut(ChunkPos::new(1, 0, 0)).unwrap().set(LocalPos::new(0, 1, 2), Block::Sand);
    assert_eq!(level.block(BlockPos::new(16, 1, 2)), Block::Sand);
    assert_eq!(level.block(BlockPos::new(0, 1, 2)), Block::Air);
    assert_eq!(level.entity(ChunkPos::new(1, 0, 0)), Some(Entity::from_raw(2)));
}

#[test]
fn set_block_changes_one_block() {
    let mut level = Level::new();
    level.insert(ChunkPos::new(0, 0, 0), solid_chunk(Block::Dirt), Entity::from_raw(1));
    assert_eq!(level.set_block(BlockPos::new(3, 4, 5), Block::Air), Some(Entity::from_raw(1)));
    assert_eq!(level.block(BlockPos::new(3, 4, 5)), Block::Air);
    assert_eq!(level.block(BlockPos::new(3, 4, 6)), Block::Dirt);
    assert_eq!(level.block(BlockPos::new(4, 4, 5)), Block::Dirt);
    let chunk = level.chunk(ChunkPos::new(0, 0, 0)).unwrap();
    assert_eq!(chunk.blocks().iter().filter(|&&b| b == Block::Air).count(), 1);
    // nothing is loaded there: nothing happens
    assert_eq!(level.set_block(BlockPos::new(16, 0, 0), Block::Rock), None);
    assert_eq!(level.block(BlockPos::new(16, 0, 0)), Block::Air);
    assert!(level.chunk(ChunkPos::new(1, 0, 0)).is_none());
}

#[test]
fn remove_takes_the_chunk_out() {
    let mut level = Level::new();
    level.insert(ChunkPos::new(0, 0, 0), solid_chunk(Block::Rock), Entity::from_raw(1));
    assert!(level.remove(ChunkPos::new(1, 1, 1)).is_none());
    let loaded = level.remove(ChunkPos::new(0, 0, 0)).unwrap();
    assert_eq!(loaded.entity, Entity::from_raw(1));
    assert_eq!(loaded.chunk.get(LocalPos::new(0, 0, 0)), Block::Rock);
    assert!(level.chunk(ChunkPos::new(0, 0, 0)).is_none());
    assert_eq!(level.block(BlockPos::new(0, 0, 0)), Block::Air);
}

#[test]
fn loaded_neighbors_in_cube_order() {
    let mut level = Level::new();
    let center = ChunkPos::new(10, 10, 10);
    assert_eq!(level.loaded_neighbors(center), vec![]);
    level.insert(center, Chunk::new(), Entity::from_raw(100));
    level.insert(ChunkPos::new(11, 11, 11), Chunk::new(), Entity::from_raw(1));
    level.insert(ChunkPos::new(9, 9, 9), Chunk::new(), Entity::from_raw(2));
    level.insert(ChunkPos::new(10, 10, 11), Chunk::new(), Entity::from_raw(3));
    level.insert(ChunkPos::new(10, 10, 9), Chunk::new(), Entity::from_raw(4));
    level.insert(ChunkPos::new(12, 10, 10), Chunk::new(), Entity::from_raw(5));
    level.insert(ChunkPos::new(10, 8, 10), Chunk::new(), Entity::from_raw(6));
    assert_eq!(
        level.loaded_neighbors(center),
        vec![Entity::from_raw(2), Entity::from_raw(4), Entity::from_raw(3), Entity::from_raw(1)]
    );
    // at the edge of the coordinate range the cells beyond it are skipped
    let corner = ChunkPos::new(i32::MAX, i32::MIN, 0);
    level.insert(ChunkPos::new(i32::MAX, i32::MIN + 1, 0), Chunk::new(), Entity::from_raw(9));
    assert_eq!(level.loaded_neighbors(corner), vec![Entity::from_raw(9)]);
}

#[test]
fn all_26_neighbors_are_found() {
    let mut level = Level::new();
    let mut n = 0;
    for x in -1..=1 {
        for y in -1..=1 {
            for z in -1..=1 {
                level.insert(ChunkPos::new(x, y, z), Chunk::new(), Entity::from_raw(n));
                n += 1;
            }
        }
    }
    let found = level.loaded_neighbors(ChunkPos::new(0, 0, 0));
    let expected: Vec<Entity> = (0..27).filter(|&i| i != 13).map(Entity::from_raw).collect();
    assert_eq!(found, expected);
}

#[test]
fn edits_on_the_boundary_touch_face_neighbors() {
    let mut level = Level::new();
    let here = ChunkPos::new(0, 0, 0);
    level.insert(ChunkPos::new(1, 0, 0), Chunk::new(), Entity::from_raw(1));
    level.insert(ChunkPos::new(-1, 0, 0), Chunk::new(), Entity::from_raw(2));
    level.insert(ChunkPos::new(0, 1, 0), Chunk::new(), Entity::from_raw(3));
    level.insert(ChunkPos::new(0, 0, -1), Chunk::new(), Entity::from_raw(6));
    level.insert(ChunkPos::new(1, 1, 0), Chunk::new(), Entity::from_raw(7));
    let all = vec![Entity::from_raw(1), Entity::from_raw(2), Entity::from_raw(3), Entity::from_raw(6)];
    assert_eq!(level.neighbors_to_update(here, LocalPos::new(0, 5, 5)), all);
    assert_eq!(level.neighbors_to_update(here, LocalPos::new(5, 15, 5)), all);
    assert_eq!(level.neighbors_to_update(here, LocalPos::new(5, 5, 15)), all);
    assert_eq!(level.neighbors_to_update(here, LocalPos::new(1, 1, 1)), vec![]);
    assert_eq!(level.neighbors_to_update(here, LocalPos::new(14, 14, 14)), vec![]);
}

#[test]
fn far_means_more_than_ten_chunks() {
    let center = ChunkPos::new(3, -4, 5);
    assert!(!too_far(center, center));
    assert!(!too_far(ChunkPos::new(13, -4, 5), center));
    assert!(too_far(ChunkPos::new(14, -4, 5), center));
    assert!(!too_far(ChunkPos::new(9, 4, 5), center)); // 36 + 64 = 100
    assert!(too_far(ChunkPos::new(9, 4, 6), center)); // 101
    assert!(too_far(ChunkPos::new(i32::MAX, i32::MAX, i32::MAX), ChunkPos::new(i32::MIN, i32::MIN, i32::MIN)));
    assert!(too_far(ChunkPos::new(3, -4, i32::MIN), center));
}

#[test]
fn unload_distant_takes_out_far_chunks() {
    let mut level = Level::new();
    let center = ChunkPos::new(0, 0, 0);
    let near = [ChunkPos::new(0, 0, 0), ChunkPos::new(10, 0, 0), ChunkPos::new(-6, 8, 0)];
    let far = [ChunkPos::new(11, 0, 0), ChunkPos::new(6, 8, 1), ChunkPos::new(0, -100, 0)];
    let mut n = 0;
    for &pos in near.iter().chain(far.iter()) {
        let mut chunk = Chunk::new();
        chunk.set(LocalPos::new(0, 0, 0), Block::Rock);
        chunk.set(LocalPos::new(n as usize, 0, 0), Block::Wood);
        level.insert(pos, chunk, Entity::from_raw(n));
        n += 1;
    }
    let mut unloaded = level.unload_distant(center);
    unloaded.sort_by_key(|(_, loaded)| loaded.entity.index());
    assert_eq!(unloaded.len(), 3);
    for (k, (pos, loaded)) in unloaded.iter().enumerate() {
        assert_eq!(*pos, far[k]);
        assert_eq!(loaded.entity, Entity::from_raw(3 + k as u32));
        assert_eq!(loaded.chunk.get(LocalPos::new(3 + k, 0, 0)), Block::Wood);
    }
    for (k, &pos) in near.iter().enumerate() {
        assert_eq!(level.entity(pos), Some(Entity::from_raw(k as u32)));
    }
    for &pos in far.iter() {
        assert!(level.chunk(pos).is_none());
    }
    assert!(level.unload_distant(center).is_empty());
}

#[test]
fn visible_faces_look_at_neighbors() {
    let mut level = Level::new();
    level.insert(ChunkPos::new(0, 0, 0), Chunk::new(), Entity::from_raw(1));
    let pos = BlockPos::new(5, 5, 5);
    let all = BlockFaces { left: true, right: true, front: true, back: true, top: true, bottom: true };
    assert_eq!(level.visible_faces(pos), all);
    level.set_block(BlockPos::new(4, 5, 5), Block::Rock);
    assert_eq!(level.visible_faces(pos), BlockFaces { left: false, ..all });
    level.set_block(BlockPos::new(5, 6, 5), Block::Dirt);
    level.set_block(BlockPos::new(5, 5, 4), Block::Sand);
    assert_eq!(level.visible_faces(pos), BlockFaces { left: false, top: false, back: false, ..all });
    // leaves and water do not hide a face
    level.set_block(BlockPos::new(6, 5, 5), Block::Leaves);
    level.set_block(BlockPos::new(5, 4, 5), Block::Water);
    assert_eq!(level.visible_faces(pos), BlockFaces { left: false, top: false, back: false, ..all });
    level.set_block(BlockPos::new(5, 5, 6), Block::Gravel);
    level.set_block(BlockPos::new(6, 5, 5), Block::Wood);
    level.set_block(BlockPos::new(5, 4, 5), Block::Grass);
    assert_eq!(
        level.visible_faces(pos),
        BlockFaces { left: false, right: false, front: false, back: false, top: false, bottom: false }
    );
}
