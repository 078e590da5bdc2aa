use voxel_world::position::{BlockPos, ChunkPos, LocalPos, CHUNK_INDICES, CHUNK_SIZE};

#[test]
fn negative_block_belongs_to_chunk_below_zero() {
    let p = BlockPos::new(-1, -1, -1);
    assert_eq!(p.chunk_pos(), ChunkPos::new(-1, -1, -1));
    assert_eq!(p.local_pos(), LocalPos::new(15, 15, 15));
}

#[test]
fn split_and_join_round_trip() {
    for &x in &[i32::MIN, -4097, -17, -16, -15, -1, 0, 1, 15, 16, 17, 4096, i32::MAX] {
        for &y in &[i32::MIN, -33, -1, 0, 31, i32::MAX] {
            for &z in &[i32::MIN + 1, -16, 0, 15, i32::MAX - 1] {
                let p = BlockPos::new(x, y, z);
                assert_eq!(p.local_pos().block_pos(p.chunk_pos()), p);
            }
        }
    }
}

#[test]
fn chunk_of_block_uses_floor_division() {
    assert_eq!(BlockPos::new(-16, -17, 31).chunk_pos(), ChunkPos::new(-1, -2, 1));
    assert_eq!(BlockPos::new(-16, -17, 31).local_pos(), LocalPos::new(0, 15, 15));
    assert_eq!(BlockPos::new(i32::MIN, 0, i32::MAX).chunk_pos(), ChunkPos::new(-134217728, 0, 134217727));
}

#[test]
fn index_and_position_are_inverse() {
    assert_eq!(CHUNK_SIZE, 16);
    assert_eq!(CHUNK_INDICES, 4096);
    for i in 0..CHUNK_INDICES {
        let p = LocalPos::from_index(i);
        assert!(p.in_bounds());
        assert_eq!(p.index(), i);
    }
    assert_eq!(LocalPos::new(3, 2, 1).index(), 3 + 2 * 16 + 256);
    assert_eq!(LocalPos::from_index(4095), LocalPos::new(15, 15, 15));
    assert_eq!(LocalPos::from_index(291), LocalPos::new(3, 2, 1));
}

#[test]
fn neighbours_move_one_step() {
    let p = BlockPos::new(5, -3, 0);
    assert_eq!(p.left(), BlockPos::new(4, -3, 0));
    assert_eq!(p.right(), BlockPos::new(6, -3, 0));
    assert_eq!(p.top(), BlockPos::new(5, -2, 0));
    assert_eq!(p.bottom(), BlockPos::new(5, -4, 0));
    assert_eq!(p.front(), BlockPos::new(5, -3, 1));
    assert_eq!(p.back(), BlockPos::new(5, -3, -1));
    assert_eq!(p + BlockPos::new(1, 2, 3), BlockPos::new(6, -1, 3));
    assert_eq!(p * 3, BlockPos::new(15, -9, 0));
    assert_eq!(ChunkPos::new(1, 2, 3) + ChunkPos::new(-1, 0, 1), ChunkPos::new(0, 2, 4));
}

#[test]
fn chunk_origin_is_sixteen_times_the_chunk() {
    assert_eq!(ChunkPos::new(-2, 0, 3).origin(), BlockPos::new(-32, 0, 48));
    assert!(ChunkPos::new(134217727, 0, -134217728).is_in_world());
    assert!(!ChunkPos::new(134217728, 0, 0).is_in_world());
}
