use bevy::ecs::entity::Entity;
use noise::{NoiseFn, Perlin};
use voxel_world::block::Block;
use voxel_world::chunk::Chunk;
use voxel_world::generator::{
    has_structure_margin, structure_cells, structure_origin, LevelGenerator, StructureSite,
    TerrainSamples,
};
use voxel_world::level::Level;
use voxel_world::physics::get_potential_collisions;
use voxel_world::position::{BlockPos, ChunkPos, LocalPos};

/// A world whose ground is sampled from noise fields seeded by the generator.
struct NoiseWorld {
    rules: LevelGenerator,
    terrain: Perlin,
    moisture: Perlin,
}

impl NoiseWorld {
    fn new(seed: u32) -> Self {
        let rules = LevelGenerator::new(seed);
        Self {
            rules,
            terrain: Perlin::new(rules.terrain_seed()),
            moisture: Perlin::new(rules.moisture_seed()),
        }
    }

    fn height(&self, x: i32, z: i32) -> i32 {
        let (x, z) = (x as f64, z as f64);
        let base = self.terrain.get([x * 0.01, z * 0.01, 0.0]);
        let medium = self.terrain.get([x * 0.05, z * 0.05, 0.0]) * 0.3;
        let small = self.terrain.get([x * 0.1, z * 0.1, 0.0]) * 0.1;
        ((base + medium + small) * 16.0).round() as i32
    }

    fn moist(&self, pos: BlockPos) -> bool {
        let sample = self.moisture.get([pos.x as f64 * 0.003, pos.y as f64 * 0.01, pos.z as f64 * 0.003]);
        (sample + 1.0) / 2.0 > 0.3
    }

    fn gravelly(&self, x: i32, z: i32) -> bool {
        self.terrain.get([x as f64 * 0.08, z as f64 * 0.08, 0.0]) > 0.6
    }

    fn sites(&self, chunk_pos: ChunkPos) -> Vec<StructureSite> {
        assert!(has_structure_margin(chunk_pos));
        let mut sites = Vec::new();
        for (base_x, base_z) in structure_cells(chunk_pos) {
            let ground = self.height(base_x, base_z);
            if let Some((x, z, kind)) = self.rules.structure_site(base_x, base_z, ground) {
                sites.push(StructureSite { origin: structure_origin(x, z, self.height(x, z)), kind });
            }
        }
        sites
    }

    fn samples(&self, chunk_pos: ChunkPos) -> TerrainSamples {
        let mut heights = Vec::new();
        let mut gravel = Vec::new();
        for z in 0..16 {
            for x in 0..16 {
                let pos = LocalPos::new(x, 0, z).block_pos(chunk_pos);
                heights.push(self.height(pos.x, pos.z));
                gravel.push(self.gravelly(pos.x, pos.z));
            }
        }
        let moist = (0..4096).map(|i| self.moist(LocalPos::from_index(i).block_pos(chunk_pos))).collect();
        TerrainSamples::from_heights(chunk_pos, &heights, gravel, moist).unwrap()
    }

    fn chunk(&self, chunk_pos: ChunkPos) -> Chunk {
        self.rules.generate_chunk(chunk_pos, &self.samples(chunk_pos), &self.sites(chunk_pos))
    }
}

#[test]
fn a_world_generates_the_same_in_any_order() {
    let world = NoiseWorld::new(42);
    let positions: Vec<ChunkPos> = (-2..2)
        .flat_map(|x| (-1..1).flat_map(move |y| (-2..2).map(move |z| ChunkPos::new(x, y, z))))
        .collect();
    let forward: Vec<Chunk> = positions.iter().map(|&p| world.chunk(p)).collect();
    let again = NoiseWorld::new(42);
    for (k, &pos) in positions.iter().enumerate().rev() {
        assert_eq!(again.chunk(pos).blocks(), forward[k].blocks(), "{:?}", pos);
    }
    // another seed gives another world
    let other = NoiseWorld::new(43);
    assert!(positions.iter().enumerate().any(|(k, &p)| other.chunk(p).blocks() != forward[k].blocks()));
}

#[test]
fn structures_cross_chunk_borders_unbroken() {
    let world = NoiseWorld::new(42);
    let mut crossing = 0;
    let mut houses = 0;
    for cx in -6..6 {
        for cz in -6..6 {
            let column: Vec<(ChunkPos, Chunk)> = (-2..3)
                .map(|cy| ChunkPos::new(cx, cy, cz))
                .map(|pos| (pos, world.chunk(pos)))
                .collect();
            for site in world.sites(ChunkPos::new(cx, 0, cz)) {
                let origin = site.origin;
                let mut chunks_touched = Vec::new();
                for dx in -3..=3 {
                    for dy in 0..9 {
                        for dz in -3..=3 {
                            let pos = BlockPos::new(origin.x + dx, origin.y + dy, origin.z + dz);
                            let Some(block) = world.rules.get_structure_block(pos, site) else {
                                continue;
                            };
                            let Some((_, chunk)) = column.iter().find(|(p, _)| *p == pos.chunk_pos()) else {
                                continue;
                            };
                            // a structure listed later may have covered this one's block
                            let later_covers = world
                                .sites(pos.chunk_pos())
                                .iter()
                                .rev()
                                .take_while(|other| **other != site)
                                .any(|other| world.rules.get_structure_block(pos, *other).is_some());
                            if !later_covers {
                                assert_eq!(chunk.get(pos.local_pos()), block, "{:?} of {:?}", pos, site);
                            }
                            if !chunks_touched.contains(&pos.chunk_pos()) {
                                chunks_touched.push(pos.chunk_pos());
                            }
                        }
                    }
                }
                if chunks_touched.len() > 1 {
                    crossing += 1;
                }
                if site.kind == voxel_world::generator::StructureKind::House {
                    houses += 1;
                }
            }
        }
    }
    assert!(crossing > 0);
    assert!(houses > 0);
}

// A body that falls under gravity and is stopped by the blocks it meets.

#[derive(Clone, Copy)]
struct Body {
    center: [f32; 3],
    velocity: [f32; 3],
    on_ground: bool,
}

const SIZE: [f32; 3] = [0.6, 1.8, 0.6];
const GRAVITY: f32 = -24.0;
const TERMINAL_VELOCITY: f32 = -78.4;

fn bounds(center: [f32; 3]) -> ([f32; 3], [f32; 3]) {
    let mut min = [0.0; 3];
    let mut max = [0.0; 3];
    for i in 0..3 {
        min[i] = center[i] - SIZE[i] * 0.5;
        max[i] = center[i] + SIZE[i] * 0.5;
    }
    (min, max)
}

fn clip(center: [f32; 3], blocks: &[BlockPos], mut delta: f32, axis: usize) -> f32 {
    let (min, max) = bounds(center);
    for block in blocks {
        let block_min = [block.x as f32, block.y as f32, block.z as f32];
        let block_max = [block_min[0] + 1.0, block_min[1] + 1.0, block_min[2] + 1.0];
        let overlaps = (0..3)
            .filter(|&other| other != axis)
            .all(|other| max[other] > block_min[other] && min[other] < block_max[other]);
        if !overlaps {
            continue;
        }
        if delta > 0.0 && max[axis] <= block_min[axis] {
            delta = delta.min(block_min[axis] - max[axis] - 0.001);
        }
        if delta < 0.0 && min[axis] >= block_max[axis] {
            delta = delta.max(block_max[axis] - min[axis] + 0.001);
        }
    }
    delta
}

fn step(level: &Level, body: &mut Body, dt: f32) {
    let (min, max) = bounds(body.center);
    let low = BlockPos::new(
        (min[0] - 0.5).floor() as i32,
        (min[1] - 0.5).floor() as i32,
        (min[2] - 0.5).floor() as i32,
    );
    let high = BlockPos::new(
        (max[0] + 0.5).ceil() as i32,
        (max[1] + 0.5).ceil() as i32,
        (max[2] + 0.5).ceil() as i32,
    );
    let blocks = get_potential_collisions(level, low, high);
    let wanted = [body.velocity[0] * dt, body.velocity[1] * dt, body.velocity[2] * dt];
    let mut moved = wanted;
    for axis in [1, 0, 2] {
        moved[axis] = clip(body.center, &blocks, wanted[axis], axis);
        body.center[axis] += moved[axis];
    }
    body.on_ground = wanted[1] != moved[1] && wanted[1] < 0.0;
    for axis in 0..3 {
        if wanted[axis] != moved[axis] {
            body.velocity[axis] = 0.0;
        }
    }
    if !body.on_ground {
        body.velocity[1] = (body.velocity[1] + GRAVITY * dt).max(TERMINAL_VELOCITY);
    }
}

fn deepest_overlap(level: &Level, body: &Body) -> f32 {
    let (min, max) = bounds(body.center);
    let low = BlockPos::new(min[0].floor() as i32 - 1, min[1].floor() as i32 - 1, min[2].floor() as i32 - 1);
    let high = BlockPos::new(max[0].ceil() as i32 + 1, max[1].ceil() as i32 + 1, max[2].ceil() as i32 + 1);
    let mut deepest: f32 = 0.0;
    for block in get_potential_collisions(level, low, high) {
        let corner = [block.x as f32, block.y as f32, block.z as f32];
        let depth = (0..3)
            .map(|i| (max[i].min(corner[i] + 1.0) - min[i].max(corner[i])).max(0.0))
            .fold(f32::MAX, f32::min);
        deepest = deepest.max(depth);
    }
    deepest
}

#[test]
fn a_falling_body_settles_on_the_floor() {
    let mut level = Level::new();
    let mut n = 0;
    for cx in -1..1 {
        for cz in -1..1 {
            let mut chunk = Chunk::new();
            for x in 0..16 {
                for z in 0..16 {
                    chunk.set(LocalPos::new(x, 0, z), Block::Rock);
                }
            }
            level.insert(ChunkPos::new(cx, 0, cz), chunk, Entity::from_raw(n));
            n += 1;
        }
    }
    // the floor's top is at height 1; the body's bottom starts at height 10
    let mut body = Body { center: [0.3, 10.9, -0.2], velocity: [0.0; 3], on_ground: false };
    let dt = 1.0 / 60.0;
    let mut landed_at = None;
    for frame in 0..600 {
        step(&level, &mut body, dt);
        assert!(deepest_overlap(&level, &body) <= 0.001, "frame {}", frame);
        if body.on_ground && landed_at.is_none() {
            landed_at = Some(frame);
            assert_eq!(body.velocity[1], 0.0);
        }
    }
    let landed_at = landed_at.expect("the body reaches the floor");
    assert!(landed_at > 30 && landed_at < 90, "{}", landed_at);
    let bottom = body.center[1] - 0.9;
    assert!((bottom - 1.0).abs() <= 0.002, "{}", bottom);
    assert!(body.velocity[1] <= 0.0 && body.velocity[1] > -0.5);
    assert_eq!(body.center[0], 0.3);
    assert_eq!(body.center[2], -0.2);
    // one more step with the body resting: it is held up again
    body.velocity[1] = -1.0;
    step(&level, &mut body, dt);
    assert!(body.on_ground);
    assert_eq!(body.velocity[1], 0.0);
}

#[test]
fn a_fast_body_does_not_enter_a_wall() {
    let mut level = Level::new();
    let mut chunk = Chunk::new();
    for y in 0..16 {
        for z in 0..16 {
            chunk.set(LocalPos::new(8, y, z), Block::Rock);
        }
    }
    level.insert(ChunkPos::new(0, 0, 0), chunk, Entity::from_raw(0));
    let mut body = Body { center: [5.0, 5.0, 5.0], velocity: [30.0, 0.0, 0.0], on_ground: false };
    for frame in 0..30 {
        body.velocity[1] = 0.0;
        step(&level, &mut body, 1.0 / 60.0);
        assert!(deepest_overlap(&level, &body) <= 0.001, "frame {}", frame);
    }
    // stopped at the wall, whose near side is at x = 8
    assert!((body.center[0] + 0.3 - 8.0).abs() <= 0.002, "{}", body.center[0]);
    assert_eq!(body.velocity[0], 0.0);
}
