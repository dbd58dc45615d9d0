use voxel_chunks::chunk_util::ChunkUtil;
use voxel_chunks::chunk_util::ColumnSample;
use voxel_chunks::chunk_util::Vector3;
use voxel_chunks::chunk_util::Voxel;
use voxel_chunks::chunk_util::VoxelType;
use voxel_chunks::chunk_util::classify_voxel;
use voxel_chunks::chunk_util::combine_noise;
use voxel_chunks::chunk_util::surface_height;

use noise::NoiseFn;
use noise::Perlin;
use noise::Simplex;

/// The host-side sampling of one column: two seeded noise fields in
/// fixed-point thousandths, as the generator expects them.
fn sample_column(simplex: &Simplex, perlin: &Perlin, offset: &Vector3, x: usize, z: usize) -> ColumnSample {
    let xo = (x as f64) + (offset.x as f64);
    let zo = (z as f64) + (offset.z as f64);
    let low = simplex.get([xo * 0.01, zo * 0.01]).clamp(-1.0, 1.0) * 3.0;
    let high = perlin.get([xo * 0.05, zo * 0.05]).clamp(-1.0, 1.0) * 5.0;
    ColumnSample {
        low_milli: (low * 1000.0).floor() as i64,
        high_milli: (high * 1000.0).floor() as i64,
    }
}

fn sample_chunk(n: usize, seed: u32, offset: &Vector3) -> Vec<Vec<ColumnSample>> {
    let simplex = Simplex::new(seed);
    let perlin = Perlin::new(seed);
    let mut samples = Vec::new();
    for x in 0..n {
        let mut row = Vec::new();
        for z in 0..n {
            row.push(sample_column(&simplex, &perlin, offset, x, z));
        }
        samples.push(row);
    }
    samples
}

fn flat_samples(n: usize, low_milli: i64, high_milli: i64) -> Vec<Vec<ColumnSample>> {
    vec![vec![ColumnSample { low_milli, high_milli }; n]; n]
}

#[test]
fn classify_ice_regardless_of_low() {
    // combined = 6.0 is ice no matter what the low field holds.
    assert_eq!(classify_voxel(0, 30000), VoxelType::ICE);
    assert_eq!(classify_voxel(9000, 30000), VoxelType::ICE);
    assert_eq!(classify_voxel(-9000, 30000), VoxelType::ICE);
}

#[test]
fn classify_rock_on_high_low_field() {
    // combined = 2.0, low = 1.5 gives rock.
    assert_eq!(classify_voxel(1500, 10000), VoxelType::ROCK);
}

#[test]
fn classify_grass_on_positive_combined() {
    // combined = 2.0, low = 0.5 gives grass.
    assert_eq!(classify_voxel(500, 10000), VoxelType::GRASS);
}

#[test]
fn classify_sand_otherwise() {
    // combined = -1.0 gives sand.
    assert_eq!(classify_voxel(0, -5000), VoxelType::SAND);
    // combined exactly zero is not positive: sand.
    assert_eq!(classify_voxel(0, 0), VoxelType::SAND);
    // the rock threshold is strict: low exactly 1.2 falls through to grass.
    assert_eq!(classify_voxel(1200, 10000), VoxelType::GRASS);
    // the ice threshold is strict too: combined exactly 5.0 with a high
    // low field is rock.
    assert_eq!(classify_voxel(1500, 25000), VoxelType::ROCK);
}

#[test]
fn combine_weights_high_field() {
    // 5*low + 4*high in five-thousandths stands for low + 0.8*high.
    assert_eq!(combine_noise(1000, 1000), 9000);
    assert_eq!(combine_noise(-3000, 5000), 5000);
    assert_eq!(combine_noise(0, 0), 0);
}

#[test]
fn surface_height_center_of_default_chunk() {
    // combined = 0 sits at height 16 of a 32-chunk.
    assert_eq!(surface_height(0, 32), 16);
    // combined = 5.0 sits at height 21.
    assert_eq!(surface_height(25000, 32), 21);
    // combined = -7.0 sits at height 9.
    assert_eq!(surface_height(-35000, 32), 9);
}

#[test]
fn surface_height_is_clamped_into_the_grid() {
    assert_eq!(surface_height(25000, 10), 9);
    assert_eq!(surface_height(0, 1), 0);
    assert_eq!(surface_height(-90000, 32), 0);
}

#[test]
fn voxel_type_names() {
    assert_eq!(VoxelType::AIR.to_string(), "AIR");
    assert_eq!(VoxelType::GRASS.to_string(), "GRASS");
    assert_eq!(VoxelType::DIRT.to_string(), "DIRT");
    assert_eq!(VoxelType::WOOD.to_string(), "WOOD");
    assert_eq!(VoxelType::SAND.to_string(), "SAND");
    assert_eq!(VoxelType::ROCK.to_string(), "ROCK");
    assert_eq!(VoxelType::COAL.to_string(), "COAL");
    assert_eq!(VoxelType::ICE.to_string(), "ICE");
    assert_eq!(VoxelType::GOLD.to_string(), "GOLD");
    assert_eq!(VoxelType::LAVA.to_string(), "LAVA");
}

#[test]
fn atlas_regions_of_mapped_materials() {
    assert_eq!(VoxelType::GRASS.get_uvs_modifier(), Some((1, 9)));
    assert_eq!(VoxelType::DIRT.get_uvs_modifier(), Some((2, 0)));
    assert_eq!(VoxelType::SAND.get_uvs_modifier(), Some((2, 1)));
    assert_eq!(VoxelType::ROCK.get_uvs_modifier(), Some((0, 1)));
    assert_eq!(VoxelType::ICE.get_uvs_modifier(), Some((2, 4)));
}

#[test]
fn unmapped_materials_have_no_atlas_region() {
    assert_eq!(VoxelType::AIR.get_uvs_modifier(), None);
    assert_eq!(VoxelType::WOOD.get_uvs_modifier(), None);
    assert_eq!(VoxelType::COAL.get_uvs_modifier(), None);
    assert_eq!(VoxelType::GOLD.get_uvs_modifier(), None);
    assert_eq!(VoxelType::LAVA.get_uvs_modifier(), None);
}

#[test]
fn generate_places_one_voxel_per_column() {
    let n = 4;
    let util = ChunkUtil::new(n, 7);
    // A flat sample table: combined = 0, so every column is sand, and the
    // height 16 is clamped to the top of the 4-chunk.
    let world = util.generate_voxel_world(&flat_samples(n, 0, 0));
    assert_eq!(world.len(), n);
    for x in 0..n {
        assert_eq!(world[x].len(), n);
        for y in 0..n {
            assert_eq!(world[x][y].len(), n);
            for z in 0..n {
                let expected = if y == 3 { VoxelType::SAND } else { VoxelType::AIR };
                assert_eq!(world[x][y][z].value, expected);
            }
        }
    }
}

#[test]
fn generate_uses_each_columns_own_sample() {
    let n = 4;
    let util = ChunkUtil::new(n, 0);
    let mut samples = flat_samples(n, 0, 0);
    // Column (1, 0): combined = 2.0 with a high low field: rock at height 3
    // after clamping (raw height 18).
    samples[1][0] = ColumnSample { low_milli: 1500, high_milli: 625 };
    // Column (0, 1): combined = -80.0: the raw height is negative, clamped
    // to the grid floor.
    samples[0][1] = ColumnSample { low_milli: -3000, high_milli: -96250 };
    let world = util.generate_voxel_world(&samples);
    assert_eq!(world[1][3][0].value, VoxelType::ROCK);
    assert_eq!(world[1][0][0].value, VoxelType::AIR);
    assert_eq!(world[0][0][1].value, VoxelType::SAND);
    assert_eq!(world[0][3][1].value, VoxelType::AIR);
}

#[test]
fn generate_is_deterministic_for_fixed_inputs() {
    let n = 8;
    let seed = 2;
    let offset = Vector3 { x: -16, y: -16, z: 32 };
    let util = ChunkUtil::new(n, seed);
    let a = util.generate_voxel_world(&sample_chunk(n, seed, &offset));
    let b = util.generate_voxel_world(&sample_chunk(n, seed, &offset));
    assert_eq!(grid_kinds(&a), grid_kinds(&b));
}

#[test]
fn generated_noise_terrain_varies_and_keeps_column_invariant() {
    let n = 16;
    let seed = 2;
    let offset = Vector3 { x: 0, y: -16, z: 0 };
    let util = ChunkUtil::new(n, seed);
    let world = util.generate_voxel_world(&sample_chunk(n, seed, &offset));
    let mut surfaces = Vec::new();
    for x in 0..n {
        for z in 0..n {
            let mut solid_heights = Vec::new();
            for y in 0..n {
                if world[x][y][z].value != VoxelType::AIR {
                    solid_heights.push(y);
                }
            }
            // At most one solid voxel per column; with these parameters the
            // height always lands inside the chunk, so exactly one.
            assert_eq!(solid_heights.len(), 1);
            surfaces.push((world[x][solid_heights[0]][z].value, solid_heights[0]));
        }
    }
    // A real noise field is not flat: not every column may match the first.
    let first = surfaces[0];
    assert!(surfaces.iter().any(|s| *s != first));
}

fn grid_kinds(world: &Vec<Vec<Vec<Voxel>>>) -> Vec<VoxelType> {
    let mut kinds = Vec::new();
    for plane in world {
        for row in plane {
            for v in row {
                kinds.push(v.value);
            }
        }
    }
    kinds
}
