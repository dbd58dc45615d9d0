use voxel_chunks::chunk_mesh::ChunkMesh;
use voxel_chunks::chunk_mesh::MeshError;
use voxel_chunks::chunk_util::ChunkUtil;
use voxel_chunks::chunk_util::ColumnSample;
use voxel_chunks::chunk_util::Vector3;
use voxel_chunks::chunk_util::Voxel;
use voxel_chunks::chunk_util::VoxelType;

use noise::NoiseFn;
use noise::Perlin;
use noise::Simplex;

fn air_grid(n: usize) -> Vec<Vec<Vec<Voxel>>> {
    vec![vec![vec![Voxel { value: VoxelType::AIR }; n]; n]; n]
}

fn solid_grid(n: usize, kind: VoxelType) -> Vec<Vec<Vec<Voxel>>> {
    vec![vec![vec![Voxel { value: kind }; n]; n]; n]
}

#[test]
fn lone_voxel_emits_six_faces() {
    let mut world = air_grid(3);
    world[1][1][1] = Voxel { value: VoxelType::GRASS };
    let mesh = ChunkMesh::new(3).generate_chunk(&world).unwrap();
    assert_eq!(mesh.positions.len(), 24);
    assert_eq!(mesh.normals.len(), 24);
    assert_eq!(mesh.uvs.len(), 24);
    assert_eq!(mesh.indices.len(), 36);
}

#[test]
fn lone_voxel_face_data_is_exact() {
    let mut world = air_grid(3);
    world[1][1][1] = Voxel { value: VoxelType::GRASS };
    let mesh = ChunkMesh::new(3).generate_chunk(&world).unwrap();
    // The first tested direction is +X: the quad spans the x = 2 side of
    // the unit cell at (1, 1, 1).
    assert_eq!(mesh.positions[0..4], [(2, 1, 1), (2, 2, 1), (2, 1, 2), (2, 2, 2)]);
    assert_eq!(mesh.normals[0..4], [(1, 0, 0); 4]);
    // Two triangles {0,1,2} and {2,1,3} over the face's four vertices.
    assert_eq!(mesh.indices[0..6], [0, 1, 2, 2, 1, 3]);
    // Grass sits at atlas tile (1, 9); the unit template lands on it.
    assert_eq!(mesh.uvs[0..4], [(2, 10), (1, 10), (2, 9), (1, 9)]);
    // The second face (-X) reuses the next four vertices.
    assert_eq!(mesh.indices[6..12], [4, 5, 6, 6, 5, 7]);
    assert_eq!(mesh.normals[4..8], [(-1, 0, 0); 4]);
}

#[test]
fn corner_voxel_emits_faces_at_the_boundary() {
    let mut world = air_grid(3);
    world[0][0][0] = Voxel { value: VoxelType::ROCK };
    let mesh = ChunkMesh::new(3).generate_chunk(&world).unwrap();
    // Three out-of-range neighbors and three air neighbors: six faces.
    assert_eq!(mesh.positions.len(), 24);
    assert_eq!(mesh.indices.len(), 36);
}

#[test]
fn fully_solid_block_emits_only_boundary_faces() {
    // In a 2x2x2 block of solids every voxel touches three boundary sides
    // and three solid neighbors: 8 voxels emit 3 faces each.
    let world = solid_grid(2, VoxelType::ICE);
    let mesh = ChunkMesh::new(2).generate_chunk(&world).unwrap();
    assert_eq!(mesh.positions.len(), 96);
    assert_eq!(mesh.indices.len(), 144);
}

#[test]
fn adjacent_solids_share_no_face() {
    let mut world = air_grid(3);
    world[1][1][1] = Voxel { value: VoxelType::GRASS };
    world[2][1][1] = Voxel { value: VoxelType::GRASS };
    let mesh = ChunkMesh::new(3).generate_chunk(&world).unwrap();
    // Five faces each: the shared side emits nothing from either voxel.
    assert_eq!(mesh.positions.len(), 40);
    assert_eq!(mesh.indices.len(), 60);
    // Every +X face lies on x = 3: the x = 2 plane between the two solids
    // stays closed.
    for (i, normal) in mesh.normals.iter().enumerate() {
        if *normal == (1, 0, 0) {
            assert_eq!(mesh.positions[i].0, 3);
        }
        if *normal == (-1, 0, 0) {
            assert_eq!(mesh.positions[i].0, 1);
        }
    }
}

#[test]
fn exposed_unmapped_material_is_reported() {
    let mut world = air_grid(3);
    world[1][1][1] = Voxel { value: VoxelType::WOOD };
    let r = ChunkMesh::new(3).generate_chunk(&world);
    assert_eq!(r, Err(MeshError::MissingAtlasTile(VoxelType::WOOD)));
}

#[test]
fn buried_unmapped_material_is_harmless() {
    // Wood fully enclosed in grass exposes no face, so its missing atlas
    // region is never consulted: 6 sides of 9 boundary faces remain.
    let mut world = solid_grid(3, VoxelType::GRASS);
    world[1][1][1] = Voxel { value: VoxelType::WOOD };
    let mesh = ChunkMesh::new(3).generate_chunk(&world).unwrap();
    assert_eq!(mesh.positions.len(), 216);
    assert_eq!(mesh.indices.len(), 324);
}

#[test]
fn empty_grid_gives_empty_mesh() {
    let mesh = ChunkMesh::new(4).generate_chunk(&air_grid(4)).unwrap();
    assert_eq!(mesh.positions.len(), 0);
    assert_eq!(mesh.normals.len(), 0);
    assert_eq!(mesh.uvs.len(), 0);
    assert_eq!(mesh.indices.len(), 0);
}

#[test]
fn get_voxel_distinguishes_inside_from_outside() {
    let mut world = air_grid(3);
    world[2][0][1] = Voxel { value: VoxelType::SAND };
    let mesher = ChunkMesh::new(3);
    let v = mesher.get_voxel(&world, Vector3 { x: 2, y: 0, z: 1 }).unwrap();
    assert_eq!(v.value, VoxelType::SAND);
    assert!(mesher.get_voxel(&world, Vector3 { x: -1, y: 0, z: 1 }).is_none());
    assert!(mesher.get_voxel(&world, Vector3 { x: 3, y: 0, z: 1 }).is_none());
    assert!(mesher.get_voxel(&world, Vector3 { x: 2, y: 0, z: 3 }).is_none());
}

#[test]
fn directions_come_in_the_fixed_order() {
    let dirs = ChunkMesh::new(1).get_directions();
    assert_eq!(
        dirs,
        vec![(1, 0, 0), (-1, 0, 0), (0, 1, 0), (0, -1, 0), (0, 0, 1), (0, 0, -1)]
    );
}

#[test]
fn face_position_spans_the_requested_cell() {
    let mesher = ChunkMesh::new(8);
    let quad = mesher.get_face_position((0, 1, 0), 3, 4, 5);
    assert_eq!(quad, vec![(3, 5, 5), (3, 5, 6), (4, 5, 5), (4, 5, 6)]);
    let quad = mesher.get_face_position((0, 0, -1), 0, 0, 0);
    assert_eq!(quad, vec![(0, 0, 0), (0, 1, 0), (1, 0, 0), (1, 1, 0)]);
}

#[test]
fn full_pipeline_mesh_is_consistent_and_deterministic() {
    let n = 16;
    let seed = 2;
    let offset = Vector3 { x: -16, y: -8, z: 0 };
    let simplex = Simplex::new(seed);
    let perlin = Perlin::new(seed);
    let mut samples = Vec::new();
    for x in 0..n {
        let mut row = Vec::new();
        for z in 0..n {
            let xo = (x as f64) + (offset.x as f64);
            let zo = (z as f64) + (offset.z as f64);
            let low = simplex.get([xo * 0.01, zo * 0.01]).clamp(-1.0, 1.0) * 3.0;
            let high = perlin.get([xo * 0.05, zo * 0.05]).clamp(-1.0, 1.0) * 5.0;
            row.push(ColumnSample {
                low_milli: (low * 1000.0).floor() as i64,
                high_milli: (high * 1000.0).floor() as i64,
            });
        }
        samples.push(row);
    }
    let util = ChunkUtil::new(n, seed);
    let mesher = ChunkMesh::new(n);
    let world = util.generate_voxel_world(&samples);
    let mesh = mesher.generate_chunk(&world).unwrap();

    // Index/vertex consistency: four vertices and six indices per face,
    // whole triangles, and every index in range.
    let face_count = mesh.positions.len() / 4;
    assert_eq!(mesh.positions.len(), 4 * face_count);
    assert_eq!(mesh.normals.len(), 4 * face_count);
    assert_eq!(mesh.uvs.len(), 4 * face_count);
    assert_eq!(mesh.indices.len(), 6 * face_count);
    assert_eq!(mesh.indices.len() % 3, 0);
    assert!(face_count > 0);
    for i in &mesh.indices {
        assert!((*i as usize) < mesh.positions.len());
    }

    // The same inputs give the same mesh again.
    let again = mesher.generate_chunk(&util.generate_voxel_world(&samples)).unwrap();
    assert_eq!(mesh, again);
}
