//! Face-culling mesh extraction over a dense voxel grid.
//!
//! The extractor walks every cell of a cubic grid in `x, y, z` order and,
//! for each solid voxel, tests its six axis-aligned neighbors in a fixed
//! order. A face is emitted exactly when the neighbor is outside the grid
//! or holds air. Each emitted face contributes four vertices (integer
//! lattice corners), one normal replicated four times, four atlas
//! coordinates in sixteenths of the texture atlas, and six indices forming
//! two triangles. Exposed faces are never merged.

use vstd::prelude::*;

use crate::chunk_util::Vector3;
use crate::chunk_util::Voxel;
use crate::chunk_util::VoxelType;
use crate::chunk_util::grid_wf;
use crate::chunk_util::vox_at;

verus! {

/// The mesh extractor: holds the side length of the cubic grids it walks.
#[derive(Debug, Clone)]
pub struct ChunkMesh {
    pub chunk_size: usize,
}

/// Mesh buffers for one chunk: parallel per-vertex arrays and a triangle
/// index list. Positions are integer lattice corners of unit cells;
/// normals are unit axis vectors; atlas coordinates are in sixteenths of
/// the texture atlas. A host scales them to its own vertex format.
#[derive(Debug, Clone, PartialEq, Eq)]
pub struct MeshData {
    pub positions: Vec<(u32, u32, u32)>,
    pub indices: Vec<u32>,
    pub normals: Vec<(i8, i8, i8)>,
    pub uvs: Vec<(u16, u16)>,
}

/// Why mesh extraction aborted: the grid exposes a face of a material that
/// has no atlas region assigned.
#[derive(Debug, Clone, Copy, PartialEq, Eq, Structural)]
pub enum MeshError {
    MissingAtlasTile(VoxelType),
}

/// The unit normal of direction `d`, in the fixed test order: +X, -X, +Y,
/// -Y, +Z, -Z.
pub open spec fn dir_normal(d: int) -> (i8, i8, i8) {
    if d == 0 {
        (1i8, 0i8, 0i8)
    } else if d == 1 {
        (-1i8, 0i8, 0i8)
    } else if d == 2 {
        (0i8, 1i8, 0i8)
    } else if d == 3 {
        (0i8, -1i8, 0i8)
    } else if d == 4 {
        (0i8, 0i8, 1i8)
    } else {
        (0i8, 0i8, -1i8)
    }
}

/// The direction index of a unit normal; the inverse of `dir_normal`.
pub open spec fn dir_index(normal: (i8, i8, i8)) -> int {
    if normal == (1i8, 0i8, 0i8) {
        0
    } else if normal == (-1i8, 0i8, 0i8) {
        1
    } else if normal == (0i8, 1i8, 0i8) {
        2
    } else if normal == (0i8, -1i8, 0i8) {
        3
    } else if normal == (0i8, 0i8, 1i8) {
        4
    } else {
        5
    }
}

/// Whether `normal` is one of the six unit axis vectors.
pub open spec fn is_dir_normal(normal: (i8, i8, i8)) -> bool {
    exists|d: int| 0 <= d < 6 && normal == #[trigger] dir_normal(d)
}

/// The direction opposite to `d`.
pub open spec fn opposite_dir(d: int) -> int {
    if d % 2 == 0 {
        d + 1
    } else {
        d - 1
    }
}

/// Whether `(x, y, z)` lies inside a cubic grid of side `n`.
pub open spec fn in_bounds(n: int, x: int, y: int, z: int) -> bool {
    0 <= x < n && 0 <= y < n && 0 <= z < n
}

/// Whether cell `(x, y, z)` holds a solid (non-air) voxel; cells outside
/// the grid are not solid.
pub open spec fn solid_at(g: Seq<Vec<Vec<Voxel>>>, n: int, x: int, y: int, z: int) -> bool {
    in_bounds(n, x, y, z) && vox_at(g, x, y, z) != VoxelType::AIR
}

/// Whether the face of cell `(x, y, z)` toward direction `d` is emitted:
/// the cell is solid and its neighbor in that direction is air or outside
/// the grid.
pub open spec fn face_visible(g: Seq<Vec<Vec<Voxel>>>, n: int, x: int, y: int, z: int, d: int) -> bool {
    &&& solid_at(g, n, x, y, z)
    &&& !solid_at(
        g,
        n,
        x + dir_normal(d).0 as int,
        y + dir_normal(d).1 as int,
        z + dir_normal(d).2 as int,
    )
}

/// The faces of cell `(x, y, z)` with direction below `d`, in test order.
pub open spec fn cell_faces_upto(
    g: Seq<Vec<Vec<Voxel>>>,
    n: int,
    x: int,
    y: int,
    z: int,
    d: int,
) -> Seq<(int, int, int, int)>
    decreases d,
{
    if d <= 0 {
        Seq::empty()
    } else if face_visible(g, n, x, y, z, d - 1) {
        cell_faces_upto(g, n, x, y, z, d - 1).push((x, y, z, d - 1))
    } else {
        cell_faces_upto(g, n, x, y, z, d - 1)
    }
}

/// The faces of the cells `(x, y, zz)` with `zz` below `z`, in scan order.
pub open spec fn row_faces_upto(
    g: Seq<Vec<Vec<Voxel>>>,
    n: int,
    x: int,
    y: int,
    z: int,
) -> Seq<(int, int, int, int)>
    decreases z,
{
    if z <= 0 {
        Seq::empty()
    } else {
        row_faces_upto(g, n, x, y, z - 1) + cell_faces_upto(g, n, x, y, z - 1, 6)
    }
}

/// The faces of the cells `(x, yy, *)` with `yy` below `y`, in scan order.
pub open spec fn plane_faces_upto(
    g: Seq<Vec<Vec<Voxel>>>,
    n: int,
    x: int,
    y: int,
) -> Seq<(int, int, int, int)>
    decreases y,
{
    if y <= 0 {
        Seq::empty()
    } else {
        plane_faces_upto(g, n, x, y - 1) + row_faces_upto(g, n, x, y - 1, n)
    }
}

/// The faces of the cells `(xx, *, *)` with `xx` below `x`, in scan order.
pub open spec fn grid_faces_upto(
    g: Seq<Vec<Vec<Voxel>>>,
    n: int,
    x: int,
) -> Seq<(int, int, int, int)>
    decreases x,
{
    if x <= 0 {
        Seq::empty()
    } else {
        grid_faces_upto(g, n, x - 1) + plane_faces_upto(g, n, x - 1, n)
    }
}

/// Every emitted face of the grid, as `(x, y, z, direction)`, in the order
/// the extractor walks them.
pub open spec fn face_list(g: Seq<Vec<Vec<Voxel>>>, n: int) -> Seq<(int, int, int, int)> {
    grid_faces_upto(g, n, n)
}

/// The material of the cell a face belongs to.
pub open spec fn face_kind(g: Seq<Vec<Vec<Voxel>>>, f: (int, int, int, int)) -> VoxelType {
    vox_at(g, f.0, f.1, f.2)
}

/// The unit-cell corner offsets of vertex `j` of a face toward direction
/// `d`; the order fixes the outward winding of the two triangles.
pub open spec fn corner_offset(d: int, j: int) -> (int, int, int) {
    if d == 0 {
        // Right face (x+)
        if j == 0 {
            (1, 0, 0)
        } else if j == 1 {
            (1, 1, 0)
        } else if j == 2 {
            (1, 0, 1)
        } else {
            (1, 1, 1)
        }
    } else if d == 1 {
        // Left face (x-)
        if j == 0 {
            (0, 0, 0)
        } else if j == 1 {
            (0, 0, 1)
        } else if j == 2 {
            (0, 1, 0)
        } else {
            (0, 1, 1)
        }
    } else if d == 2 {
        // Top face (y+)
        if j == 0 {
            (0, 1, 0)
        } else if j == 1 {
            (0, 1, 1)
        } else if j == 2 {
            (1, 1, 0)
        } else {
            (1, 1, 1)
        }
    } else if d == 3 {
        // Bottom face (y-)
        if j == 0 {
            (0, 0, 0)
        } else if j == 1 {
            (1, 0, 0)
        } else if j == 2 {
            (0, 0, 1)
        } else {
            (1, 0, 1)
        }
    } else if d == 4 {
        // Front face (z+)
        if j == 0 {
            (0, 0, 1)
        } else if j == 1 {
            (1, 0, 1)
        } else if j == 2 {
            (0, 1, 1)
        } else {
            (1, 1, 1)
        }
    } else {
        // Back face (z-)
        if j == 0 {
            (0, 0, 0)
        } else if j == 1 {
            (0, 1, 0)
        } else if j == 2 {
            (1, 0, 0)
        } else {
            (1, 1, 0)
        }
    }
}

/// The lattice position of vertex `j` of face `f`.
pub open spec fn face_corner(f: (int, int, int, int), j: int) -> (int, int, int) {
    (
        f.0 + corner_offset(f.3, j).0,
        f.1 + corner_offset(f.3, j).1,
        f.2 + corner_offset(f.3, j).2,
    )
}

/// The unit-square atlas coordinates of vertex `j` of a face, before
/// placement in the atlas.
pub open spec fn uv_template(j: int) -> (int, int) {
    if j == 0 {
        (1, 1)
    } else if j == 1 {
        (0, 1)
    } else if j == 2 {
        (1, 0)
    } else {
        (0, 0)
    }
}

/// The atlas coordinates of vertex `j` of a face of material `kind`, in
/// sixteenths of the atlas: the unit template placed at the material's
/// atlas region.
pub open spec fn face_uv(kind: VoxelType, j: int) -> (int, int) {
    (
        uv_template(j).0 + kind.atlas_tile_spec().0,
        uv_template(j).1 + kind.atlas_tile_spec().1,
    )
}

/// The index pattern of one face's two triangles, relative to the face's
/// first vertex: `{0, 1, 2}` and `{2, 1, 3}`.
pub open spec fn quad_index(r: int) -> int {
    if r == 0 {
        0
    } else if r == 1 {
        1
    } else if r == 2 {
        2
    } else if r == 3 {
        2
    } else if r == 4 {
        1
    } else {
        3
    }
}

/// Vertex `j` of face `k` in a flat per-vertex buffer.
pub open spec fn pos_entry(s: Seq<(u32, u32, u32)>, k: int, j: int) -> (u32, u32, u32) {
    s[4 * k + j]
}

/// Vertex `j` of face `k` in a flat normal buffer.
pub open spec fn nrm_entry(s: Seq<(i8, i8, i8)>, k: int, j: int) -> (i8, i8, i8) {
    s[4 * k + j]
}

/// Vertex `j` of face `k` in a flat atlas-coordinate buffer.
pub open spec fn uv_entry(s: Seq<(u16, u16)>, k: int, j: int) -> (u16, u16) {
    s[4 * k + j]
}

/// Entry `r` of face `k` in a flat triangle-index buffer.
pub open spec fn idx_entry(s: Seq<u32>, k: int, r: int) -> u32 {
    s[6 * k + r]
}

/// Whether an unsigned lattice point equals a mathematical one.
pub open spec fn vec3_is(p: (u32, u32, u32), c: (int, int, int)) -> bool {
    p.0 as int == c.0 && p.1 as int == c.1 && p.2 as int == c.2
}

/// Whether an atlas coordinate pair equals a mathematical one.
pub open spec fn uv_is(p: (u16, u16), c: (int, int)) -> bool {
    p.0 as int == c.0 && p.1 as int == c.1
}

/// The four flat buffers hold exactly the data of the faces `fl` of grid
/// `g`, face by face and vertex by vertex.
pub open spec fn buffers_render(
    ps: Seq<(u32, u32, u32)>,
    is: Seq<u32>,
    ns: Seq<(i8, i8, i8)>,
    us: Seq<(u16, u16)>,
    g: Seq<Vec<Vec<Voxel>>>,
    fl: Seq<(int, int, int, int)>,
) -> bool {
    &&& ps.len() == 4 * fl.len()
    &&& ns.len() == 4 * fl.len()
    &&& us.len() == 4 * fl.len()
    &&& is.len() == 6 * fl.len()
    &&& forall|k: int, j: int|
        0 <= k < fl.len() && 0 <= j < 4 ==> vec3_is(#[trigger] pos_entry(ps, k, j), face_corner(fl[k], j))
    &&& forall|k: int, j: int|
        0 <= k < fl.len() && 0 <= j < 4 ==> #[trigger] nrm_entry(ns, k, j) == dir_normal(fl[k].3)
    &&& forall|k: int, j: int|
        0 <= k < fl.len() && 0 <= j < 4 ==> uv_is(#[trigger] uv_entry(us, k, j), face_uv(face_kind(g, fl[k]), j))
    &&& forall|k: int, r: int|
        0 <= k < fl.len() && 0 <= r < 6 ==> (#[trigger] idx_entry(is, k, r)) as int == 4 * k + quad_index(r)
}

/// The mesh holds exactly the data of the faces `fl` of grid `g`.
pub open spec fn mesh_renders(
    md: MeshData,
    g: Seq<Vec<Vec<Voxel>>>,
    fl: Seq<(int, int, int, int)>,
) -> bool {
    buffers_render(md.positions@, md.indices@, md.normals@, md.uvs@, g, fl)
}

impl ChunkMesh {
    /// A mesh extractor for cubic grids of side `chunk_size`.
    pub fn new(chunk_size: usize) -> (r: ChunkMesh)
        ensures
            r.chunk_size == chunk_size,
    {
        ChunkMesh { chunk_size }
    }

    /// The six unit normals, in the fixed test order.
    pub fn get_directions(&self) -> (r: Vec<(i8, i8, i8)>)
        ensures
            r@.len() == 6,
            forall|d: int| 0 <= d < 6 ==> #[trigger] r@[d] == dir_normal(d),
    {
        let mut dirs: Vec<(i8, i8, i8)> = Vec::new();
        dirs.push((1, 0, 0));  // Right
        dirs.push((-1, 0, 0));  // Left
        dirs.push((0, 1, 0));  // Up
        dirs.push((0, -1, 0));  // Down
        dirs.push((0, 0, 1));  // Front
        dirs.push((0, 0, -1));  // Back
        dirs
    }

    /// The voxel at `offset`, or `None` when `offset` lies outside the
    /// grid.
    pub fn get_voxel(&self, world: &Vec<Vec<Vec<Voxel>>>, offset: Vector3) -> (r: Option<Voxel>)
        requires
            grid_wf(world@, self.chunk_size as int),
        ensures
            match r {
                Some(v) => in_bounds(
                    self.chunk_size as int,
                    offset.x as int,
                    offset.y as int,
                    offset.z as int,
                ) && v.value == vox_at(world@, offset.x as int, offset.y as int, offset.z as int),
                None => !in_bounds(
                    self.chunk_size as int,
                    offset.x as int,
                    offset.y as int,
                    offset.z as int,
                ),
            },
    {
        if offset.x >= 0 && (offset.x as usize) < self.chunk_size && offset.y >= 0 && (offset.y
            as usize) < self.chunk_size && offset.z >= 0 && (offset.z as usize) < self.chunk_size {
            Some(world[offset.x as usize][offset.y as usize][offset.z as usize])
        } else {
            None
        }
    }

    /// The four lattice corners of the face of cell `(x, y, z)` toward the
    /// direction of `normal`, in winding order.
    pub fn get_face_position(&self, normal: (i8, i8, i8), x: usize, y: usize, z: usize) -> (r: Vec<
        (u32, u32, u32),
    >)
        requires
            is_dir_normal(normal),
            x + 1 <= u32::MAX,
            y + 1 <= u32::MAX,
            z + 1 <= u32::MAX,
        ensures
            r@.len() == 4,
            forall|j: int|
                0 <= j < 4 ==> vec3_is(
                    #[trigger] r@[j],
                    face_corner((x as int, y as int, z as int, dir_index(normal)), j),
                ),
    {
        let x0 = x as u32;
        let y0 = y as u32;
        let z0 = z as u32;
        let x1 = x0 + 1;
        let y1 = y0 + 1;
        let z1 = z0 + 1;
        let mut r: Vec<(u32, u32, u32)> = Vec::new();
        if normal.0 == 1 && normal.1 == 0 && normal.2 == 0 {
            // Right face (x+)
            r.push((x1, y0, z0));
            r.push((x1, y1, z0));
            r.push((x1, y0, z1));
            r.push((x1, y1, z1));
        } else if normal.0 == -1 && normal.1 == 0 && normal.2 == 0 {
            // Left face (x-)
            r.push((x0, y0, z0));
            r.push((x0, y0, z1));
            r.push((x0, y1, z0));
            r.push((x0, y1, z1));
        } else if normal.0 == 0 && normal.1 == 1 && normal.2 == 0 {
            // Top face (y+)
            r.push((x0, y1, z0));
            r.push((x0, y1, z1));
            r.push((x1, y1, z0));
            r.push((x1, y1, z1));
        } else if normal.0 == 0 && normal.1 == -1 && normal.2 == 0 {
            // Bottom face (y-)
            r.push((x0, y0, z0));
            r.push((x1, y0, z0));
            r.push((x0, y0, z1));
            r.push((x1, y0, z1));
        } else if normal.0 == 0 && normal.1 == 0 && normal.2 == 1 {
            // Front face (z+)
            r.push((x0, y0, z1));
            r.push((x1, y0, z1));
            r.push((x0, y1, z1));
            r.push((x1, y1, z1));
        } else {
            // Back face (z-)
            proof {
                let d = choose|d: int| 0 <= d < 6 && normal == dir_normal(d);
                assert(normal == (0i8, 0i8, -1i8));
            }
            r.push((x0, y0, z0));
            r.push((x0, y1, z0));
            r.push((x1, y0, z0));
            r.push((x1, y1, z0));
        }
        r
    }
}

/// The faces of the cells before plane `y` of slice `x`, in scan order.
spec fn faces_prefix_y(g: Seq<Vec<Vec<Voxel>>>, n: int, x: int, y: int) -> Seq<(int, int, int, int)> {
    grid_faces_upto(g, n, x) + plane_faces_upto(g, n, x, y)
}

/// The faces of the cells before cell `z` of row `(x, y)`, in scan order.
spec fn faces_prefix_z(g: Seq<Vec<Vec<Voxel>>>, n: int, x: int, y: int, z: int) -> Seq<
    (int, int, int, int),
> {
    faces_prefix_y(g, n, x, y) + row_faces_upto(g, n, x, y, z)
}

/// The faces walked before direction `d` of cell `(x, y, z)`, in scan order.
spec fn faces_prefix_d(g: Seq<Vec<Vec<Voxel>>>, n: int, x: int, y: int, z: int, d: int) -> Seq<
    (int, int, int, int),
> {
    faces_prefix_z(g, n, x, y, z) + cell_faces_upto(g, n, x, y, z, d)
}

impl ChunkMesh {
    /// Mesh buffers for a grid of side `chunk_size`: one quad per exposed
    /// face of a solid voxel, in scan order, with positions, normals,
    /// atlas coordinates and triangle indices exactly as `mesh_renders`
    /// states. Returns an error exactly when the grid exposes a face of a
    /// material without an assigned atlas region, naming that material.
    /// The side length is capped at 500 so that the 32-bit triangle
    /// indices cannot overflow even on a grid of all-exposed faces.
    pub fn generate_chunk(&self, world: &Vec<Vec<Vec<Voxel>>>) -> (r: Result<MeshData, MeshError>)
        requires
            grid_wf(world@, self.chunk_size as int),
            self.chunk_size <= 500,
        ensures
            ({
                let g = world@;
                let fl = face_list(g, self.chunk_size as int);
                match r {
                    Ok(md) => mesh_renders(md, g, fl) && all_faces_tiled(g, fl),
                    Err(e) => exists|k: int|
                        0 <= k < fl.len() && !(#[trigger] face_kind(g, fl[k])).has_atlas_tile()
                            && e == MeshError::MissingAtlasTile(face_kind(g, fl[k])),
                }
            }),
    {
        let n: usize = self.chunk_size;
        let ghost g = world@;
        let ghost nn = n as int;
        let dirs = self.get_directions();
        let mut positions: Vec<(u32, u32, u32)> = Vec::new();
        let mut indices: Vec<u32> = Vec::new();
        let mut normals: Vec<(i8, i8, i8)> = Vec::new();
        let mut uvs: Vec<(u16, u16)> = Vec::new();
        // Vertices emitted so far; each face advances it by four.
        let mut index_offset: usize = 0;
        for x in 0..n
            invariant
                n == self.chunk_size,
                n <= 500,
                nn == n as int,
                g == world@,
                grid_wf(g, nn),
                dirs@.len() == 6,
                forall|d: int| 0 <= d < 6 ==> #[trigger] dirs@[d] == dir_normal(d),
                buffers_render(
                    positions@,
                    indices@,
                    normals@,
                    uvs@,
                    g,
                    grid_faces_upto(g, nn, x as int),
                ),
                index_offset == 4 * grid_faces_upto(g, nn, x as int).len(),
                all_faces_tiled(g, grid_faces_upto(g, nn, x as int)),
        {
            proof {
                assert(faces_prefix_y(g, nn, x as int, 0) =~= grid_faces_upto(g, nn, x as int));
            }
            for y in 0..n
                invariant
                    n == self.chunk_size,
                    n <= 500,
                    nn == n as int,
                    g == world@,
                    grid_wf(g, nn),
                    dirs@.len() == 6,
                    forall|d: int| 0 <= d < 6 ==> #[trigger] dirs@[d] == dir_normal(d),
                    x < n,
                    buffers_render(
                        positions@,
                        indices@,
                        normals@,
                        uvs@,
                        g,
                        faces_prefix_y(g, nn, x as int, y as int),
                    ),
                    index_offset == 4 * faces_prefix_y(g, nn, x as int, y as int).len(),
                    all_faces_tiled(g, faces_prefix_y(g, nn, x as int, y as int)),
            {
                proof {
                    assert(faces_prefix_z(g, nn, x as int, y as int, 0) =~= faces_prefix_y(
                        g,
                        nn,
                        x as int,
                        y as int,
                    ));
                }
                for z in 0..n
                    invariant
                        n == self.chunk_size,
                        n <= 500,
                        nn == n as int,
                        g == world@,
                        grid_wf(g, nn),
                        dirs@.len() == 6,
                        forall|d: int| 0 <= d < 6 ==> #[trigger] dirs@[d] == dir_normal(d),
                        x < n,
                        y < n,
                        buffers_render(
                            positions@,
                            indices@,
                            normals@,
                            uvs@,
                            g,
                            faces_prefix_z(g, nn, x as int, y as int, z as int),
                        ),
                        index_offset == 4 * faces_prefix_z(g, nn, x as int, y as int, z as int).len(),
                        all_faces_tiled(g, faces_prefix_z(g, nn, x as int, y as int, z as int)),
                {
                    let voxel = world[x][y][z];
                    if voxel.value != VoxelType::AIR {
                        proof {
                            assert(faces_prefix_d(g, nn, x as int, y as int, z as int, 0)
                                =~= faces_prefix_z(g, nn, x as int, y as int, z as int));
                        }
                        // traverse all directions
                        for d in 0..6usize
                            invariant
                                n == self.chunk_size,
                                n <= 500,
                                nn == n as int,
                                g == world@,
                                grid_wf(g, nn),
                                dirs@.len() == 6,
                                forall|dd: int| 0 <= dd < 6 ==> #[trigger] dirs@[dd] == dir_normal(dd),
                                x < n,
                                y < n,
                                z < n,
                                voxel.value == vox_at(g, x as int, y as int, z as int),
                                voxel.value != VoxelType::AIR,
                                buffers_render(
                                    positions@,
                                    indices@,
                                    normals@,
                                    uvs@,
                                    g,
                                    faces_prefix_d(g, nn, x as int, y as int, z as int, d as int),
                                ),
                                index_offset == 4 * faces_prefix_d(
                                    g,
                                    nn,
                                    x as int,
                                    y as int,
                                    z as int,
                                    d as int,
                                ).len(),
                                all_faces_tiled(
                                    g,
                                    faces_prefix_d(g, nn, x as int, y as int, z as int, d as int),
                                ),
                        {
                            let normal = dirs[d];
                            let neighbor = self.get_voxel(
                                world,
                                Vector3 {
                                    x: x as isize + normal.0 as isize,
                                    y: y as isize + normal.1 as isize,
                                    z: z as isize + normal.2 as isize,
                                },
                            );
                            let visible = match neighbor {
                                Option::None => true,
                                Option::Some(v) => v.value == VoxelType::AIR,
                            };
                            proof {
                                assert(visible == face_visible(
                                    g,
                                    nn,
                                    x as int,
                                    y as int,
                                    z as int,
                                    d as int,
                                ));
                            }
                            if visible {
                                let ghost f = (x as int, y as int, z as int, d as int);
                                let ghost fl0 = faces_prefix_d(
                                    g,
                                    nn,
                                    x as int,
                                    y as int,
                                    z as int,
                                    d as int,
                                );
                                proof {
                                    lemma_grid_faces_len(g, nn, x as int);
                                    lemma_plane_faces_len(g, nn, x as int, y as int);
                                    lemma_row_faces_len(g, nn, x as int, y as int, z as int);
                                    lemma_cell_faces_len(g, nn, x as int, y as int, z as int, d as int);
                                    assert(6 * nn * nn * (x as int) + 6 * nn * (y as int) + 6 * (
                                    z as int) + (d as int) <= 750000000) by (nonlinear_arith)
                                        requires
                                            1 <= nn <= 500,
                                            0 <= x as int <= nn - 1,
                                            0 <= y as int <= nn - 1,
                                            0 <= z as int <= nn - 1,
                                            0 <= d as int <= 6,
                                    ;
                                    assert(fl0.len() <= 750000000);
                                }
                                let uv_mod = match voxel.value.get_uvs_modifier() {
                                    Option::Some(m) => m,
                                    Option::None => {
                                        proof {
                                            lemma_face_list_mem(g, nn, f);
                                            let fl = face_list(g, nn);
                                            assert(fl.contains(f));
                                            let i = choose|i: int|
                                                0 <= i < fl.len() && fl[i] == f;
                                            assert(!(#[trigger] face_kind(g, fl[i])).has_atlas_tile());
                                        }
                                        return Result::Err(
                                            MeshError::MissingAtlasTile(voxel.value),
                                        );
                                    },
                                };
                                let base_index = index_offset as u32;
                                let face_positions = self.get_face_position(normal, x, y, z);
                                let ghost ps0 = positions@;
                                let ghost is0 = indices@;
                                let ghost ns0 = normals@;
                                let ghost us0 = uvs@;
                                positions.push(face_positions[0]);
                                positions.push(face_positions[1]);
                                positions.push(face_positions[2]);
                                positions.push(face_positions[3]);
                                indices.push(base_index);
                                indices.push(base_index + 1);
                                indices.push(base_index + 2);
                                indices.push(base_index + 2);
                                indices.push(base_index + 1);
                                indices.push(base_index + 3);
                                normals.push(normal);
                                normals.push(normal);
                                normals.push(normal);
                                normals.push(normal);
                                uvs.push((uv_mod.0 + 1, uv_mod.1 + 1));
                                uvs.push((uv_mod.0, uv_mod.1 + 1));
                                uvs.push((uv_mod.0 + 1, uv_mod.1));
                                uvs.push((uv_mod.0, uv_mod.1));
                                index_offset = index_offset + 4;
                                proof {
                                    let fl1 = faces_prefix_d(
                                        g,
                                        nn,
                                        x as int,
                                        y as int,
                                        z as int,
                                        d as int + 1,
                                    );
                                    assert(fl1 =~= fl0.push(f));
                                    assert(dir_index(normal) == d as int);
                                    assert forall|k: int, j: int|
                                        0 <= k < fl1.len() && 0 <= j < 4 implies vec3_is(
                                        #[trigger] pos_entry(positions@, k, j),
                                        face_corner(fl1[k], j),
                                    ) by {
                                        if k < fl0.len() {
                                            assert(pos_entry(positions@, k, j) == pos_entry(
                                                ps0,
                                                k,
                                                j,
                                            ));
                                        } else {
                                            assert(4 * k + j == ps0.len() + j);
                                            assert(positions@[4 * k + j] == face_positions@[j]);
                                        }
                                    }
                                    assert forall|k: int, j: int|
                                        0 <= k < fl1.len() && 0 <= j < 4 implies #[trigger] nrm_entry(
                                        normals@,
                                        k,
                                        j,
                                    ) == dir_normal(fl1[k].3) by {
                                        if k < fl0.len() {
                                            assert(nrm_entry(normals@, k, j) == nrm_entry(
                                                ns0,
                                                k,
                                                j,
                                            ));
                                        } else {
                                            assert(4 * k + j == ns0.len() + j);
                                            assert(normals@[4 * k + j] == normal);
                                        }
                                    }
                                    assert forall|k: int, j: int|
                                        0 <= k < fl1.len() && 0 <= j < 4 implies uv_is(
                                        #[trigger] uv_entry(uvs@, k, j),
                                        face_uv(face_kind(g, fl1[k]), j),
                                    ) by {
                                        if k < fl0.len() {
                                            assert(uv_entry(uvs@, k, j) == uv_entry(us0, k, j));
                                        } else {
                                            assert(4 * k + j == us0.len() + j);
                                            assert(fl1[k] == f);
                                        }
                                    }
                                    assert forall|k: int, r: int|
                                        0 <= k < fl1.len() && 0 <= r < 6 implies (
                                    #[trigger] idx_entry(indices@, k, r)) as int == 4 * k
                                        + quad_index(r) by {
                                        if k < fl0.len() {
                                            assert(idx_entry(indices@, k, r) == idx_entry(
                                                is0,
                                                k,
                                                r,
                                            ));
                                        } else {
                                            assert(6 * k + r == is0.len() + r);
                                            assert(base_index as int == 4 * k);
                                        }
                                    }
                                    assert forall|k: int|
                                        0 <= k < fl1.len() implies (#[trigger] face_kind(
                                        g,
                                        fl1[k],
                                    )).has_atlas_tile() by {
                                        if k < fl0.len() {
                                            assert(face_kind(g, fl0[k]).has_atlas_tile());
                                        } else {
                                            assert(fl1[k] == f);
                                        }
                                    }
                                }
                            }
                        }
                        proof {
                            assert(faces_prefix_z(g, nn, x as int, y as int, z as int + 1)
                                =~= faces_prefix_d(g, nn, x as int, y as int, z as int, 6));
                        }
                    } else {
                        proof {
                            lemma_cell_faces_not_solid(g, nn, x as int, y as int, z as int, 6);
                            assert(faces_prefix_z(g, nn, x as int, y as int, z as int + 1)
                                =~= faces_prefix_z(g, nn, x as int, y as int, z as int));
                        }
                    }
                }
                proof {
                    assert(faces_prefix_y(g, nn, x as int, y as int + 1) =~= faces_prefix_z(
                        g,
                        nn,
                        x as int,
                        y as int,
                        nn,
                    ));
                }
            }
            proof {
                assert(grid_faces_upto(g, nn, x as int + 1) =~= faces_prefix_y(
                    g,
                    nn,
                    x as int,
                    nn,
                ));
            }
        }
        Result::Ok(MeshData { positions, indices, normals, uvs })
    }
}

/// Every face in `fl` belongs to a material with an assigned atlas region.
pub open spec fn all_faces_tiled(g: Seq<Vec<Vec<Voxel>>>, fl: Seq<(int, int, int, int)>) -> bool {
    forall|k: int| 0 <= k < fl.len() ==> (#[trigger] face_kind(g, fl[k])).has_atlas_tile()
}

proof fn lemma_contains_push<A>(s: Seq<A>, a: A, f: A)
    ensures
        s.push(a).contains(f) <==> s.contains(f) || f == a,
{
    if s.contains(f) {
        let i = choose|i: int| 0 <= i < s.len() && s[i] == f;
        assert(s.push(a)[i] == f);
    }
    if f == a {
        assert(s.push(a)[s.len() as int] == f);
    }
    if s.push(a).contains(f) && f != a {
        let i = choose|i: int| 0 <= i < s.push(a).len() && s.push(a)[i] == f;
        assert(s[i] == f);
    }
}

proof fn lemma_contains_add<A>(s1: Seq<A>, s2: Seq<A>, f: A)
    ensures
        (s1 + s2).contains(f) <==> s1.contains(f) || s2.contains(f),
{
    if s1.contains(f) {
        let i = choose|i: int| 0 <= i < s1.len() && s1[i] == f;
        assert((s1 + s2)[i] == f);
    }
    if s2.contains(f) {
        let i = choose|i: int| 0 <= i < s2.len() && s2[i] == f;
        assert((s1 + s2)[s1.len() + i] == f);
    }
    if (s1 + s2).contains(f) {
        let i = choose|i: int| 0 <= i < (s1 + s2).len() && (s1 + s2)[i] == f;
        if i < s1.len() {
            assert(s1[i] == f);
        } else {
            assert(s2[i - s1.len()] == f);
        }
    }
}

proof fn lemma_cell_faces_mem(
    g: Seq<Vec<Vec<Voxel>>>,
    n: int,
    x: int,
    y: int,
    z: int,
    d: int,
    f: (int, int, int, int),
)
    ensures
        cell_faces_upto(g, n, x, y, z, d).contains(f) <==> (f.0 == x && f.1 == y && f.2 == z && 0
            <= f.3 < d && face_visible(g, n, x, y, z, f.3)),
    decreases d,
{
    if d > 0 {
        lemma_cell_faces_mem(g, n, x, y, z, d - 1, f);
        if face_visible(g, n, x, y, z, d - 1) {
            lemma_contains_push(cell_faces_upto(g, n, x, y, z, d - 1), (x, y, z, d - 1), f);
        }
    }
}

proof fn lemma_row_faces_mem(
    g: Seq<Vec<Vec<Voxel>>>,
    n: int,
    x: int,
    y: int,
    z: int,
    f: (int, int, int, int),
)
    ensures
        row_faces_upto(g, n, x, y, z).contains(f) <==> (f.0 == x && f.1 == y && 0 <= f.2 < z && 0
            <= f.3 < 6 && face_visible(g, n, x, y, f.2, f.3)),
    decreases z,
{
    if z > 0 {
        lemma_row_faces_mem(g, n, x, y, z - 1, f);
        lemma_cell_faces_mem(g, n, x, y, z - 1, 6, f);
        lemma_contains_add(
            row_faces_upto(g, n, x, y, z - 1),
            cell_faces_upto(g, n, x, y, z - 1, 6),
            f,
        );
    }
}

proof fn lemma_plane_faces_mem(
    g: Seq<Vec<Vec<Voxel>>>,
    n: int,
    x: int,
    y: int,
    f: (int, int, int, int),
)
    ensures
        plane_faces_upto(g, n, x, y).contains(f) <==> (f.0 == x && 0 <= f.1 < y && 0 <= f.2 < n
            && 0 <= f.3 < 6 && face_visible(g, n, x, f.1, f.2, f.3)),
    decreases y,
{
    if y > 0 {
        lemma_plane_faces_mem(g, n, x, y - 1, f);
        lemma_row_faces_mem(g, n, x, y - 1, n, f);
        lemma_contains_add(
            plane_faces_upto(g, n, x, y - 1),
            row_faces_upto(g, n, x, y - 1, n),
            f,
        );
    }
}

proof fn lemma_grid_faces_mem(g: Seq<Vec<Vec<Voxel>>>, n: int, x: int, f: (int, int, int, int))
    ensures
        grid_faces_upto(g, n, x).contains(f) <==> (0 <= f.0 < x && 0 <= f.1 < n && 0 <= f.2 < n
            && 0 <= f.3 < 6 && face_visible(g, n, f.0, f.1, f.2, f.3)),
    decreases x,
{
    if x > 0 {
        lemma_grid_faces_mem(g, n, x - 1, f);
        lemma_plane_faces_mem(g, n, x - 1, n, f);
        lemma_contains_add(grid_faces_upto(g, n, x - 1), plane_faces_upto(g, n, x - 1, n), f);
    }
}

/// The face list is sound and complete: it holds a face exactly when the
/// face's cell is solid and its neighbor in the face's direction is air or
/// outside the grid.
pub proof fn lemma_face_list_mem(g: Seq<Vec<Vec<Voxel>>>, n: int, f: (int, int, int, int))
    ensures
        face_list(g, n).contains(f) <==> (in_bounds(n, f.0, f.1, f.2) && 0 <= f.3 < 6
            && face_visible(g, n, f.0, f.1, f.2, f.3)),
{
    lemma_grid_faces_mem(g, n, n, f);
}

/// A solid voxel at the grid boundary always exposes its outward face: a
/// neighbor outside the grid counts as visible-through.
pub proof fn lemma_boundary_face(g: Seq<Vec<Vec<Voxel>>>, n: int, x: int, y: int, z: int, d: int)
    requires
        solid_at(g, n, x, y, z),
        0 <= d < 6,
        !in_bounds(
            n,
            x + dir_normal(d).0 as int,
            y + dir_normal(d).1 as int,
            z + dir_normal(d).2 as int,
        ),
    ensures
        face_list(g, n).contains((x, y, z, d)),
{
    lemma_face_list_mem(g, n, (x, y, z, d));
}

/// Two adjacent solid voxels share no emitted face on their shared side:
/// neither cell's face toward the other is in the face list.
pub proof fn lemma_no_face_between_solids(
    g: Seq<Vec<Vec<Voxel>>>,
    n: int,
    x: int,
    y: int,
    z: int,
    d: int,
)
    requires
        0 <= d < 6,
        solid_at(g, n, x, y, z),
        solid_at(
            g,
            n,
            x + dir_normal(d).0 as int,
            y + dir_normal(d).1 as int,
            z + dir_normal(d).2 as int,
        ),
    ensures
        !face_list(g, n).contains((x, y, z, d)),
        !face_list(g, n).contains(
            (
                x + dir_normal(d).0 as int,
                y + dir_normal(d).1 as int,
                z + dir_normal(d).2 as int,
                opposite_dir(d),
            ),
        ),
{
    lemma_face_list_mem(g, n, (x, y, z, d));
    lemma_face_list_mem(
        g,
        n,
        (
            x + dir_normal(d).0 as int,
            y + dir_normal(d).1 as int,
            z + dir_normal(d).2 as int,
            opposite_dir(d),
        ),
    );
}

proof fn lemma_cell_faces_not_solid(
    g: Seq<Vec<Vec<Voxel>>>,
    n: int,
    x: int,
    y: int,
    z: int,
    d: int,
)
    requires
        !solid_at(g, n, x, y, z),
        0 <= d,
    ensures
        cell_faces_upto(g, n, x, y, z, d) =~= Seq::<(int, int, int, int)>::empty(),
    decreases d,
{
    if d > 0 {
        lemma_cell_faces_not_solid(g, n, x, y, z, d - 1);
    }
}

proof fn lemma_cell_faces_len(g: Seq<Vec<Vec<Voxel>>>, n: int, x: int, y: int, z: int, d: int)
    requires
        0 <= d,
    ensures
        cell_faces_upto(g, n, x, y, z, d).len() <= d,
    decreases d,
{
    if d > 0 {
        lemma_cell_faces_len(g, n, x, y, z, d - 1);
    }
}

proof fn lemma_row_faces_len(g: Seq<Vec<Vec<Voxel>>>, n: int, x: int, y: int, z: int)
    requires
        0 <= z,
    ensures
        row_faces_upto(g, n, x, y, z).len() <= 6 * z,
    decreases z,
{
    if z > 0 {
        lemma_row_faces_len(g, n, x, y, z - 1);
        lemma_cell_faces_len(g, n, x, y, z - 1, 6);
    }
}

proof fn lemma_plane_faces_len(g: Seq<Vec<Vec<Voxel>>>, n: int, x: int, y: int)
    requires
        0 <= y,
        0 <= n,
    ensures
        plane_faces_upto(g, n, x, y).len() <= 6 * n * y,
    decreases y,
{
    if y > 0 {
        lemma_plane_faces_len(g, n, x, y - 1);
        lemma_row_faces_len(g, n, x, y - 1, n);
        assert(6 * n * (y - 1) + 6 * n == 6 * n * y) by (nonlinear_arith);
    }
}

proof fn lemma_grid_faces_len(g: Seq<Vec<Vec<Voxel>>>, n: int, x: int)
    requires
        0 <= x,
        0 <= n,
    ensures
        grid_faces_upto(g, n, x).len() <= 6 * n * n * x,
    decreases x,
{
    if x > 0 {
        lemma_grid_faces_len(g, n, x - 1);
        lemma_plane_faces_len(g, n, x - 1, n);
        assert(6 * n * n * (x - 1) + 6 * n * n == 6 * n * n * x) by (nonlinear_arith);
    }
}

/// Every triangle index of a rendered mesh points into the vertex buffers:
/// the index buffer's length is six per face, the vertex buffers' four per
/// face, and each index is below the vertex count.
pub proof fn lemma_mesh_indices_valid(
    md: MeshData,
    g: Seq<Vec<Vec<Voxel>>>,
    fl: Seq<(int, int, int, int)>,
)
    requires
        mesh_renders(md, g, fl),
    ensures
        md.indices@.len() == 6 * fl.len(),
        md.positions@.len() == 4 * fl.len(),
        forall|i: int|
            0 <= i < md.indices@.len() ==> ((#[trigger] md.indices@[i]) as int) < md.positions@.len() as int,
{
    assert forall|i: int|
        0 <= i < md.indices@.len() implies ((#[trigger] md.indices@[i]) as int)
        < md.positions@.len() as int by {
        let k = i / 6;
        let r = i % 6;
        vstd::arithmetic::div_mod::lemma_fundamental_div_mod(i, 6);
        vstd::arithmetic::div_mod::lemma_mod_bound(i, 6);
        assert(0 <= r < 6);
        assert(i == 6 * k + r);
        assert(k < fl.len());
        assert(md.indices@[i] == idx_entry(md.indices@, k, r));
        assert(idx_entry(md.indices@, k, r) as int == 4 * k + quad_index(r));
    }
}

} // verus!
