//! Voxel materials and noise-driven terrain generation.
//!
//! A chunk is a dense cubic grid of voxels. For every horizontal column the
//! host samples two seeded noise fields and hands them over in fixed-point
//! form (thousandths); the generator combines them (five-thousandths),
//! classifies the column's material by a threshold ladder, and places a
//! single voxel of that material at a noise-derived height; every other
//! cell of the column stays air.

use vstd::prelude::*;

verus! {

/// The closed set of voxel materials. `AIR` is the empty state; every other
/// kind is solid for meshing purposes.
#[derive(Debug, Clone, Copy, PartialEq, Eq, Structural)]
pub enum VoxelType {
    AIR,
    GRASS,
    DIRT,
    WOOD,
    SAND,
    ROCK,
    COAL,
    ICE,
    GOLD,
    LAVA,
}

/// A single grid cell: just a material.
#[derive(Debug, Clone, Copy, PartialEq, Eq, Structural)]
pub struct Voxel {
    pub value: VoxelType,
}

/// An integer translation in the world lattice.
#[derive(Debug, Clone, Copy, PartialEq, Eq, Structural)]
pub struct Vector3 {
    pub x: isize,
    pub y: isize,
    pub z: isize,
}

/// An integer pair, used by hosts for horizontal chunk coordinates.
#[derive(Debug, Clone, Copy, PartialEq, Eq, Structural)]
pub struct Vector2 {
    pub x: isize,
    pub y: isize,
}

/// The two noise fields of one horizontal column, in thousandths: the
/// low-frequency field already scaled by 3, the high-frequency field
/// already scaled by 5. The host samples its seeded noise source at the
/// column's world position and rounds down to this fixed-point form.
#[derive(Debug, Clone, Copy, PartialEq, Eq, Structural)]
pub struct ColumnSample {
    pub low_milli: i64,
    pub high_milli: i64,
}

/// The terrain generator: a cubic chunk side length and the seed under
/// which the host samples its noise fields.
#[derive(Debug, Clone)]
pub struct ChunkUtil {
    pub chunk_size: usize,
    pub seed: u32,
}

impl VoxelType {
    /// The display name of each material.
    pub open spec fn spec_name(self) -> Seq<char> {
        match self {
            VoxelType::AIR => "AIR"@,
            VoxelType::GRASS => "GRASS"@,
            VoxelType::DIRT => "DIRT"@,
            VoxelType::WOOD => "WOOD"@,
            VoxelType::SAND => "SAND"@,
            VoxelType::ROCK => "ROCK"@,
            VoxelType::COAL => "COAL"@,
            VoxelType::ICE => "ICE"@,
            VoxelType::GOLD => "GOLD"@,
            VoxelType::LAVA => "LAVA"@,
        }
    }

    /// Whether the material has a region of the texture atlas assigned.
    /// Air needs none; wood, coal, gold and lava are materials whose atlas
    /// placement is not defined, and meshing a grid that exposes them is a
    /// reported error rather than a guessed placement.
    pub open spec fn has_atlas_tile(self) -> bool {
        match self {
            VoxelType::GRASS => true,
            VoxelType::DIRT => true,
            VoxelType::SAND => true,
            VoxelType::ROCK => true,
            VoxelType::ICE => true,
            _ => false,
        }
    }

    /// The material's atlas region, as a `(u, v)` offset in sixteenths of
    /// the atlas (the atlas is a 16 by 16 grid of tiles).
    pub open spec fn atlas_tile_spec(self) -> (int, int) {
        match self {
            VoxelType::GRASS => (1, 9),
            VoxelType::DIRT => (2, 0),
            VoxelType::SAND => (2, 1),
            VoxelType::ROCK => (0, 1),
            VoxelType::ICE => (2, 4),
            _ => (0, 0),
        }
    }

    /// The material's atlas offset in sixteenths of the atlas, or `None`
    /// for a material without an assigned atlas region.
    pub fn get_uvs_modifier(&self) -> (r: Option<(u16, u16)>)
        ensures
            match r {
                Some(m) => self.has_atlas_tile() && m.0 as int == self.atlas_tile_spec().0
                    && m.1 as int == self.atlas_tile_spec().1,
                None => !self.has_atlas_tile(),
            },
    {
        match self {
            VoxelType::GRASS => Some((1, 9)),
            VoxelType::DIRT => Some((2, 0)),
            VoxelType::SAND => Some((2, 1)),
            VoxelType::ROCK => Some((0, 1)),
            VoxelType::ICE => Some((2, 4)),
            _ => None,
        }
    }

    /// The material's name, in upper case.
    pub fn to_string(&self) -> (r: &str)
        ensures
            r@ == self.spec_name(),
    {
        match self {
            VoxelType::AIR => "AIR",
            VoxelType::GRASS => "GRASS",
            VoxelType::DIRT => "DIRT",
            VoxelType::WOOD => "WOOD",
            VoxelType::SAND => "SAND",
            VoxelType::ROCK => "ROCK",
            VoxelType::COAL => "COAL",
            VoxelType::ICE => "ICE",
            VoxelType::GOLD => "GOLD",
            VoxelType::LAVA => "LAVA",
        }
    }
}

/// The two fields combined in five-thousandths: `5*low + 4*high` stands for
/// `low + 0.8 * high` with both fields in thousandths.
pub open spec fn combined_noise(low_milli: int, high_milli: int) -> int {
    5 * low_milli + 4 * high_milli
}

/// The threshold ladder, first match wins: a combined value above 5 gives
/// ice, else a low field above 1.2 gives rock, else a positive combined
/// value gives grass, else sand. `low_milli` is in thousandths,
/// `combined_5mil` in five-thousandths.
pub open spec fn classify_spec(low_milli: int, combined_5mil: int) -> VoxelType {
    if combined_5mil > 25000 {
        VoxelType::ICE
    } else if low_milli > 1200 {
        VoxelType::ROCK
    } else if combined_5mil > 0 {
        VoxelType::GRASS
    } else {
        VoxelType::SAND
    }
}

/// The vertical index of a column's single voxel: the combined value plus
/// 16, rounded down, clamped into `[0, n)`.
pub open spec fn surface_height_spec(combined_5mil: int, n: int) -> int {
    let raw = combined_5mil + 80000;
    let h = if raw < 0 {
        0
    } else {
        raw / 5000
    };
    if h >= n {
        n - 1
    } else {
        h
    }
}

/// The material of the single voxel of a column sampled as `s`.
pub open spec fn column_kind(s: ColumnSample) -> VoxelType {
    classify_spec(
        s.low_milli as int,
        combined_noise(s.low_milli as int, s.high_milli as int),
    )
}

/// The vertical index of the single voxel of a column sampled as `s`, in a
/// chunk of side `n`.
pub open spec fn column_height(s: ColumnSample, n: int) -> int {
    surface_height_spec(combined_noise(s.low_milli as int, s.high_milli as int), n)
}

/// What the generator puts at height `y` of a column sampled as `s`: the
/// column's material at the column's height, air everywhere else.
pub open spec fn cell_spec(s: ColumnSample, n: int, y: int) -> VoxelType {
    if y == column_height(s, n) {
        column_kind(s)
    } else {
        VoxelType::AIR
    }
}

/// A square table of column samples of side `n`, indexed `[x][z]`.
pub open spec fn samples_wf(ss: Seq<Vec<ColumnSample>>, n: int) -> bool {
    &&& ss.len() == n
    &&& forall|x: int| 0 <= x < n ==> (#[trigger] ss[x])@.len() == n
}

/// A dense cubic grid of side `n`, indexed `[x][y][z]`.
pub open spec fn grid_wf(g: Seq<Vec<Vec<Voxel>>>, n: int) -> bool {
    &&& g.len() == n
    &&& forall|x: int| 0 <= x < n ==> (#[trigger] g[x])@.len() == n
    &&& forall|x: int, y: int|
        0 <= x < n && 0 <= y < n ==> (#[trigger] g[x]@[y])@.len() == n
}

/// The material held at cell `(x, y, z)` of a grid.
pub open spec fn vox_at(g: Seq<Vec<Vec<Voxel>>>, x: int, y: int, z: int) -> VoxelType {
    g[x]@[y]@[z].value
}

/// A grid of side `n` whose every cell is what the generator produces from
/// the sample table `ss`.
pub open spec fn grid_matches(
    g: Seq<Vec<Vec<Voxel>>>,
    n: int,
    ss: Seq<Vec<ColumnSample>>,
) -> bool {
    &&& grid_wf(g, n)
    &&& forall|x: int, y: int, z: int|
        0 <= x < n && 0 <= y < n && 0 <= z < n ==> #[trigger] vox_at(g, x, y, z) == cell_spec(
            ss[x]@[z],
            n,
            y,
        )
}

/// The fixed-point combination of a column's two fields.
pub fn combine_noise(low_milli: i64, high_milli: i64) -> (r: i128)
    ensures
        r == combined_noise(low_milli as int, high_milli as int),
{
    5 * (low_milli as i128) + 4 * (high_milli as i128)
}

/// The threshold ladder on the fixed-point fields.
pub fn classify_voxel(low_milli: i64, combined_5mil: i128) -> (r: VoxelType)
    ensures
        r == classify_spec(low_milli as int, combined_5mil as int),
{
    if combined_5mil > 25000 {
        VoxelType::ICE
    } else if low_milli > 1200 {
        VoxelType::ROCK
    } else if combined_5mil > 0 {
        VoxelType::GRASS
    } else {
        VoxelType::SAND
    }
}

/// The vertical index of a column's voxel, clamped into the grid.
pub fn surface_height(combined_5mil: i128, chunk_size: usize) -> (r: usize)
    requires
        1 <= chunk_size,
        combined_5mil + 80000 <= i128::MAX,
    ensures
        r == surface_height_spec(combined_5mil as int, chunk_size as int),
{
    let raw: i128 = combined_5mil + 80000;
    if raw < 0 {
        0
    } else {
        let h: u128 = (raw as u128) / 5000;
        if h >= chunk_size as u128 {
            chunk_size - 1
        } else {
            h as usize
        }
    }
}

impl ChunkUtil {
    /// A generator for cubic chunks of side `chunk_size`, seeded with `seed`.
    pub fn new(chunk_size: usize, seed: u32) -> (r: ChunkUtil)
        ensures
            r.chunk_size == chunk_size,
            r.seed == seed,
    {
        ChunkUtil { chunk_size, seed }
    }

    /// The material and vertical index of the single voxel of a column
    /// sampled as `s`.
    pub fn column_voxel(&self, s: &ColumnSample) -> (r: (VoxelType, usize))
        requires
            1 <= self.chunk_size,
        ensures
            r.0 == column_kind(*s),
            r.1 == column_height(*s, self.chunk_size as int),
    {
        let combined: i128 = combine_noise(s.low_milli, s.high_milli);
        let kind = classify_voxel(s.low_milli, combined);
        let height: usize = surface_height(combined, self.chunk_size);
        (kind, height)
    }

    /// A dense cubic voxel grid built from one column sample per `(x, z)`:
    /// every column holds a single solid voxel, of the column's material at
    /// the column's height, and air everywhere else. Pure in
    /// `(chunk_size, samples)`.
    pub fn generate_voxel_world(&self, samples: &Vec<Vec<ColumnSample>>) -> (world: Vec<
        Vec<Vec<Voxel>>,
    >)
        requires
            1 <= self.chunk_size,
            samples_wf(samples@, self.chunk_size as int),
        ensures
            grid_matches(world@, self.chunk_size as int, samples@),
    {
        let n: usize = self.chunk_size;
        let mut world: Vec<Vec<Vec<Voxel>>> = Vec::new();
        for x in 0..n
            invariant
                n == self.chunk_size,
                1 <= n,
                samples_wf(samples@, n as int),
                world@.len() == x,
                forall|xx: int| 0 <= xx < x ==> (#[trigger] world@[xx])@.len() == n,
                forall|xx: int, yy: int|
                    0 <= xx < x && 0 <= yy < n ==> (#[trigger] world@[xx]@[yy])@.len() == n,
                forall|xx: int, yy: int, zz: int|
                    0 <= xx < x && 0 <= yy < n && 0 <= zz < n ==> #[trigger] vox_at(
                        world@,
                        xx,
                        yy,
                        zz,
                    ) == cell_spec(samples@[xx]@[zz], n as int, yy),
        {
            // The material and height of every column of this x-slice.
            let mut kinds: Vec<VoxelType> = Vec::new();
            let mut heights: Vec<usize> = Vec::new();
            for z in 0..n
                invariant
                    n == self.chunk_size,
                    1 <= n,
                    samples_wf(samples@, n as int),
                    x < n,
                    kinds@.len() == z,
                    heights@.len() == z,
                    forall|zz: int|
                        0 <= zz < z ==> #[trigger] kinds@[zz] == column_kind(samples@[x as int]@[zz]),
                    forall|zz: int|
                        0 <= zz < z ==> #[trigger] heights@[zz] == column_height(
                            samples@[x as int]@[zz],
                            n as int,
                        ),
            {
                let (kind, height) = self.column_voxel(&samples[x][z]);
                kinds.push(kind);
                heights.push(height);
            }
            // The x-slice, indexed [y][z].
            let mut plane: Vec<Vec<Voxel>> = Vec::new();
            for y in 0..n
                invariant
                    n == self.chunk_size,
                    samples_wf(samples@, n as int),
                    x < n,
                    kinds@.len() == n,
                    heights@.len() == n,
                    forall|zz: int|
                        0 <= zz < n ==> #[trigger] kinds@[zz] == column_kind(samples@[x as int]@[zz]),
                    forall|zz: int|
                        0 <= zz < n ==> #[trigger] heights@[zz] == column_height(
                            samples@[x as int]@[zz],
                            n as int,
                        ),
                    plane@.len() == y,
                    forall|yy: int| 0 <= yy < y ==> (#[trigger] plane@[yy])@.len() == n,
                    forall|yy: int, zz: int|
                        0 <= yy < y && 0 <= zz < n ==> #[trigger] plane@[yy]@[zz].value
                            == cell_spec(samples@[x as int]@[zz], n as int, yy),
            {
                let mut row: Vec<Voxel> = Vec::new();
                for z in 0..n
                    invariant
                        n == self.chunk_size,
                        samples_wf(samples@, n as int),
                        x < n,
                        y < n,
                        kinds@.len() == n,
                        heights@.len() == n,
                        forall|zz: int|
                            0 <= zz < n ==> #[trigger] kinds@[zz] == column_kind(
                                samples@[x as int]@[zz],
                            ),
                        forall|zz: int|
                            0 <= zz < n ==> #[trigger] heights@[zz] == column_height(
                                samples@[x as int]@[zz],
                                n as int,
                            ),
                        row@.len() == z,
                        forall|zz: int|
                            0 <= zz < z ==> #[trigger] row@[zz].value == cell_spec(
                                samples@[x as int]@[zz],
                                n as int,
                                y as int,
                            ),
                {
                    let value = if heights[z] == y {
                        kinds[z]
                    } else {
                        VoxelType::AIR
                    };
                    row.push(Voxel { value });
                }
                plane.push(row);
            }
            let ghost world0 = world@;
            world.push(plane);
            proof {
                assert forall|xx: int, yy: int, zz: int|
                    0 <= xx < x + 1 && 0 <= yy < n && 0 <= zz < n implies #[trigger] vox_at(
                    world@,
                    xx,
                    yy,
                    zz,
                ) == cell_spec(samples@[xx]@[zz], n as int, yy) by {
                    if xx == x as int {
                        assert(world@[xx] == plane);
                    } else {
                        assert(world@[xx] == world0[xx]);
                        assert(vox_at(world0, xx, yy, zz) == cell_spec(
                            samples@[xx]@[zz],
                            n as int,
                            yy,
                        ));
                    }
                }
            }
        }
        world
    }
}

/// For a fixed chunk size and sample table the generator's output is pinned
/// cell by cell: two grids that both match it are equal everywhere.
pub proof fn lemma_generate_deterministic(
    a: Seq<Vec<Vec<Voxel>>>,
    b: Seq<Vec<Vec<Voxel>>>,
    n: int,
    ss: Seq<Vec<ColumnSample>>,
)
    requires
        grid_matches(a, n, ss),
        grid_matches(b, n, ss),
    ensures
        forall|x: int, y: int, z: int|
            0 <= x < n && 0 <= y < n && 0 <= z < n ==> #[trigger] vox_at(a, x, y, z) == vox_at(
                b,
                x,
                y,
                z,
            ),
{
}

/// In a generated grid every column holds at most one non-air voxel: two
/// solid cells of one column share their vertical index.
pub proof fn lemma_single_voxel_per_column(
    g: Seq<Vec<Vec<Voxel>>>,
    n: int,
    ss: Seq<Vec<ColumnSample>>,
    x: int,
    z: int,
    y1: int,
    y2: int,
)
    requires
        grid_matches(g, n, ss),
        0 <= x < n,
        0 <= z < n,
        0 <= y1 < n,
        0 <= y2 < n,
        vox_at(g, x, y1, z) != VoxelType::AIR,
        vox_at(g, x, y2, z) != VoxelType::AIR,
    ensures
        y1 == y2,
{
    assert(vox_at(g, x, y1, z) == cell_spec(ss[x]@[z], n, y1));
    assert(vox_at(g, x, y2, z) == cell_spec(ss[x]@[z], n, y2));
}

/// The threshold ladder is exhaustive and unambiguous: every pair of field
/// values yields exactly one of ice, rock, grass and sand, never air.
pub proof fn lemma_classify_exhaustive(low_milli: int, combined_5mil: int)
    ensures
        classify_spec(low_milli, combined_5mil) == VoxelType::ICE || classify_spec(
            low_milli,
            combined_5mil,
        ) == VoxelType::ROCK || classify_spec(low_milli, combined_5mil) == VoxelType::GRASS
            || classify_spec(low_milli, combined_5mil) == VoxelType::SAND,
        classify_spec(low_milli, combined_5mil) != VoxelType::AIR,
{
}

} // verus!
