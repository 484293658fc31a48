use vstd::prelude::*;

use crate::math::{IVec3, Vec3};
use crate::quad::{new_quad, normal_spec, quad_seq, Direction};
use crate::tools::ToUsize;
use crate::world::{
    exposed_dirs, lemma_world_neighbours_wf, nb_wf, world_neighbour_chunks, world_neighbours,
    VoxelWorld,
};

verus! {

/// Edge length of a cubical chunk, in voxels.
pub const CHUNK_SIZE: i32 = 32;

/// Seed for the noise oracle that the host samples when it prepares
/// generation inputs.
pub const SEED: u64 = 1111;

/// Dense occupancy grid of one chunk: a flat, row-major `[x][y][z]`
/// array of booleans (`true` = solid), together with the chunk's own
/// chunk-space position in the world grid.
pub struct ChunkData {
    pub data: Vec<bool>,
    pub pos: IVec3,
}

/// Row-major index of local voxel coordinate (x, y, z) in a chunk's
/// flat occupancy array.
pub open spec fn vidx(x: int, y: int, z: int) -> int {
    x * 1024 + y * 32 + z
}

/// Row-major index of an (x, z) column in a per-column table.
pub open spec fn cidx(x: int, z: int) -> int {
    x * 32 + z
}

impl ChunkData {
    /// Well-formed: the flat occupancy array covers all 32^3 voxels.
    pub closed spec fn wf(self) -> bool {
        self.data@.len() == 32768
    }

    /// Occupancy of the voxel at local coordinate (x, y, z): `true`
    /// means solid. Meaningful for coordinates in `[0, 32)`.
    pub closed spec fn voxel(self, x: int, y: int, z: int) -> bool {
        self.data@[vidx(x, y, z)]
    }

    /// Reads one voxel. Coordinates convert through `ToUsize` and
    /// must land inside the grid.
    pub fn get<T: ToUsize>(&self, x: T, y: T, z: T) -> (b: bool)
        requires
            self.wf(),
            x.to_usize_spec() < 32,
            y.to_usize_spec() < 32,
            z.to_usize_spec() < 32,
        ensures
            b == self.voxel(
                x.to_usize_spec() as int,
                y.to_usize_spec() as int,
                z.to_usize_spec() as int,
            ),
    {
        let xi: usize = x.to_usize();
        let yi: usize = y.to_usize();
        let zi: usize = z.to_usize();
        self.data[xi * 1024 + yi * 32 + zi]
    }
}

/// A chunk: one occupancy grid plus the chunk-space position, which
/// duplicates the grid's own copy.
pub struct Chunk {
    pub position: IVec3,
    pub data: ChunkData,
}

/// Read-only snapshot of the (up to) six chunks axis-adjacent to a
/// centre coordinate, captured from the world store when it is built.
/// Slots hold the +X, -X, +Y, -Y, +Z, -Z neighbours in that order.
/// The snapshot does not follow later changes of the store.
pub struct ChunkNeighbours<'a> {
    chunks: [Option<&'a Chunk>; 6],
}

/// Which snapshot slot a unit offset vector selects (+X, -X, +Y, -Y,
/// +Z, -Z in that order), or -1 for any other vector.
pub open spec fn dir_slot(pos: IVec3) -> int {
    if pos == (IVec3 { x: 1, y: 0, z: 0 }) {
        0
    } else if pos == (IVec3 { x: -1i32, y: 0, z: 0 }) {
        1
    } else if pos == (IVec3 { x: 0, y: 1, z: 0 }) {
        2
    } else if pos == (IVec3 { x: 0, y: -1i32, z: 0 }) {
        3
    } else if pos == (IVec3 { x: 0, y: 0, z: 1 }) {
        4
    } else if pos == (IVec3 { x: 0, y: 0, z: -1i32 }) {
        5
    } else {
        -1
    }
}

impl<'a> ChunkNeighbours<'a> {
    /// The snapshot's six slots.
    pub closed spec fn chunks_seq(self) -> Seq<Option<Chunk>> {
        Seq::new(
            6,
            |i: int|
                match self.chunks@[i] {
                    Some(c) => Some(*c),
                    None => None,
                },
        )
    }

    /// The snapshot's six slots, reduced to the neighbouring grids.
    pub closed spec fn as_seq(self) -> Seq<Option<ChunkData>> {
        Seq::new(
            6,
            |i: int|
                match self.chunks@[i] {
                    Some(c) => Some(c.data),
                    None => None,
                },
        )
    }

    /// Captures the six axis-adjacent chunks around `middle_chunk`
    /// from the world store.
    pub fn new(voxel_world: &'a VoxelWorld, middle_chunk: IVec3) -> (nb: ChunkNeighbours<'a>)
        requires
            voxel_world.wf(),
            i32::MIN < middle_chunk.x < i32::MAX,
            i32::MIN < middle_chunk.y < i32::MAX,
            i32::MIN < middle_chunk.z < i32::MAX,
        ensures
            nb.chunks_seq() == world_neighbour_chunks(*voxel_world, middle_chunk),
            nb.as_seq() == world_neighbours(*voxel_world, middle_chunk),
            nb_wf(nb.as_seq()),
    {
        let x = voxel_world.get_chunk(
            IVec3::new(middle_chunk.x + 1, middle_chunk.y, middle_chunk.z),
        );
        let neg_x = voxel_world.get_chunk(
            IVec3::new(middle_chunk.x - 1, middle_chunk.y, middle_chunk.z),
        );
        let y = voxel_world.get_chunk(
            IVec3::new(middle_chunk.x, middle_chunk.y + 1, middle_chunk.z),
        );
        let neg_y = voxel_world.get_chunk(
            IVec3::new(middle_chunk.x, middle_chunk.y - 1, middle_chunk.z),
        );
        let z = voxel_world.get_chunk(
            IVec3::new(middle_chunk.x, middle_chunk.y, middle_chunk.z + 1),
        );
        let neg_z = voxel_world.get_chunk(
            IVec3::new(middle_chunk.x, middle_chunk.y, middle_chunk.z - 1),
        );
        let nb = ChunkNeighbours { chunks: [x, neg_x, y, neg_y, z, neg_z] };
        proof {
            assert(nb.chunks_seq() =~= world_neighbour_chunks(*voxel_world, middle_chunk));
            assert(nb.as_seq() =~= world_neighbours(*voxel_world, middle_chunk));
            lemma_world_neighbours_wf(*voxel_world, middle_chunk);
        }
        nb
    }

    /// Looks a neighbour up by its unit offset vector; any other
    /// vector selects nothing.
    pub fn get(&self, pos: IVec3) -> (r: Option<&'a Chunk>)
        ensures
            dir_slot(pos) >= 0 ==> match r {
                Some(c) => self.chunks_seq()[dir_slot(pos)] == Some(*c) && self.as_seq()[dir_slot(
                    pos,
                )] == Some(c.data),
                None => self.as_seq()[dir_slot(pos)] is None,
            },
            dir_slot(pos) < 0 ==> r is None,
    {
        if pos.x == 1 && pos.y == 0 && pos.z == 0 {
            self.chunks[0]
        } else if pos.x == -1 && pos.y == 0 && pos.z == 0 {
            self.chunks[1]
        } else if pos.x == 0 && pos.y == 1 && pos.z == 0 {
            self.chunks[2]
        } else if pos.x == 0 && pos.y == -1 && pos.z == 0 {
            self.chunks[3]
        } else if pos.x == 0 && pos.y == 0 && pos.z == 1 {
            self.chunks[4]
        } else if pos.x == 0 && pos.y == 0 && pos.z == -1 {
            self.chunks[5]
        } else {
            None
        }
    }
}

/// What the volumetric policy guarantees: the grid holds exactly the
/// solidity samples, read in row-major (x, then y, then z) order.
pub open spec fn chunk_matches_samples(c: Chunk, chunk_pos: IVec3, samples: Seq<bool>) -> bool {
    &&& c.position == chunk_pos
    &&& c.data.pos == chunk_pos
    &&& c.data.wf()
    &&& forall|x: int, y: int, z: int|
        0 <= x < 32 && 0 <= y < 32 && 0 <= z < 32 ==> c.data.voxel(x, y, z) == samples[vidx(
            x,
            y,
            z,
        )]
}

/// Volumetric policy. The noise oracle is sampled once per voxel at
/// the voxel's world position; a voxel is solid iff its sample said
/// so (the oracle's value was at or above the threshold). `samples`
/// holds those per-voxel solidity bits in row-major (x, y, z) order,
/// so the grid is a pure, deterministic function of the inputs.
pub fn gen_chunk(chunk_pos: IVec3, samples: &Vec<bool>) -> (c: Chunk)
    requires
        samples@.len() == 32768,
    ensures
        chunk_matches_samples(c, chunk_pos, samples@),
{
    let mut data: Vec<bool> = Vec::new();
    let mut x: usize = 0;
    while x < 32
        invariant
            x <= 32,
            samples@.len() == 32768,
            data@ =~= samples@.take((x * 1024) as int),
        decreases 32 - x,
    {
        let mut y: usize = 0;
        while y < 32
            invariant
                x < 32,
                y <= 32,
                samples@.len() == 32768,
                data@ =~= samples@.take((x * 1024 + y * 32) as int),
            decreases 32 - y,
        {
            let mut z: usize = 0;
            while z < 32
                invariant
                    x < 32,
                    y < 32,
                    z <= 32,
                    samples@.len() == 32768,
                    data@ =~= samples@.take((x * 1024 + y * 32 + z) as int),
                decreases 32 - z,
            {
                data.push(samples[x * 1024 + y * 32 + z]);
                z = z + 1;
            }
            y = y + 1;
        }
        x = x + 1;
    }
    proof {
        assert(data@ =~= samples@);
    }
    Chunk { data: ChunkData { data, pos: chunk_pos }, position: chunk_pos }
}

/// What the heightmap policy guarantees: a voxel is solid iff its
/// world-space y coordinate lies strictly below its column's height.
pub open spec fn chunk_matches_heights(c: Chunk, chunk_pos: IVec3, heights: Seq<i64>) -> bool {
    &&& c.position == chunk_pos
    &&& c.data.pos == chunk_pos
    &&& c.data.wf()
    &&& forall|x: int, y: int, z: int|
        0 <= x < 32 && 0 <= y < 32 && 0 <= z < 32 ==> c.data.voxel(x, y, z) == (chunk_pos.y * 32
            + y < heights[cidx(x, z)])
}

/// Heightmap policy. The noise oracle yields one surface height per
/// (x, z) column, sampled at the column's world position; `heights`
/// holds those 32*32 column heights in row-major (x, z) order. A
/// voxel is solid iff its world y coordinate is strictly below its
/// column's height, so every column is a single filled run from the
/// bottom (no overhangs or caves).
pub fn gen_chunk_flat(chunk_pos: IVec3, heights: &Vec<i64>) -> (c: Chunk)
    requires
        heights@.len() == 1024,
    ensures
        chunk_matches_heights(c, chunk_pos, heights@),
{
    let mut data: Vec<bool> = Vec::new();
    let mut x: usize = 0;
    while x < 32
        invariant
            x <= 32,
            heights@.len() == 1024,
            data@.len() == x * 1024,
            forall|i: int, j: int, k: int|
                0 <= i < 32 && 0 <= j < 32 && 0 <= k < 32 && vidx(i, j, k) < x * 1024
                    ==> data@[#[trigger] vidx(i, j, k)] == (chunk_pos.y * 32 + j < heights@[cidx(
                    i,
                    k,
                )]),
        decreases 32 - x,
    {
        let mut y: usize = 0;
        while y < 32
            invariant
                x < 32,
                y <= 32,
                heights@.len() == 1024,
                data@.len() == x * 1024 + y * 32,
                forall|i: int, j: int, k: int|
                    0 <= i < 32 && 0 <= j < 32 && 0 <= k < 32 && vidx(i, j, k) < x * 1024 + y * 32
                        ==> data@[#[trigger] vidx(i, j, k)] == (chunk_pos.y * 32 + j < heights@[
                    cidx(i, k)]),
            decreases 32 - y,
        {
            let world_y: i64 = (chunk_pos.y as i64) * 32 + (y as i64);
            let mut z: usize = 0;
            while z < 32
                invariant
                    x < 32,
                    y < 32,
                    z <= 32,
                    heights@.len() == 1024,
                    world_y == chunk_pos.y * 32 + y,
                    data@.len() == x * 1024 + y * 32 + z,
                    forall|i: int, j: int, k: int|
                        0 <= i < 32 && 0 <= j < 32 && 0 <= k < 32 && vidx(i, j, k) < x * 1024 + y
                            * 32 + z ==> data@[#[trigger] vidx(i, j, k)] == (chunk_pos.y * 32 + j
                            < heights@[cidx(i, k)]),
                decreases 32 - z,
            {
                data.push(world_y < heights[x * 32 + z]);
                z = z + 1;
            }
            y = y + 1;
        }
        x = x + 1;
    }
    Chunk { data: ChunkData { data, pos: chunk_pos }, position: chunk_pos }
}

/// Mesh output of one chunk: three parallel buffers. Every exposed
/// face contributes one quad of four vertices, four copies of the
/// face normal, and six triangle indices.
pub struct MeshData {
    pub vertices: Vec<Vec3>,
    pub normals: Vec<Vec3>,
    pub indices: Vec<u32>,
}

/// World-space position of the voxel at local coordinate (x, y, z)
/// of the chunk at chunk-space coordinate `cpos`.
pub open spec fn world_voxel_pos(cpos: IVec3, x: int, y: int, z: int) -> Vec3 {
    Vec3 {
        x: (cpos.x * 32 + x) as i64,
        y: (cpos.y * 32 + y) as i64,
        z: (cpos.z * 32 + z) as i64,
    }
}

/// Four copies of the face normal of `d`: one per quad vertex, for
/// flat per-face shading.
pub open spec fn norm_seq(d: Direction) -> Seq<Vec3> {
    seq![normal_spec(d), normal_spec(d), normal_spec(d), normal_spec(d)]
}

/// The vertices emitted for the faces `dirs` of the voxel at world
/// position `p`: one quad of four corners per direction, in order.
pub open spec fn verts_of_dirs(dirs: Seq<Direction>, p: Vec3) -> Seq<Vec3>
    decreases dirs.len(),
{
    if dirs.len() <= 0 {
        Seq::empty()
    } else {
        verts_of_dirs(dirs.drop_last(), p) + quad_seq(dirs.last(), p)
    }
}

/// The normals emitted for the faces `dirs`: four copies per face.
pub open spec fn norms_of_dirs(dirs: Seq<Direction>) -> Seq<Vec3>
    decreases dirs.len(),
{
    if dirs.len() <= 0 {
        Seq::empty()
    } else {
        norms_of_dirs(dirs.drop_last()) + norm_seq(dirs.last())
    }
}

/// Local x coordinate of the cell with row-major linear index `i`.
pub open spec fn cell_x(i: int) -> int {
    i / 1024
}

/// Local y coordinate of the cell with row-major linear index `i`.
pub open spec fn cell_y(i: int) -> int {
    (i % 1024) / 32
}

/// Local z coordinate of the cell with row-major linear index `i`.
pub open spec fn cell_z(i: int) -> int {
    i % 32
}

/// The linear cell index is inverted by the three cell coordinates.
pub proof fn lemma_cell_coords(x: int, y: int, z: int)
    requires
        0 <= x < 32,
        0 <= y < 32,
        0 <= z < 32,
    ensures
        cell_x(vidx(x, y, z)) == x,
        cell_y(vidx(x, y, z)) == y,
        cell_z(vidx(x, y, z)) == z,
{
    let i = x * 1024 + y * 32 + z;
    vstd::arithmetic::div_mod::lemma_fundamental_div_mod_converse(i, 1024, x, y * 32 + z);
    vstd::arithmetic::div_mod::lemma_fundamental_div_mod_converse(y * 32 + z, 32, y, z);
    vstd::arithmetic::div_mod::lemma_fundamental_div_mod_converse(i, 32, x * 32 + y, z);
}

/// The faces the mesh assembler emits for the cell with linear index
/// `i`: the exposed directions of a solid voxel, nothing otherwise.
pub open spec fn cell_dirs(c: ChunkData, nb: Seq<Option<ChunkData>>, i: int) -> Seq<Direction> {
    if c.voxel(cell_x(i), cell_y(i), cell_z(i)) {
        exposed_dirs(c, nb, cell_x(i), cell_y(i), cell_z(i))
    } else {
        Seq::empty()
    }
}

/// All vertices the mesh assembler emits for the first `n` cells of
/// the chunk at `cpos`, in row-major cell order.
pub open spec fn mesh_verts_upto(
    c: ChunkData,
    nb: Seq<Option<ChunkData>>,
    cpos: IVec3,
    n: int,
) -> Seq<Vec3>
    decreases n,
{
    if n <= 0 {
        Seq::empty()
    } else {
        mesh_verts_upto(c, nb, cpos, n - 1) + verts_of_dirs(
            cell_dirs(c, nb, n - 1),
            world_voxel_pos(cpos, cell_x(n - 1), cell_y(n - 1), cell_z(n - 1)),
        )
    }
}

/// All normals the mesh assembler emits for the first `n` cells.
pub open spec fn mesh_norms_upto(
    c: ChunkData,
    nb: Seq<Option<ChunkData>>,
    n: int,
) -> Seq<Vec3>
    decreases n,
{
    if n <= 0 {
        Seq::empty()
    } else {
        mesh_norms_upto(c, nb, n - 1) + norms_of_dirs(cell_dirs(c, nb, n - 1))
    }
}

/// The full vertex buffer of the chunk at `cpos` with grid `c`,
/// culled against the neighbour view `nb`.
pub open spec fn mesh_verts(c: ChunkData, nb: Seq<Option<ChunkData>>, cpos: IVec3) -> Seq<Vec3> {
    mesh_verts_upto(c, nb, cpos, 32768)
}

/// The full normal buffer of the chunk with grid `c`.
pub open spec fn mesh_norms(c: ChunkData, nb: Seq<Option<ChunkData>>) -> Seq<Vec3> {
    mesh_norms_upto(c, nb, 32768)
}

/// Emitting one more face appends its quad to the vertex buffer and
/// its four normals to the normal buffer.
proof fn lemma_of_dirs_step(s: Seq<Direction>, p: Vec3, k: int)
    requires
        0 <= k < s.len(),
    ensures
        verts_of_dirs(s.take(k + 1), p) == verts_of_dirs(s.take(k), p) + quad_seq(s[k], p),
        norms_of_dirs(s.take(k + 1)) == norms_of_dirs(s.take(k)) + norm_seq(s[k]),
{
    assert(s.take(k + 1).drop_last() =~= s.take(k));
    assert(s.take(k + 1).last() == s[k]);
}

/// A list of faces emits four vertices and four normals per face.
proof fn lemma_of_dirs_len(s: Seq<Direction>, p: Vec3)
    ensures
        verts_of_dirs(s, p).len() == 4 * s.len(),
        norms_of_dirs(s).len() == 4 * s.len(),
    decreases s.len(),
{
    if s.len() > 0 {
        lemma_of_dirs_len(s.drop_last(), p);
    }
}

/// Buffer shape of a partial mesh: normals and vertices stay in
/// lockstep, the vertex count is a whole number of quads, and each
/// cell adds at most six quads.
#[verifier::rlimit(100)]
proof fn lemma_mesh_upto_props(c: ChunkData, nb: Seq<Option<ChunkData>>, cpos: IVec3, n: int)
    requires
        0 <= n,
    ensures
        mesh_norms_upto(c, nb, n).len() == mesh_verts_upto(c, nb, cpos, n).len(),
        mesh_verts_upto(c, nb, cpos, n).len() % 4 == 0,
        mesh_verts_upto(c, nb, cpos, n).len() <= 24 * n,
    decreases n,
{
    if n > 0 {
        lemma_mesh_upto_props(c, nb, cpos, n - 1);
        let dirs = cell_dirs(c, nb, n - 1);
        lemma_of_dirs_len(dirs, world_voxel_pos(cpos, cell_x(n - 1), cell_y(n - 1), cell_z(n - 1)));
        crate::world::lemma_exposed_dirs_len(c, nb, cell_x(n - 1), cell_y(n - 1), cell_z(n - 1));
        assert(dirs.len() <= 6);
    }
}

/// Emits the quads and normals for the faces `dirs` of the voxel at
/// world position `wpos`.
fn emit_quads(dirs: &Vec<Direction>, wpos: Vec3, vertices: &mut Vec<Vec3>, norm: &mut Vec<Vec3>)
    requires
        wpos.x < i64::MAX,
        wpos.y < i64::MAX,
        wpos.z < i64::MAX,
    ensures
        final(vertices)@ == old(vertices)@ + verts_of_dirs(dirs@, wpos),
        final(norm)@ == old(norm)@ + norms_of_dirs(dirs@),
{
    let mut k: usize = 0;
    while k < dirs.len()
        invariant
            k <= dirs@.len(),
            wpos.x < i64::MAX,
            wpos.y < i64::MAX,
            wpos.z < i64::MAX,
            vertices@ == old(vertices)@ + verts_of_dirs(dirs@.take(k as int), wpos),
            norm@ == old(norm)@ + norms_of_dirs(dirs@.take(k as int)),
        decreases dirs@.len() - k,
    {
        let dir = dirs[k];
        let q = new_quad(dir, wpos);
        vertices.push(q[0]);
        vertices.push(q[1]);
        vertices.push(q[2]);
        vertices.push(q[3]);
        let normal = match dir {
            Direction::North => Vec3::new(1, 0, 0),
            Direction::South => Vec3::new(-1, 0, 0),
            Direction::East => Vec3::new(0, 0, -1),
            Direction::West => Vec3::new(0, 0, 1),
            Direction::Up => Vec3::new(0, 1, 0),
            Direction::Down => Vec3::new(0, -1, 0),
        };
        norm.push(normal);
        norm.push(normal);
        norm.push(normal);
        norm.push(normal);
        proof {
            assert(normal == normal_spec(dir));
            lemma_of_dirs_step(dirs@, wpos, k as int);
            assert(vertices@ =~= old(vertices)@ + verts_of_dirs(dirs@.take(k as int + 1), wpos));
            assert(norm@ =~= old(norm)@ + norms_of_dirs(dirs@.take(k as int + 1)));
        }
        k = k + 1;
    }
    proof {
        assert(dirs@.take(dirs@.len() as int) =~= dirs@);
    }
}

/// Emits the mesh contribution of the single cell at local
/// coordinate (x, y, z): every exposed face of a solid voxel,
/// nothing for an empty one.
fn emit_cell(
    world_data: &VoxelWorld,
    chunk_data: &ChunkData,
    neighbours: &ChunkNeighbours,
    position: IVec3,
    x: usize,
    y: usize,
    z: usize,
    vertices: &mut Vec<Vec3>,
    norm: &mut Vec<Vec3>,
)
    requires
        chunk_data.wf(),
        nb_wf(neighbours.as_seq()),
        x < 32,
        y < 32,
        z < 32,
    ensures
        final(vertices)@ == old(vertices)@ + verts_of_dirs(
            cell_dirs(*chunk_data, neighbours.as_seq(), vidx(x as int, y as int, z as int)),
            world_voxel_pos(position, x as int, y as int, z as int),
        ),
        final(norm)@ == old(norm)@ + norms_of_dirs(
            cell_dirs(*chunk_data, neighbours.as_seq(), vidx(x as int, y as int, z as int)),
        ),
{
    let ghost c = *chunk_data;
    let ghost nb = neighbours.as_seq();
    let ghost lin = vidx(x as int, y as int, z as int);
    proof {
        lemma_cell_coords(x as int, y as int, z as int);
    }
    if chunk_data.get(x, y, z) {
        let dirs = world_data.get_voxel_neighbours(
            chunk_data,
            neighbours,
            IVec3::new(x as i32, y as i32, z as i32),
        );
        proof {
            assert(dirs@ == cell_dirs(c, nb, lin));
        }
        let wpos = Vec3::new(
            (position.x as i64) * 32 + (x as i64),
            (position.y as i64) * 32 + (y as i64),
            (position.z as i64) * 32 + (z as i64),
        );
        proof {
            assert(wpos == world_voxel_pos(position, x as int, y as int, z as int));
        }
        emit_quads(&dirs, wpos, vertices, norm);
    } else {
        proof {
            assert(cell_dirs(c, nb, lin) =~= Seq::<Direction>::empty());
            assert(verts_of_dirs(
                cell_dirs(c, nb, lin),
                world_voxel_pos(position, x as int, y as int, z as int),
            ) =~= Seq::<Vec3>::empty());
            assert(norms_of_dirs(cell_dirs(c, nb, lin)) =~= Seq::<Vec3>::empty());
            assert(vertices@ =~= old(vertices)@ + verts_of_dirs(
                cell_dirs(c, nb, lin),
                world_voxel_pos(position, x as int, y as int, z as int),
            ));
            assert(norm@ =~= old(norm)@ + norms_of_dirs(cell_dirs(c, nb, lin)));
        }
    }
}

impl Chunk {
    /// Assembles the surface mesh of this chunk: walks every voxel in
    /// row-major order, culls faces against the chunk's own grid and
    /// a fresh neighbour snapshot taken from `world_data`, and emits
    /// one independent quad per exposed face (no corner sharing),
    /// four copies of the face normal, and two clockwise triangles
    /// per quad in the index buffer.
    pub fn gen_mesh(&self, world_data: &VoxelWorld) -> (m: MeshData)
        requires
            self.data.wf(),
            world_data.wf(),
            i32::MIN < self.position.x < i32::MAX,
            i32::MIN < self.position.y < i32::MAX,
            i32::MIN < self.position.z < i32::MAX,
        ensures
            m.vertices@ == mesh_verts(
                self.data,
                world_neighbours(*world_data, self.position),
                self.position,
            ),
            m.normals@ == mesh_norms(self.data, world_neighbours(*world_data, self.position)),
            m.indices@ == indices_spec(m.vertices@.len() as int),
            m.normals@.len() == m.vertices@.len(),
            m.vertices@.len() % 4 == 0,
            m.indices@.len() == 6 * ((m.vertices@.len() as int) / 4),
            forall|j: int|
                0 <= j < m.indices@.len() ==> (#[trigger] m.indices@[j] as int)
                    < m.vertices@.len(),
    {
        let ghost c = self.data;
        let ghost cpos = self.position;
        let mut vertices: Vec<Vec3> = Vec::new();
        let mut norm: Vec<Vec3> = Vec::new();
        let neighbours = ChunkNeighbours::new(world_data, self.position);
        let ghost nb = neighbours.as_seq();

        let mut x: usize = 0;
        while x < 32
            invariant
                x <= 32,
                c == self.data,
                nb == neighbours.as_seq(),
                cpos == self.position,
                self.data.wf(),
                nb_wf(nb),
                vertices@ == mesh_verts_upto(c, nb, cpos, (x * 1024) as int),
                norm@ == mesh_norms_upto(c, nb, (x * 1024) as int),
            decreases 32 - x,
        {
            let mut y: usize = 0;
            while y < 32
                invariant
                    x < 32,
                    y <= 32,
                    c == self.data,
                    nb == neighbours.as_seq(),
                    cpos == self.position,
                    self.data.wf(),
                    nb_wf(nb),
                    vertices@ == mesh_verts_upto(c, nb, cpos, (x * 1024 + y * 32) as int),
                    norm@ == mesh_norms_upto(c, nb, (x * 1024 + y * 32) as int),
                decreases 32 - y,
            {
                let mut z: usize = 0;
                while z < 32
                    invariant
                        x < 32,
                        y < 32,
                        z <= 32,
                        c == self.data,
                        nb == neighbours.as_seq(),
                        cpos == self.position,
                        self.data.wf(),
                        nb_wf(nb),
                        vertices@ == mesh_verts_upto(c, nb, cpos, (x * 1024 + y * 32 + z) as int),
                        norm@ == mesh_norms_upto(c, nb, (x * 1024 + y * 32 + z) as int),
                    decreases 32 - z,
                {
                    let ghost lin = (x * 1024 + y * 32 + z) as int;
                    emit_cell(
                        world_data,
                        &self.data,
                        &neighbours,
                        self.position,
                        x,
                        y,
                        z,
                        &mut vertices,
                        &mut norm,
                    );
                    proof {
                        assert(vertices@ =~= mesh_verts_upto(c, nb, cpos, lin + 1));
                        assert(norm@ =~= mesh_norms_upto(c, nb, lin + 1));
                    }
                    z = z + 1;
                }
                y = y + 1;
            }
            x = x + 1;
        }
        proof {
            lemma_mesh_upto_props(c, nb, cpos, 32768);
        }
        let indeces = gen_indeces(vertices.len());
        MeshData { vertices, normals: norm, indices: indeces }
    }
}

/// The six triangle indices of quad number `i`: two clockwise
/// triangles over the quad's four vertices.
pub open spec fn quad_indices(i: int) -> Seq<u32> {
    seq![
        (4 * i) as u32,
        (4 * i + 1) as u32,
        (4 * i + 2) as u32,
        (4 * i + 2) as u32,
        (4 * i + 3) as u32,
        (4 * i) as u32,
    ]
}

/// The index buffer for the first `q` quads.
pub open spec fn indices_for_quads(q: int) -> Seq<u32>
    decreases q,
{
    if q <= 0 {
        Seq::empty()
    } else {
        indices_for_quads(q - 1) + quad_indices(q - 1)
    }
}

/// The index buffer that belongs to a vertex buffer of length
/// `vert_len`: six indices for each full quad of four vertices.
pub open spec fn indices_spec(vert_len: int) -> Seq<u32> {
    indices_for_quads(vert_len / 4)
}

/// Index-buffer well-formedness: the buffer for `q` quads holds
/// exactly `6 * q` entries and every entry addresses one of the
/// `4 * q` vertices.
pub proof fn lemma_indices_for_quads_props(q: int)
    requires
        0 <= q <= 0x4000_0000,
    ensures
        indices_for_quads(q).len() == 6 * q,
        forall|j: int|
            0 <= j < 6 * q ==> (#[trigger] indices_for_quads(q)[j] as int) < 4 * q,
    decreases q,
{
    if q > 0 {
        lemma_indices_for_quads_props(q - 1);
        let s = indices_for_quads(q);
        let prev = indices_for_quads(q - 1);
        assert forall|j: int| 0 <= j < 6 * q implies (#[trigger] s[j] as int) < 4 * q by {
            if j < 6 * (q - 1) {
                assert(s[j] == prev[j]);
                assert((prev[j] as int) < 4 * (q - 1));
            } else {
                assert(s[j] == quad_indices(q - 1)[j - 6 * (q - 1)]);
            }
        }
    }
}

/// Builds the triangle index buffer for a vertex buffer of length
/// `vert_len`: two clockwise triangles per quad of four vertices.
pub fn gen_indeces(vert_len: usize) -> (indices: Vec<u32>)
    requires
        vert_len <= 0xffff_ffff,
    ensures
        indices@ == indices_spec(vert_len as int),
        indices@.len() == 6 * ((vert_len as int) / 4),
        forall|j: int|
            0 <= j < indices@.len() ==> (#[trigger] indices@[j] as int) < 4 * ((vert_len as int)
                / 4),
{
    let mut indices: Vec<u32> = Vec::new();
    let n: u32 = (vert_len as u32) / 4;
    let mut i: u32 = 0;
    while i < n
        invariant
            i <= n,
            n <= 0x4000_0000,
            indices@ == indices_for_quads(i as int),
        decreases n - i,
    {
        indices.push(4 * i);
        indices.push(4 * i + 1);
        indices.push(4 * i + 2);
        indices.push(4 * i + 2);
        indices.push(4 * i + 3);
        indices.push(4 * i);
        proof {
            assert(indices@ =~= indices_for_quads(i as int + 1));
        }
        i = i + 1;
    }
    proof {
        lemma_indices_for_quads_props(n as int);
        assert(n as int == (vert_len as int) / 4);
    }
    indices
}

/// Two generation calls with the same policy and the same inputs
/// yield bit-identical grids: the policy contracts pin every voxel,
/// so any two chunks satisfying them agree everywhere.
pub proof fn lemma_generate_deterministic(
    chunk_pos: IVec3,
    samples: Seq<bool>,
    heights: Seq<i64>,
    c1: Chunk,
    c2: Chunk,
)
    requires
        chunk_matches_samples(c1, chunk_pos, samples) && chunk_matches_samples(
            c2,
            chunk_pos,
            samples,
        ) || chunk_matches_heights(c1, chunk_pos, heights) && chunk_matches_heights(
            c2,
            chunk_pos,
            heights,
        ),
    ensures
        c1.position == c2.position,
        c1.data.pos == c2.data.pos,
        forall|x: int, y: int, z: int|
            0 <= x < 32 && 0 <= y < 32 && 0 <= z < 32 ==> c1.data.voxel(x, y, z) == c2.data.voxel(
                x,
                y,
                z,
            ),
{
}

} // verus!
