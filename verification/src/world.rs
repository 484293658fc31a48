use vstd::prelude::*;

use std::collections::HashMap;

use crate::chunk::{Chunk, ChunkData, ChunkNeighbours, CHUNK_SIZE};
use crate::math::IVec3;
use crate::quad::Direction;

verus! {

broadcast use vstd::std_specs::hash::group_hash_axioms;

/// Packs a chunk-space coordinate into one map key: each `i32`
/// component, reinterpreted as 32 bits, occupies its own 32-bit lane
/// of a `u128`, so distinct coordinates give distinct keys.
pub open spec fn chunk_key(p: IVec3) -> u128 {
    ((p.x as u32 as u128) << 64) | ((p.y as u32 as u128) << 32) | (p.z as u32 as u128)
}

/// Distinct chunk coordinates always map to distinct keys.
pub proof fn lemma_chunk_key_injective(p: IVec3, q: IVec3)
    requires
        chunk_key(p) == chunk_key(q),
    ensures
        p == q,
{
    let px: i32 = p.x;
    let py: i32 = p.y;
    let pz: i32 = p.z;
    let qx: i32 = q.x;
    let qy: i32 = q.y;
    let qz: i32 = q.z;
    assert((((px as u32 as u128) << 64) | ((py as u32 as u128) << 32) | (pz as u32 as u128)) == (((
    qx as u32 as u128) << 64) | ((qy as u32 as u128) << 32) | (qz as u32 as u128)) ==> px == qx
        && py == qy && pz == qz) by (bit_vector);
}

/// Sparse world store: a map from chunk-space coordinate to the chunk
/// generated there. At most one chunk per coordinate; insertion
/// overwrites; chunks are never removed.
pub struct VoxelWorld {
    chunks: HashMap<u128, Chunk>,
}

impl VoxelWorld {
    /// Every chunk held by the store has a well-formed grid.
    pub closed spec fn wf(self) -> bool {
        forall|k: u128| #[trigger] self.chunks@.contains_key(k) ==> self.chunks@[k].data.wf()
    }

    /// The chunk stored at coordinate `pos`, if any.
    pub closed spec fn chunk_at(self, pos: IVec3) -> Option<Chunk> {
        if self.chunks@.contains_key(chunk_key(pos)) {
            Some(self.chunks@[chunk_key(pos)])
        } else {
            None
        }
    }

    pub fn new() -> (w: VoxelWorld)
        ensures
            w.wf(),
            forall|p: IVec3| #[trigger] w.chunk_at(p) is None,
    {
        VoxelWorld { chunks: HashMap::<u128, Chunk>::new() }
    }

    /// Stores `chunk` at coordinate `pos`, replacing any chunk that
    /// was there; every other coordinate is untouched.
    pub fn add_chunk(&mut self, pos: IVec3, chunk: Chunk)
        requires
            old(self).wf(),
            chunk.data.wf(),
        ensures
            final(self).wf(),
            final(self).chunk_at(pos) == Some(chunk),
            forall|q: IVec3|
                q != pos ==> #[trigger] final(self).chunk_at(q) == old(self).chunk_at(q),
    {
        let key = compute_chunk_key(pos);
        self.chunks.insert(key, chunk);
        proof {
            assert forall|q: IVec3| q != pos implies #[trigger] self.chunk_at(q) == old(
                self,
            ).chunk_at(q) by {
                if chunk_key(q) == chunk_key(pos) {
                    lemma_chunk_key_injective(q, pos);
                }
            }
        }
    }

    /// Fetches the chunk stored at `pos`, if one was ever inserted.
    pub fn get_chunk(&self, pos: IVec3) -> (r: Option<&Chunk>)
        ensures
            match r {
                Some(c) => self.chunk_at(pos) == Some(*c),
                None => self.chunk_at(pos) is None,
            },
    {
        let key = compute_chunk_key(pos);
        match self.chunks.get(&key) {
            Some(c) => Some(c),
            None => None,
        }
    }

    /// Face culling for one voxel: returns the directions in which
    /// the voxel at `voxel_pos` of the grid `chunk_data` has an
    /// exposed face, judged against the grid itself and, on chunk
    /// boundaries, against the snapshot `neighbours`.
    pub fn get_voxel_neighbours(
        &self,
        chunk_data: &ChunkData,
        neighbours: &ChunkNeighbours,
        voxel_pos: IVec3,
    ) -> (directions: Vec<Direction>)
        requires
            chunk_data.wf(),
            nb_wf(neighbours.as_seq()),
            0 <= voxel_pos.x < 32,
            0 <= voxel_pos.y < 32,
            0 <= voxel_pos.z < 32,
        ensures
            directions@ == exposed_dirs(
                *chunk_data,
                neighbours.as_seq(),
                voxel_pos.x as int,
                voxel_pos.y as int,
                voxel_pos.z as int,
            ),
    {
        let ghost c = *chunk_data;
        let ghost nb = neighbours.as_seq();
        let ghost x = voxel_pos.x as int;
        let ghost y = voxel_pos.y as int;
        let ghost z = voxel_pos.z as int;
        let mut directions: Vec<Direction> = Vec::new();
        push_dirs_x(chunk_data, neighbours, voxel_pos, &mut directions);
        push_dirs_y(chunk_data, neighbours, voxel_pos, &mut directions);
        push_dirs_z(chunk_data, neighbours, voxel_pos, &mut directions);
        proof {
            assert(directions@ =~= exposed_dirs(c, nb, x, y, z));
        }
        directions
    }
}

/// Appends the exposed X faces of the voxel at `voxel_pos`, in
/// emission order.
fn push_dirs_x(
    chunk_data: &ChunkData,
    neighbours: &ChunkNeighbours,
    voxel_pos: IVec3,
    directions: &mut Vec<Direction>,
)
    requires
        chunk_data.wf(),
        nb_wf(neighbours.as_seq()),
        0 <= voxel_pos.x < 32,
        0 <= voxel_pos.y < 32,
        0 <= voxel_pos.z < 32,
    ensures
        final(directions)@ == old(directions)@ + dirs_x(
            *chunk_data,
            neighbours.as_seq(),
            voxel_pos.x as int,
            voxel_pos.y as int,
            voxel_pos.z as int,
        ),
{
    let ghost c = *chunk_data;
    let ghost nb = neighbours.as_seq();
    let ghost x = voxel_pos.x as int;
    let ghost y = voxel_pos.y as int;
    let ghost z = voxel_pos.z as int;
    if voxel_pos.x == 0 {
        match neighbours.get(IVec3::new(-1, 0, 0)) {
            Some(chunk) => {
                proof {
                    assert(nb[1] == Some(chunk.data));
                }
                if !chunk.data.get(31, voxel_pos.y, voxel_pos.z) {
                    directions.push(Direction::South);
                }
            },
            None => {
                directions.push(Direction::South);
            },
        }
    } else if voxel_pos.x == CHUNK_SIZE - 1 {
        match neighbours.get(IVec3::new(1, 0, 0)) {
            Some(chunk) => {
                proof {
                    assert(nb[0] == Some(chunk.data));
                }
                if !chunk.data.get(0, voxel_pos.y, voxel_pos.z) {
                    directions.push(Direction::North);
                }
            },
            None => {
                directions.push(Direction::North);
            },
        }
    }
    if voxel_pos.x != 0 && !chunk_data.get(voxel_pos.x - 1, voxel_pos.y, voxel_pos.z) {
        directions.push(Direction::South);
    }
    if voxel_pos.x != CHUNK_SIZE - 1 && !chunk_data.get(
        voxel_pos.x + 1,
        voxel_pos.y,
        voxel_pos.z,
    ) {
        directions.push(Direction::North);
    }
    proof {
        assert(directions@ =~= old(directions)@ + dirs_x(c, nb, x, y, z));
    }
}

/// Appends the exposed Y faces of the voxel at `voxel_pos`, in
/// emission order. A missing neighbour below keeps the world floor
/// sealed; a missing neighbour above counts as open sky.
fn push_dirs_y(
    chunk_data: &ChunkData,
    neighbours: &ChunkNeighbours,
    voxel_pos: IVec3,
    directions: &mut Vec<Direction>,
)
    requires
        chunk_data.wf(),
        nb_wf(neighbours.as_seq()),
        0 <= voxel_pos.x < 32,
        0 <= voxel_pos.y < 32,
        0 <= voxel_pos.z < 32,
    ensures
        final(directions)@ == old(directions)@ + dirs_y(
            *chunk_data,
            neighbours.as_seq(),
            voxel_pos.x as int,
            voxel_pos.y as int,
            voxel_pos.z as int,
        ),
{
    let ghost c = *chunk_data;
    let ghost nb = neighbours.as_seq();
    let ghost x = voxel_pos.x as int;
    let ghost y = voxel_pos.y as int;
    let ghost z = voxel_pos.z as int;
    if voxel_pos.y == 0 {
        match neighbours.get(IVec3::new(0, -1, 0)) {
            Some(chunk) => {
                proof {
                    assert(nb[3] == Some(chunk.data));
                }
                if !chunk.data.get(voxel_pos.x, 31, voxel_pos.z) {
                    directions.push(Direction::Down);
                }
            },
            None => {
                // The world floor stays sealed: no Down face here.
            },
        }
    } else if voxel_pos.y == CHUNK_SIZE - 1 {
        match neighbours.get(IVec3::new(0, 1, 0)) {
            Some(chunk) => {
                proof {
                    assert(nb[2] == Some(chunk.data));
                }
                if !chunk.data.get(voxel_pos.x, 0, voxel_pos.z) {
                    directions.push(Direction::Up);
                }
            },
            None => {
                directions.push(Direction::Up);
            },
        }
    }
    if voxel_pos.y != 0 && !chunk_data.get(voxel_pos.x, voxel_pos.y - 1, voxel_pos.z) {
        directions.push(Direction::Down);
    }
    if voxel_pos.y != CHUNK_SIZE - 1 && !chunk_data.get(
        voxel_pos.x,
        voxel_pos.y + 1,
        voxel_pos.z,
    ) {
        directions.push(Direction::Up);
    }
    proof {
        assert(directions@ =~= old(directions)@ + dirs_y(c, nb, x, y, z));
    }
}

/// Appends the exposed Z faces of the voxel at `voxel_pos`, in
/// emission order.
fn push_dirs_z(
    chunk_data: &ChunkData,
    neighbours: &ChunkNeighbours,
    voxel_pos: IVec3,
    directions: &mut Vec<Direction>,
)
    requires
        chunk_data.wf(),
        nb_wf(neighbours.as_seq()),
        0 <= voxel_pos.x < 32,
        0 <= voxel_pos.y < 32,
        0 <= voxel_pos.z < 32,
    ensures
        final(directions)@ == old(directions)@ + dirs_z(
            *chunk_data,
            neighbours.as_seq(),
            voxel_pos.x as int,
            voxel_pos.y as int,
            voxel_pos.z as int,
        ),
{
    let ghost c = *chunk_data;
    let ghost nb = neighbours.as_seq();
    let ghost x = voxel_pos.x as int;
    let ghost y = voxel_pos.y as int;
    let ghost z = voxel_pos.z as int;
    if voxel_pos.z == 0 {
        match neighbours.get(IVec3::new(0, 0, -1)) {
            Some(chunk) => {
                proof {
                    assert(nb[5] == Some(chunk.data));
                }
                if !chunk.data.get(voxel_pos.x, voxel_pos.y, 31) {
                    directions.push(Direction::East);
                }
            },
            None => {
                directions.push(Direction::East);
            },
        }
    } else if voxel_pos.z == CHUNK_SIZE - 1 {
        match neighbours.get(IVec3::new(0, 0, 1)) {
            Some(chunk) => {
                proof {
                    assert(nb[4] == Some(chunk.data));
                }
                if !chunk.data.get(voxel_pos.x, voxel_pos.y, 0) {
                    directions.push(Direction::West);
                }
            },
            None => {
                directions.push(Direction::West);
            },
        }
    }
    if voxel_pos.z != 0 && !chunk_data.get(voxel_pos.x, voxel_pos.y, voxel_pos.z - 1) {
        directions.push(Direction::East);
    }
    if voxel_pos.z != CHUNK_SIZE - 1 && !chunk_data.get(
        voxel_pos.x,
        voxel_pos.y,
        voxel_pos.z + 1,
    ) {
        directions.push(Direction::West);
    }
    proof {
        assert(directions@ =~= old(directions)@ + dirs_z(c, nb, x, y, z));
    }
}

/// The grid of an optional chunk.
pub open spec fn data_of(o: Option<Chunk>) -> Option<ChunkData> {
    match o {
        Some(c) => Some(c.data),
        None => None,
    }
}

/// A six-slot neighbour view is well-formed when every present
/// neighbour grid is well-formed.
pub open spec fn nb_wf(nb: Seq<Option<ChunkData>>) -> bool {
    &&& nb.len() == 6
    &&& forall|i: int| 0 <= i < 6 ==> (#[trigger] nb[i] matches Some(d) ==> d.wf())
}

/// The six chunks axis-adjacent to coordinate `p` in the world
/// store: +X, -X, +Y, -Y, +Z, -Z.
pub open spec fn world_neighbour_chunks(w: VoxelWorld, p: IVec3) -> Seq<Option<Chunk>> {
    seq![
        w.chunk_at(IVec3 { x: (p.x + 1) as i32, y: p.y, z: p.z }),
        w.chunk_at(IVec3 { x: (p.x - 1) as i32, y: p.y, z: p.z }),
        w.chunk_at(IVec3 { x: p.x, y: (p.y + 1) as i32, z: p.z }),
        w.chunk_at(IVec3 { x: p.x, y: (p.y - 1) as i32, z: p.z }),
        w.chunk_at(IVec3 { x: p.x, y: p.y, z: (p.z + 1) as i32 }),
        w.chunk_at(IVec3 { x: p.x, y: p.y, z: (p.z - 1) as i32 }),
    ]
}

/// The six axis-adjacent neighbour grids of the chunk at coordinate
/// `p`, read from the world store: +X, -X, +Y, -Y, +Z, -Z.
pub open spec fn world_neighbours(w: VoxelWorld, p: IVec3) -> Seq<Option<ChunkData>> {
    seq![
        data_of(w.chunk_at(IVec3 { x: (p.x + 1) as i32, y: p.y, z: p.z })),
        data_of(w.chunk_at(IVec3 { x: (p.x - 1) as i32, y: p.y, z: p.z })),
        data_of(w.chunk_at(IVec3 { x: p.x, y: (p.y + 1) as i32, z: p.z })),
        data_of(w.chunk_at(IVec3 { x: p.x, y: (p.y - 1) as i32, z: p.z })),
        data_of(w.chunk_at(IVec3 { x: p.x, y: p.y, z: (p.z + 1) as i32 })),
        data_of(w.chunk_at(IVec3 { x: p.x, y: p.y, z: (p.z - 1) as i32 })),
    ]
}

/// A well-formed store only hands out well-formed neighbour grids.
pub proof fn lemma_world_neighbours_wf(w: VoxelWorld, p: IVec3)
    requires
        w.wf(),
    ensures
        nb_wf(world_neighbours(w, p)),
{
    let nb = world_neighbours(w, p);
    assert forall|i: int| 0 <= i < 6 implies (#[trigger] nb[i] matches Some(d) ==> d.wf()) by {
        assert(nb[0] == data_of(w.chunk_at(IVec3 { x: (p.x + 1) as i32, y: p.y, z: p.z })));
        assert(nb[1] == data_of(w.chunk_at(IVec3 { x: (p.x - 1) as i32, y: p.y, z: p.z })));
        assert(nb[2] == data_of(w.chunk_at(IVec3 { x: p.x, y: (p.y + 1) as i32, z: p.z })));
        assert(nb[3] == data_of(w.chunk_at(IVec3 { x: p.x, y: (p.y - 1) as i32, z: p.z })));
        assert(nb[4] == data_of(w.chunk_at(IVec3 { x: p.x, y: p.y, z: (p.z + 1) as i32 })));
        assert(nb[5] == data_of(w.chunk_at(IVec3 { x: p.x, y: p.y, z: (p.z - 1) as i32 })));
    }
}

/// The face-visibility rule (one face of one voxel). The voxel at
/// local coordinate (x, y, z) has its face toward `d` exposed iff the
/// voxel immediately beyond that face is not solid. Strictly inside
/// the chunk the neighbouring voxel is in the same grid; on a chunk
/// boundary it is the facing boundary voxel of the adjacent chunk in
/// the snapshot `nb`. When that neighbour chunk is absent the default
/// applies: open air on X and Z and above (face exposed), but sealed
/// below (a Down face at the chunk floor never renders into the
/// void).
pub open spec fn face_exposed(
    c: ChunkData,
    nb: Seq<Option<ChunkData>>,
    x: int,
    y: int,
    z: int,
    d: Direction,
) -> bool {
    match d {
        Direction::North => if x == 31 {
            match nb[0] {
                Some(n) => !n.voxel(0, y, z),
                None => true,
            }
        } else {
            !c.voxel(x + 1, y, z)
        },
        Direction::South => if x == 0 {
            match nb[1] {
                Some(n) => !n.voxel(31, y, z),
                None => true,
            }
        } else {
            !c.voxel(x - 1, y, z)
        },
        Direction::Up => if y == 31 {
            match nb[2] {
                Some(n) => !n.voxel(x, 0, z),
                None => true,
            }
        } else {
            !c.voxel(x, y + 1, z)
        },
        Direction::Down => if y == 0 {
            match nb[3] {
                Some(n) => !n.voxel(x, 31, z),
                None => false,
            }
        } else {
            !c.voxel(x, y - 1, z)
        },
        Direction::West => if z == 31 {
            match nb[4] {
                Some(n) => !n.voxel(x, y, 0),
                None => true,
            }
        } else {
            !c.voxel(x, y, z + 1)
        },
        Direction::East => if z == 0 {
            match nb[5] {
                Some(n) => !n.voxel(x, y, 31),
                None => true,
            }
        } else {
            !c.voxel(x, y, z - 1)
        },
    }
}

/// A singleton of `d` when `b` holds, else nothing.
pub open spec fn opt_dir(b: bool, d: Direction) -> Seq<Direction> {
    if b {
        seq![d]
    } else {
        Seq::empty()
    }
}

/// The exposed X faces of the voxel at (x, y, z), in emission order:
/// on the high boundary the North face is tested first, else the
/// South face first.
pub open spec fn dirs_x(
    c: ChunkData,
    nb: Seq<Option<ChunkData>>,
    x: int,
    y: int,
    z: int,
) -> Seq<Direction> {
    let north = opt_dir(face_exposed(c, nb, x, y, z, Direction::North), Direction::North);
    let south = opt_dir(face_exposed(c, nb, x, y, z, Direction::South), Direction::South);
    if x == 31 {
        north + south
    } else {
        south + north
    }
}

/// The exposed Y faces of the voxel at (x, y, z), in emission order.
pub open spec fn dirs_y(
    c: ChunkData,
    nb: Seq<Option<ChunkData>>,
    x: int,
    y: int,
    z: int,
) -> Seq<Direction> {
    let up = opt_dir(face_exposed(c, nb, x, y, z, Direction::Up), Direction::Up);
    let down = opt_dir(face_exposed(c, nb, x, y, z, Direction::Down), Direction::Down);
    if y == 31 {
        up + down
    } else {
        down + up
    }
}

/// The exposed Z faces of the voxel at (x, y, z), in emission order.
pub open spec fn dirs_z(
    c: ChunkData,
    nb: Seq<Option<ChunkData>>,
    x: int,
    y: int,
    z: int,
) -> Seq<Direction> {
    let west = opt_dir(face_exposed(c, nb, x, y, z, Direction::West), Direction::West);
    let east = opt_dir(face_exposed(c, nb, x, y, z, Direction::East), Direction::East);
    if z == 31 {
        west + east
    } else {
        east + west
    }
}

/// The exposed directions of the voxel at (x, y, z), in the order the
/// face-culling pass emits them: the X pair, then the Y pair, then
/// the Z pair.
pub open spec fn exposed_dirs(
    c: ChunkData,
    nb: Seq<Option<ChunkData>>,
    x: int,
    y: int,
    z: int,
) -> Seq<Direction> {
    dirs_x(c, nb, x, y, z) + dirs_y(c, nb, x, y, z) + dirs_z(c, nb, x, y, z)
}

/// Membership in a concatenation splits over the two halves.
proof fn lemma_add_contains(s1: Seq<Direction>, s2: Seq<Direction>, d: Direction)
    ensures
        (s1 + s2).contains(d) <==> s1.contains(d) || s2.contains(d),
{
    if s1.contains(d) {
        let i = choose|i: int| 0 <= i < s1.len() && s1[i] == d;
        assert((s1 + s2)[i] == d);
    }
    if s2.contains(d) {
        let i = choose|i: int| 0 <= i < s2.len() && s2[i] == d;
        assert((s1 + s2)[s1.len() + i] == d);
    }
    if (s1 + s2).contains(d) {
        let i = choose|i: int| 0 <= i < (s1 + s2).len() && (s1 + s2)[i] == d;
        if i < s1.len() {
            assert(s1[i] == d);
        } else {
            assert(s2[i - s1.len()] == d);
        }
    }
}

/// A conditional singleton contains exactly its own direction, and
/// that only when the condition held.
proof fn lemma_opt_dir_contains(b: bool, d: Direction, e: Direction)
    ensures
        opt_dir(b, d).contains(e) <==> (b && d == e),
{
    if b && d == e {
        assert(opt_dir(b, d)[0] == e);
    }
}

/// The X pair holds a direction iff it is an exposed X face.
proof fn lemma_dirs_x_contains(
    c: ChunkData,
    nb: Seq<Option<ChunkData>>,
    x: int,
    y: int,
    z: int,
    d: Direction,
)
    ensures
        dirs_x(c, nb, x, y, z).contains(d) <==> ((d == Direction::North || d == Direction::South)
            && face_exposed(c, nb, x, y, z, d)),
{
    let north = opt_dir(face_exposed(c, nb, x, y, z, Direction::North), Direction::North);
    let south = opt_dir(face_exposed(c, nb, x, y, z, Direction::South), Direction::South);
    lemma_opt_dir_contains(face_exposed(c, nb, x, y, z, Direction::North), Direction::North, d);
    lemma_opt_dir_contains(face_exposed(c, nb, x, y, z, Direction::South), Direction::South, d);
    lemma_add_contains(north, south, d);
    lemma_add_contains(south, north, d);
}

/// The Y pair holds a direction iff it is an exposed Y face.
proof fn lemma_dirs_y_contains(
    c: ChunkData,
    nb: Seq<Option<ChunkData>>,
    x: int,
    y: int,
    z: int,
    d: Direction,
)
    ensures
        dirs_y(c, nb, x, y, z).contains(d) <==> ((d == Direction::Up || d == Direction::Down)
            && face_exposed(c, nb, x, y, z, d)),
{
    let up = opt_dir(face_exposed(c, nb, x, y, z, Direction::Up), Direction::Up);
    let down = opt_dir(face_exposed(c, nb, x, y, z, Direction::Down), Direction::Down);
    lemma_opt_dir_contains(face_exposed(c, nb, x, y, z, Direction::Up), Direction::Up, d);
    lemma_opt_dir_contains(face_exposed(c, nb, x, y, z, Direction::Down), Direction::Down, d);
    lemma_add_contains(up, down, d);
    lemma_add_contains(down, up, d);
}

/// The Z pair holds a direction iff it is an exposed Z face.
proof fn lemma_dirs_z_contains(
    c: ChunkData,
    nb: Seq<Option<ChunkData>>,
    x: int,
    y: int,
    z: int,
    d: Direction,
)
    ensures
        dirs_z(c, nb, x, y, z).contains(d) <==> ((d == Direction::West || d == Direction::East)
            && face_exposed(c, nb, x, y, z, d)),
{
    let west = opt_dir(face_exposed(c, nb, x, y, z, Direction::West), Direction::West);
    let east = opt_dir(face_exposed(c, nb, x, y, z, Direction::East), Direction::East);
    lemma_opt_dir_contains(face_exposed(c, nb, x, y, z, Direction::West), Direction::West, d);
    lemma_opt_dir_contains(face_exposed(c, nb, x, y, z, Direction::East), Direction::East, d);
    lemma_add_contains(west, east, d);
    lemma_add_contains(east, west, d);
}

/// Concatenating sequences with no common member keeps them free of
/// duplicates.
proof fn lemma_add_no_dup(a: Seq<Direction>, b: Seq<Direction>)
    requires
        a.no_duplicates(),
        b.no_duplicates(),
        forall|d: Direction| !(#[trigger] a.contains(d) && b.contains(d)),
    ensures
        (a + b).no_duplicates(),
{
    assert forall|i: int, j: int|
        0 <= i < j < (a + b).len() implies (a + b)[i] != (a + b)[j] by {
        if i < a.len() && j >= a.len() {
            if a[i] == b[j - a.len()] {
                assert(a.contains(a[i]));
                assert(b.contains(b[j - a.len()]));
            }
        }
    }
}

/// A two-slot pair of distinct conditional singletons has no
/// duplicates.
proof fn lemma_opt_pair_no_dup(b1: bool, d1: Direction, b2: bool, d2: Direction)
    requires
        d1 != d2,
    ensures
        (opt_dir(b1, d1) + opt_dir(b2, d2)).no_duplicates(),
{
}

/// The emitted direction list holds a direction iff that face is
/// exposed: the list is the set of exposed faces, each exactly once.
#[verifier::rlimit(100)]
pub proof fn lemma_exposed_dirs_contains(
    c: ChunkData,
    nb: Seq<Option<ChunkData>>,
    x: int,
    y: int,
    z: int,
)
    ensures
        forall|d: Direction|
            #[trigger] exposed_dirs(c, nb, x, y, z).contains(d) <==> face_exposed(
                c,
                nb,
                x,
                y,
                z,
                d,
            ),
        exposed_dirs(c, nb, x, y, z).no_duplicates(),
{
    let sx = dirs_x(c, nb, x, y, z);
    let sy = dirs_y(c, nb, x, y, z);
    let sz = dirs_z(c, nb, x, y, z);
    assert forall|d: Direction| #[trigger]
        exposed_dirs(c, nb, x, y, z).contains(d) <==> face_exposed(c, nb, x, y, z, d) by {
        lemma_add_contains(sx + sy, sz, d);
        lemma_add_contains(sx, sy, d);
        lemma_dirs_x_contains(c, nb, x, y, z, d);
        lemma_dirs_y_contains(c, nb, x, y, z, d);
        lemma_dirs_z_contains(c, nb, x, y, z, d);
    }
    let north = opt_dir(face_exposed(c, nb, x, y, z, Direction::North), Direction::North);
    let south = opt_dir(face_exposed(c, nb, x, y, z, Direction::South), Direction::South);
    let up = opt_dir(face_exposed(c, nb, x, y, z, Direction::Up), Direction::Up);
    let down = opt_dir(face_exposed(c, nb, x, y, z, Direction::Down), Direction::Down);
    let west = opt_dir(face_exposed(c, nb, x, y, z, Direction::West), Direction::West);
    let east = opt_dir(face_exposed(c, nb, x, y, z, Direction::East), Direction::East);
    lemma_opt_pair_no_dup(
        face_exposed(c, nb, x, y, z, Direction::North),
        Direction::North,
        face_exposed(c, nb, x, y, z, Direction::South),
        Direction::South,
    );
    lemma_opt_pair_no_dup(
        face_exposed(c, nb, x, y, z, Direction::South),
        Direction::South,
        face_exposed(c, nb, x, y, z, Direction::North),
        Direction::North,
    );
    lemma_opt_pair_no_dup(
        face_exposed(c, nb, x, y, z, Direction::Up),
        Direction::Up,
        face_exposed(c, nb, x, y, z, Direction::Down),
        Direction::Down,
    );
    lemma_opt_pair_no_dup(
        face_exposed(c, nb, x, y, z, Direction::Down),
        Direction::Down,
        face_exposed(c, nb, x, y, z, Direction::Up),
        Direction::Up,
    );
    lemma_opt_pair_no_dup(
        face_exposed(c, nb, x, y, z, Direction::West),
        Direction::West,
        face_exposed(c, nb, x, y, z, Direction::East),
        Direction::East,
    );
    lemma_opt_pair_no_dup(
        face_exposed(c, nb, x, y, z, Direction::East),
        Direction::East,
        face_exposed(c, nb, x, y, z, Direction::West),
        Direction::West,
    );
    assert(sx.no_duplicates());
    assert(sy.no_duplicates());
    assert(sz.no_duplicates());
    assert forall|d: Direction| !(#[trigger] sx.contains(d) && sy.contains(d)) by {
        lemma_dirs_x_contains(c, nb, x, y, z, d);
        lemma_dirs_y_contains(c, nb, x, y, z, d);
    }
    lemma_add_no_dup(sx, sy);
    assert forall|d: Direction| !(#[trigger] (sx + sy).contains(d) && sz.contains(d)) by {
        lemma_add_contains(sx, sy, d);
        lemma_dirs_x_contains(c, nb, x, y, z, d);
        lemma_dirs_y_contains(c, nb, x, y, z, d);
        lemma_dirs_z_contains(c, nb, x, y, z, d);
    }
    lemma_add_no_dup(sx + sy, sz);
}

/// Strictly interior voxels: a face is exposed iff the immediately
/// adjacent voxel of the same grid is not solid, in all six
/// directions; the neighbour snapshot plays no part.
pub proof fn lemma_interior_face_exposed(
    c: ChunkData,
    nb: Seq<Option<ChunkData>>,
    x: int,
    y: int,
    z: int,
)
    requires
        0 < x < 31,
        0 < y < 31,
        0 < z < 31,
    ensures
        face_exposed(c, nb, x, y, z, Direction::North) == !c.voxel(x + 1, y, z),
        face_exposed(c, nb, x, y, z, Direction::South) == !c.voxel(x - 1, y, z),
        face_exposed(c, nb, x, y, z, Direction::Up) == !c.voxel(x, y + 1, z),
        face_exposed(c, nb, x, y, z, Direction::Down) == !c.voxel(x, y - 1, z),
        face_exposed(c, nb, x, y, z, Direction::West) == !c.voxel(x, y, z + 1),
        face_exposed(c, nb, x, y, z, Direction::East) == !c.voxel(x, y, z - 1),
{
}

/// Boundary defaults when no neighbour chunk was generated: every
/// boundary face counts as exposed to open air, except a Down face
/// at the chunk floor, which stays sealed.
pub proof fn lemma_boundary_defaults(
    c: ChunkData,
    nb: Seq<Option<ChunkData>>,
    x: int,
    y: int,
    z: int,
)
    requires
        nb.len() == 6,
        forall|i: int| 0 <= i < 6 ==> #[trigger] nb[i] is None,
        0 <= x < 32,
        0 <= y < 32,
        0 <= z < 32,
    ensures
        x == 31 ==> face_exposed(c, nb, x, y, z, Direction::North),
        x == 0 ==> face_exposed(c, nb, x, y, z, Direction::South),
        y == 31 ==> face_exposed(c, nb, x, y, z, Direction::Up),
        y == 0 ==> !face_exposed(c, nb, x, y, z, Direction::Down),
        z == 31 ==> face_exposed(c, nb, x, y, z, Direction::West),
        z == 0 ==> face_exposed(c, nb, x, y, z, Direction::East),
{
}

/// Cross-chunk occlusion on the X boundary plane: with the adjacent
/// chunk present in the snapshot, a boundary face is exposed iff the
/// facing boundary voxel of that chunk is not solid — so two
/// fully-solid chunks hide their shared plane completely. With the
/// adjacent chunk absent the same face counts as exposed, which is
/// what a mesh built before the neighbour was inserted shows.
pub proof fn lemma_cross_chunk_occlusion(
    c: ChunkData,
    nb: Seq<Option<ChunkData>>,
    n: ChunkData,
    y: int,
    z: int,
)
    requires
        nb.len() == 6,
        0 <= y < 32,
        0 <= z < 32,
    ensures
        nb[0] == Some(n) ==> (face_exposed(c, nb, 31, y, z, Direction::North) <==> !n.voxel(
            0,
            y,
            z,
        )),
        nb[1] == Some(n) ==> (face_exposed(c, nb, 0, y, z, Direction::South) <==> !n.voxel(
            31,
            y,
            z,
        )),
        nb[0] is None ==> face_exposed(c, nb, 31, y, z, Direction::North),
        nb[1] is None ==> face_exposed(c, nb, 0, y, z, Direction::South),
{
}

/// A voxel exposes at most six faces.
pub proof fn lemma_exposed_dirs_len(
    c: ChunkData,
    nb: Seq<Option<ChunkData>>,
    x: int,
    y: int,
    z: int,
)
    ensures
        exposed_dirs(c, nb, x, y, z).len() <= 6,
{
}

/// Computes the packed map key of a chunk coordinate.
fn compute_chunk_key(pos: IVec3) -> (k: u128)
    ensures
        k == chunk_key(pos),
{
    let xk: u128 = (#[verifier::truncate] (pos.x as u32)) as u128;
    let yk: u128 = (#[verifier::truncate] (pos.y as u32)) as u128;
    let zk: u128 = (#[verifier::truncate] (pos.z as u32)) as u128;
    (xk << 64) | (yk << 32) | zk
}

} // verus!
