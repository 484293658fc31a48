use vstd::prelude::*;

use crate::math::{vec_cross, vec_sub, Vec3};

verus! {

/// The six face directions of a voxel. `North`/`South` are +X/-X,
/// `Up`/`Down` are +Y/-Y, `West`/`East` are +Z/-Z.
#[derive(Clone, Copy, Debug, PartialEq, Eq, Structural)]
pub enum Direction {
    North,
    South,
    East,
    West,
    Up,
    Down,
}

/// Outward unit normal of a face pointing in direction `d`.
pub open spec fn normal_spec(d: Direction) -> Vec3 {
    match d {
        Direction::North => Vec3 { x: 1, y: 0, z: 0 },
        Direction::South => Vec3 { x: -1i64, y: 0, z: 0 },
        Direction::East => Vec3 { x: 0, y: 0, z: -1i64 },
        Direction::West => Vec3 { x: 0, y: 0, z: 1 },
        Direction::Up => Vec3 { x: 0, y: 1, z: 0 },
        Direction::Down => Vec3 { x: 0, y: -1i64, z: 0 },
    }
}

/// The four corners of the unit-cube face of the voxel anchored at
/// `pos` that points in direction `d`, in clockwise winding as seen
/// from outside the cube.
pub open spec fn quad_seq(d: Direction, pos: Vec3) -> Seq<Vec3> {
    match d {
        Direction::North => seq![
            Vec3 { x: (pos.x + 1) as i64, y: pos.y, z: pos.z },
            Vec3 { x: (pos.x + 1) as i64, y: (pos.y + 1) as i64, z: pos.z },
            Vec3 { x: (pos.x + 1) as i64, y: (pos.y + 1) as i64, z: (pos.z + 1) as i64 },
            Vec3 { x: (pos.x + 1) as i64, y: pos.y, z: (pos.z + 1) as i64 },
        ],
        Direction::South => seq![
            Vec3 { x: pos.x, y: pos.y, z: pos.z },
            Vec3 { x: pos.x, y: pos.y, z: (pos.z + 1) as i64 },
            Vec3 { x: pos.x, y: (pos.y + 1) as i64, z: (pos.z + 1) as i64 },
            Vec3 { x: pos.x, y: (pos.y + 1) as i64, z: pos.z },
        ],
        Direction::East => seq![
            Vec3 { x: (pos.x + 1) as i64, y: pos.y, z: pos.z },
            Vec3 { x: pos.x, y: pos.y, z: pos.z },
            Vec3 { x: pos.x, y: (pos.y + 1) as i64, z: pos.z },
            Vec3 { x: (pos.x + 1) as i64, y: (pos.y + 1) as i64, z: pos.z },
        ],
        Direction::West => seq![
            Vec3 { x: (pos.x + 1) as i64, y: pos.y, z: (pos.z + 1) as i64 },
            Vec3 { x: (pos.x + 1) as i64, y: (pos.y + 1) as i64, z: (pos.z + 1) as i64 },
            Vec3 { x: pos.x, y: (pos.y + 1) as i64, z: (pos.z + 1) as i64 },
            Vec3 { x: pos.x, y: pos.y, z: (pos.z + 1) as i64 },
        ],
        Direction::Up => seq![
            Vec3 { x: pos.x, y: (pos.y + 1) as i64, z: pos.z },
            Vec3 { x: pos.x, y: (pos.y + 1) as i64, z: (pos.z + 1) as i64 },
            Vec3 { x: (pos.x + 1) as i64, y: (pos.y + 1) as i64, z: (pos.z + 1) as i64 },
            Vec3 { x: (pos.x + 1) as i64, y: (pos.y + 1) as i64, z: pos.z },
        ],
        Direction::Down => seq![
            Vec3 { x: pos.x, y: pos.y, z: pos.z },
            Vec3 { x: (pos.x + 1) as i64, y: pos.y, z: pos.z },
            Vec3 { x: (pos.x + 1) as i64, y: pos.y, z: (pos.z + 1) as i64 },
            Vec3 { x: pos.x, y: pos.y, z: (pos.z + 1) as i64 },
        ],
    }
}

/// Builds the quad for the face of the voxel at world position `pos`
/// pointing in direction `dir`, with clockwise winding.
pub fn new_quad(dir: Direction, pos: Vec3) -> (q: [Vec3; 4])
    requires
        pos.x < i64::MAX,
        pos.y < i64::MAX,
        pos.z < i64::MAX,
    ensures
        q@ == quad_seq(dir, pos),
{
    let q: [Vec3; 4] = match dir {
        Direction::North => [
            Vec3 { x: pos.x + 1, y: pos.y, z: pos.z },
            Vec3 { x: pos.x + 1, y: pos.y + 1, z: pos.z },
            Vec3 { x: pos.x + 1, y: pos.y + 1, z: pos.z + 1 },
            Vec3 { x: pos.x + 1, y: pos.y, z: pos.z + 1 },
        ],
        Direction::South => [
            Vec3 { x: pos.x, y: pos.y, z: pos.z },
            Vec3 { x: pos.x, y: pos.y, z: pos.z + 1 },
            Vec3 { x: pos.x, y: pos.y + 1, z: pos.z + 1 },
            Vec3 { x: pos.x, y: pos.y + 1, z: pos.z },
        ],
        Direction::East => [
            Vec3 { x: pos.x + 1, y: pos.y, z: pos.z },
            Vec3 { x: pos.x, y: pos.y, z: pos.z },
            Vec3 { x: pos.x, y: pos.y + 1, z: pos.z },
            Vec3 { x: pos.x + 1, y: pos.y + 1, z: pos.z },
        ],
        Direction::West => [
            Vec3 { x: pos.x + 1, y: pos.y, z: pos.z + 1 },
            Vec3 { x: pos.x + 1, y: pos.y + 1, z: pos.z + 1 },
            Vec3 { x: pos.x, y: pos.y + 1, z: pos.z + 1 },
            Vec3 { x: pos.x, y: pos.y, z: pos.z + 1 },
        ],
        Direction::Up => [
            Vec3 { x: pos.x, y: pos.y + 1, z: pos.z },
            Vec3 { x: pos.x, y: pos.y + 1, z: pos.z + 1 },
            Vec3 { x: pos.x + 1, y: pos.y + 1, z: pos.z + 1 },
            Vec3 { x: pos.x + 1, y: pos.y + 1, z: pos.z },
        ],
        Direction::Down => [
            Vec3 { x: pos.x, y: pos.y, z: pos.z },
            Vec3 { x: pos.x + 1, y: pos.y, z: pos.z },
            Vec3 { x: pos.x + 1, y: pos.y, z: pos.z + 1 },
            Vec3 { x: pos.x, y: pos.y, z: pos.z + 1 },
        ],
    };
    proof {
        assert(q@ =~= quad_seq(dir, pos));
    }
    q
}

/// Winding/normal consistency: for every face quad, the outward
/// normal computed from the corners by a winding-order edge cross
/// product equals the direction's declared unit normal. This holds
/// for both triangles of the quad: edges (0,1),(1,2) and edges
/// (2,3),(3,0) give the same cross product.
pub proof fn lemma_quad_winding(d: Direction, pos: Vec3)
    requires
        pos.x < i64::MAX,
        pos.y < i64::MAX,
        pos.z < i64::MAX,
    ensures
        vec_cross(
            vec_sub(quad_seq(d, pos)[1], quad_seq(d, pos)[0]),
            vec_sub(quad_seq(d, pos)[2], quad_seq(d, pos)[1]),
        ) == (normal_spec(d).x as int, normal_spec(d).y as int, normal_spec(d).z as int),
        vec_cross(
            vec_sub(quad_seq(d, pos)[3], quad_seq(d, pos)[2]),
            vec_sub(quad_seq(d, pos)[0], quad_seq(d, pos)[3]),
        ) == (normal_spec(d).x as int, normal_spec(d).y as int, normal_spec(d).z as int),
{
    assert(0int * 0int == 0 && 1int * 0int == 0 && 0int * 1int == 0 && 1int * 1int == 1
        && (-1int) * 0int == 0 && 0int * (-1int) == 0 && (-1int) * 1int == -1
        && 1int * (-1int) == -1 && (-1int) * (-1int) == 1) by (nonlinear_arith);
    let q = quad_seq(d, pos);
    match d {
        Direction::North => {
            assert(vec_sub(q[1], q[0]) == (0int, 1int, 0int));
            assert(vec_sub(q[2], q[1]) == (0int, 0int, 1int));
            assert(vec_sub(q[3], q[2]) == (0int, -1int, 0int));
            assert(vec_sub(q[0], q[3]) == (0int, 0int, -1int));
        },
        Direction::South => {
            assert(vec_sub(q[1], q[0]) == (0int, 0int, 1int));
            assert(vec_sub(q[2], q[1]) == (0int, 1int, 0int));
            assert(vec_sub(q[3], q[2]) == (0int, 0int, -1int));
            assert(vec_sub(q[0], q[3]) == (0int, -1int, 0int));
        },
        Direction::East => {
            assert(vec_sub(q[1], q[0]) == (-1int, 0int, 0int));
            assert(vec_sub(q[2], q[1]) == (0int, 1int, 0int));
            assert(vec_sub(q[3], q[2]) == (1int, 0int, 0int));
            assert(vec_sub(q[0], q[3]) == (0int, -1int, 0int));
        },
        Direction::West => {
            assert(vec_sub(q[1], q[0]) == (0int, 1int, 0int));
            assert(vec_sub(q[2], q[1]) == (-1int, 0int, 0int));
            assert(vec_sub(q[3], q[2]) == (0int, -1int, 0int));
            assert(vec_sub(q[0], q[3]) == (1int, 0int, 0int));
        },
        Direction::Up => {
            assert(vec_sub(q[1], q[0]) == (0int, 0int, 1int));
            assert(vec_sub(q[2], q[1]) == (1int, 0int, 0int));
            assert(vec_sub(q[3], q[2]) == (0int, 0int, -1int));
            assert(vec_sub(q[0], q[3]) == (-1int, 0int, 0int));
        },
        Direction::Down => {
            assert(vec_sub(q[1], q[0]) == (1int, 0int, 0int));
            assert(vec_sub(q[2], q[1]) == (0int, 0int, 1int));
            assert(vec_sub(q[3], q[2]) == (-1int, 0int, 0int));
            assert(vec_sub(q[0], q[3]) == (0int, 0int, -1int));
        },
    }
}

} // verus!
