use vstd::prelude::*;

verus! {

/// A three-component `i32` vector, used both for chunk-space
/// coordinates in the world grid and for local voxel coordinates.
#[derive(Clone, Copy, Debug, PartialEq, Eq, Structural)]
pub struct IVec3 {
    pub x: i32,
    pub y: i32,
    pub z: i32,
}

impl IVec3 {
    pub fn new(x: i32, y: i32, z: i32) -> (v: IVec3)
        ensures
            v == (IVec3 { x, y, z }),
    {
        IVec3 { x, y, z }
    }
}

/// A three-component `i64` vector on the world-space voxel lattice:
/// quad corners sit on integer positions, and face normals are unit
/// vectors, so meshes carry exact integer geometry.
#[derive(Clone, Copy, Debug, PartialEq, Eq, Structural)]
pub struct Vec3 {
    pub x: i64,
    pub y: i64,
    pub z: i64,
}

impl Vec3 {
    pub fn new(x: i64, y: i64, z: i64) -> (v: Vec3)
        ensures
            v == (Vec3 { x, y, z }),
    {
        Vec3 { x, y, z }
    }
}

/// Componentwise difference `a - b`, as unbounded integers.
pub open spec fn vec_sub(a: Vec3, b: Vec3) -> (int, int, int) {
    (a.x - b.x, a.y - b.y, a.z - b.z)
}

/// Cross product of two integer vectors.
pub open spec fn vec_cross(a: (int, int, int), b: (int, int, int)) -> (int, int, int) {
    (a.1 * b.2 - a.2 * b.1, a.2 * b.0 - a.0 * b.2, a.0 * b.1 - a.1 * b.0)
}

} // verus!
