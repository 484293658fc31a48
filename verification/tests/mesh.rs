use voxel_core::chunk::{gen_chunk, gen_chunk_flat, gen_indeces, MeshData};
use voxel_core::math::{IVec3, Vec3};
use voxel_core::quad::{new_quad, Direction};
use voxel_core::world::VoxelWorld;

fn samples_from<F: Fn(usize, usize, usize) -> bool>(f: F) -> Vec<bool> {
    let mut samples = vec![false; 32 * 32 * 32];
    for x in 0..32 {
        for y in 0..32 {
            for z in 0..32 {
                samples[x * 1024 + y * 32 + z] = f(x, y, z);
            }
        }
    }
    samples
}

/// Index-buffer well-formedness for any mesh output.
fn assert_buffers_well_formed(mesh: &MeshData) {
    assert_eq!(mesh.vertices.len() % 4, 0);
    assert_eq!(mesh.normals.len(), mesh.vertices.len());
    assert_eq!(mesh.indices.len(), 6 * mesh.vertices.len() / 4);
    for &i in &mesh.indices {
        assert!((i as usize) < mesh.vertices.len());
    }
}

#[test]
fn quad_corners_match_the_geometry_table() {
    let p = Vec3::new(2, 3, 4);
    let north = new_quad(Direction::North, p);
    assert_eq!(
        north,
        [Vec3::new(3, 3, 4), Vec3::new(3, 4, 4), Vec3::new(3, 4, 5), Vec3::new(3, 3, 5)]
    );
    let south = new_quad(Direction::South, p);
    assert_eq!(
        south,
        [Vec3::new(2, 3, 4), Vec3::new(2, 3, 5), Vec3::new(2, 4, 5), Vec3::new(2, 4, 4)]
    );
    let east = new_quad(Direction::East, p);
    assert_eq!(
        east,
        [Vec3::new(3, 3, 4), Vec3::new(2, 3, 4), Vec3::new(2, 4, 4), Vec3::new(3, 4, 4)]
    );
    let west = new_quad(Direction::West, p);
    assert_eq!(
        west,
        [Vec3::new(3, 3, 5), Vec3::new(3, 4, 5), Vec3::new(2, 4, 5), Vec3::new(2, 3, 5)]
    );
    let up = new_quad(Direction::Up, p);
    assert_eq!(
        up,
        [Vec3::new(2, 4, 4), Vec3::new(2, 4, 5), Vec3::new(3, 4, 5), Vec3::new(3, 4, 4)]
    );
    let down = new_quad(Direction::Down, p);
    assert_eq!(
        down,
        [Vec3::new(2, 3, 4), Vec3::new(3, 3, 4), Vec3::new(3, 3, 5), Vec3::new(2, 3, 5)]
    );
}

fn sub(a: Vec3, b: Vec3) -> (i64, i64, i64) {
    (a.x - b.x, a.y - b.y, a.z - b.z)
}

fn cross(a: (i64, i64, i64), b: (i64, i64, i64)) -> (i64, i64, i64) {
    (a.1 * b.2 - a.2 * b.1, a.2 * b.0 - a.0 * b.2, a.0 * b.1 - a.1 * b.0)
}

/// Winding/normal consistency over a whole emitted mesh: the cross
/// product of winding-order edges of every quad equals the normal
/// stored for its vertices, for both triangles of the quad.
#[test]
fn winding_matches_declared_normals() {
    // A single voxel strictly inside the chunk exposes all six faces,
    // so the mesh covers every direction.
    let samples = samples_from(|x, y, z| (x, y, z) == (16, 16, 16));
    let mut world = VoxelWorld::new();
    let pos = IVec3::new(0, 0, 0);
    world.add_chunk(pos, gen_chunk(pos, &samples));
    let mesh = world.get_chunk(pos).unwrap().gen_mesh(&world);
    assert_eq!(mesh.vertices.len(), 24);
    for q in 0..mesh.vertices.len() / 4 {
        let v = &mesh.vertices[4 * q..4 * q + 4];
        let n = mesh.normals[4 * q];
        assert_eq!(cross(sub(v[1], v[0]), sub(v[2], v[1])), (n.x, n.y, n.z));
        assert_eq!(cross(sub(v[3], v[2]), sub(v[0], v[3])), (n.x, n.y, n.z));
        assert_eq!(mesh.normals[4 * q + 1], n);
        assert_eq!(mesh.normals[4 * q + 2], n);
        assert_eq!(mesh.normals[4 * q + 3], n);
    }
    assert_buffers_well_formed(&mesh);
}

#[test]
fn index_buffer_pattern() {
    assert_eq!(gen_indeces(0), Vec::<u32>::new());
    assert_eq!(gen_indeces(8), vec![0, 1, 2, 2, 3, 0, 4, 5, 6, 6, 7, 4]);
    // A trailing partial quad contributes no triangles.
    assert_eq!(gen_indeces(7), vec![0, 1, 2, 2, 3, 0]);
}

/// A fully solid chunk with no neighbours melts down to the open-box
/// shell: five sides of 32*32 quads each and no Down faces, with no
/// interior quads.
#[test]
fn solid_cube_emits_five_sided_shell() {
    let solid = vec![true; 32 * 32 * 32];
    let mut world = VoxelWorld::new();
    let pos = IVec3::new(0, 0, 0);
    world.add_chunk(pos, gen_chunk(pos, &solid));
    let mesh = world.get_chunk(pos).unwrap().gen_mesh(&world);
    assert_eq!(mesh.vertices.len() / 4, 5 * 32 * 32);
    assert_eq!(mesh.vertices.len(), 20480);
    assert_eq!(mesh.normals.len(), 20480);
    assert_eq!(mesh.indices.len(), 30720);
    assert_buffers_well_formed(&mesh);
    let mut per_normal = [0usize; 6];
    let normals = [
        Vec3::new(1, 0, 0),
        Vec3::new(-1, 0, 0),
        Vec3::new(0, 1, 0),
        Vec3::new(0, -1, 0),
        Vec3::new(0, 0, 1),
        Vec3::new(0, 0, -1),
    ];
    for q in 0..mesh.vertices.len() / 4 {
        let n = mesh.normals[4 * q];
        let slot = normals.iter().position(|&m| m == n).unwrap();
        per_normal[slot] += 1;
    }
    assert_eq!(per_normal, [1024, 1024, 1024, 0, 1024, 1024]); // no Down faces
}

/// End-to-end heightmap scenario with the noise oracle pinned to
/// zero: both octaves remap to constant height contributions, the
/// column height is 48 everywhere, the chunk at the origin comes out
/// fully solid, and its mesh is exactly the five-sided shell.
#[test]
fn heightmap_with_zero_noise_gives_the_shell_fixture() {
    let noise = 0.0f32;
    let mut h = (noise + 1.0) * 16.0;
    h += (noise + 1.0) * 16.0 * 4.0;
    h -= 32.0;
    let column = h.ceil() as i64;
    assert_eq!(column, 48);
    let heights = vec![column; 1024];
    let pos = IVec3::new(0, 0, 0);
    let chunk = gen_chunk_flat(pos, &heights);
    for x in 0..32i32 {
        for y in 0..32i32 {
            for z in 0..32i32 {
                assert!(chunk.data.get(x, y, z));
            }
        }
    }
    let mut world = VoxelWorld::new();
    world.add_chunk(pos, chunk);
    let mesh = world.get_chunk(pos).unwrap().gen_mesh(&world);
    assert_eq!(mesh.vertices.len() / 4, 5120);
    assert_eq!(mesh.vertices.len(), 20480);
    assert_eq!(mesh.indices.len(), 30720);
    assert_buffers_well_formed(&mesh);
}

/// Meshing an empty chunk emits nothing.
#[test]
fn empty_chunk_emits_no_quads() {
    let empty = vec![false; 32 * 32 * 32];
    let mut world = VoxelWorld::new();
    let pos = IVec3::new(0, 0, 0);
    world.add_chunk(pos, gen_chunk(pos, &empty));
    let mesh = world.get_chunk(pos).unwrap().gen_mesh(&world);
    assert!(mesh.vertices.is_empty());
    assert!(mesh.normals.is_empty());
    assert!(mesh.indices.is_empty());
}

/// Vertices land at the chunk's world offset: chunk coordinates scale
/// by the chunk edge length.
#[test]
fn mesh_vertices_use_world_positions() {
    let samples = samples_from(|x, y, z| (x, y, z) == (0, 1, 0));
    let mut world = VoxelWorld::new();
    let pos = IVec3::new(2, -1, 3);
    world.add_chunk(pos, gen_chunk(pos, &samples));
    let mesh = world.get_chunk(pos).unwrap().gen_mesh(&world);
    assert_eq!(mesh.vertices.len(), 24);
    for v in &mesh.vertices {
        assert!(64 <= v.x && v.x <= 65);
        assert!(-31 <= v.y && v.y <= -30);
        assert!(96 <= v.z && v.z <= 97);
    }
}
