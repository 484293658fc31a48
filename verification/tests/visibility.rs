use voxel_core::chunk::{gen_chunk, ChunkNeighbours};
use voxel_core::math::IVec3;
use voxel_core::quad::Direction;
use voxel_core::world::VoxelWorld;

fn samples_from<F: Fn(usize, usize, usize) -> bool>(f: F) -> Vec<bool> {
    let mut samples = vec![false; 32 * 32 * 32];
    for x in 0..32 {
        for y in 0..32 {
            for z in 0..32 {
                samples[x * 1024 + y * 32 + z] = f(x, y, z);
            }
        }
    }
    samples
}

/// Interior rule, every combination: a solid voxel in the middle of
/// the chunk, with each subset of its six axis neighbours made solid,
/// exposes exactly the faces toward the empty neighbours.
#[test]
fn interior_exposure_covers_every_neighbour_combination() {
    // Offsets paired with the direction that looks toward them.
    let sides: [(i32, i32, i32, Direction); 6] = [
        (1, 0, 0, Direction::North),
        (-1, 0, 0, Direction::South),
        (0, 1, 0, Direction::Up),
        (0, -1, 0, Direction::Down),
        (0, 0, 1, Direction::West),
        (0, 0, -1, Direction::East),
    ];
    let world = VoxelWorld::new();
    for mask in 0..64usize {
        let samples = samples_from(|x, y, z| {
            if (x, y, z) == (16, 16, 16) {
                return true;
            }
            for (bit, side) in sides.iter().enumerate() {
                if mask & (1 << bit) != 0 {
                    let n = (16 + side.0, 16 + side.1, 16 + side.2);
                    if (x as i32, y as i32, z as i32) == n {
                        return true;
                    }
                }
            }
            false
        });
        let chunk = gen_chunk(IVec3::new(0, 0, 0), &samples);
        let neighbours = ChunkNeighbours::new(&world, chunk.position);
        let dirs = world.get_voxel_neighbours(&chunk.data, &neighbours, IVec3::new(16, 16, 16));
        for (bit, side) in sides.iter().enumerate() {
            let neighbour_solid = mask & (1 << bit) != 0;
            assert_eq!(
                dirs.contains(&side.3),
                !neighbour_solid,
                "mask {} direction {:?}",
                mask,
                side.3
            );
        }
        assert_eq!(dirs.len(), (0..6).filter(|bit| mask & (1 << bit) == 0).count());
    }
}

/// Boundary defaults with no generated neighbours: open air on X and
/// Z and above, but the chunk floor stays sealed.
#[test]
fn boundary_defaults_without_neighbours() {
    let world = VoxelWorld::new();
    let samples = samples_from(|x, y, z| (x, y, z) == (0, 0, 0));
    let chunk = gen_chunk(IVec3::new(0, 0, 0), &samples);
    let neighbours = ChunkNeighbours::new(&world, chunk.position);
    let dirs = world.get_voxel_neighbours(&chunk.data, &neighbours, IVec3::new(0, 0, 0));
    assert!(dirs.contains(&Direction::South)); // world edge at x == 0
    assert!(dirs.contains(&Direction::East)); // world edge at z == 0
    assert!(dirs.contains(&Direction::North)); // empty voxel at (1,0,0)
    assert!(dirs.contains(&Direction::Up)); // empty voxel at (0,1,0)
    assert!(dirs.contains(&Direction::West)); // empty voxel at (0,0,1)
    assert!(!dirs.contains(&Direction::Down)); // sealed world floor
    assert_eq!(dirs.len(), 5);

    // The same voxel moved to the top corner sees open sky above.
    let samples = samples_from(|x, y, z| (x, y, z) == (31, 31, 31));
    let chunk = gen_chunk(IVec3::new(0, 0, 0), &samples);
    let neighbours = ChunkNeighbours::new(&world, chunk.position);
    let dirs = world.get_voxel_neighbours(&chunk.data, &neighbours, IVec3::new(31, 31, 31));
    assert!(dirs.contains(&Direction::North));
    assert!(dirs.contains(&Direction::Up));
    assert!(dirs.contains(&Direction::West));
    assert!(dirs.contains(&Direction::South));
    assert!(dirs.contains(&Direction::Down));
    assert!(dirs.contains(&Direction::East));
    assert_eq!(dirs.len(), 6);
}

/// Cross-chunk occlusion: the shared plane of two fully solid chunks
/// is exposed while the neighbour is missing from the store, and
/// fully hidden once both chunks are inserted.
#[test]
fn cross_chunk_occlusion_on_shared_plane() {
    let solid = vec![true; 32 * 32 * 32];
    let pos_a = IVec3::new(0, 0, 0);
    let pos_b = IVec3::new(1, 0, 0);

    let mut world = VoxelWorld::new();
    world.add_chunk(pos_a, gen_chunk(pos_a, &solid));

    // Meshed before the neighbour exists: the +X plane is exposed.
    let a = world.get_chunk(pos_a).unwrap();
    let neighbours = ChunkNeighbours::new(&world, pos_a);
    let dirs = world.get_voxel_neighbours(&a.data, &neighbours, IVec3::new(31, 16, 16));
    assert_eq!(dirs, vec![Direction::North]);
    let mesh_before = a.gen_mesh(&world);
    assert_eq!(mesh_before.vertices.len() / 4, 5 * 32 * 32);

    // Once the solid neighbour is present, the shared plane is hidden
    // from both sides.
    let mut world = VoxelWorld::new();
    world.add_chunk(pos_a, gen_chunk(pos_a, &solid));
    world.add_chunk(pos_b, gen_chunk(pos_b, &solid));

    let a = world.get_chunk(pos_a).unwrap();
    let neighbours = ChunkNeighbours::new(&world, pos_a);
    let dirs = world.get_voxel_neighbours(&a.data, &neighbours, IVec3::new(31, 16, 16));
    assert!(dirs.is_empty());
    let mesh_a = a.gen_mesh(&world);
    assert_eq!(mesh_a.vertices.len() / 4, 4 * 32 * 32);

    let b = world.get_chunk(pos_b).unwrap();
    let neighbours = ChunkNeighbours::new(&world, pos_b);
    let dirs = world.get_voxel_neighbours(&b.data, &neighbours, IVec3::new(0, 16, 16));
    assert!(dirs.is_empty());
    let mesh_b = b.gen_mesh(&world);
    assert_eq!(mesh_b.vertices.len() / 4, 4 * 32 * 32);
}
