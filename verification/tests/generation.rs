use voxel_core::chunk::{gen_chunk, gen_chunk_flat, Chunk};
use voxel_core::math::IVec3;

/// Builds a volumetric sample buffer from a predicate over local
/// coordinates, in the row-major (x, y, z) order the generator reads.
fn samples_from<F: Fn(usize, usize, usize) -> bool>(f: F) -> Vec<bool> {
    let mut samples = vec![false; 32 * 32 * 32];
    for x in 0..32 {
        for y in 0..32 {
            for z in 0..32 {
                samples[x * 1024 + y * 32 + z] = f(x, y, z);
            }
        }
    }
    samples
}

fn grids_equal(a: &Chunk, b: &Chunk) -> bool {
    for x in 0..32i32 {
        for y in 0..32i32 {
            for z in 0..32i32 {
                if a.data.get(x, y, z) != b.data.get(x, y, z) {
                    return false;
                }
            }
        }
    }
    true
}

#[test]
fn volumetric_generation_is_deterministic() {
    let samples = samples_from(|x, y, z| (x + 3 * y + 7 * z) % 5 < 2);
    let pos = IVec3::new(4, -2, 9);
    let a = gen_chunk(pos, &samples);
    let b = gen_chunk(pos, &samples);
    assert!(grids_equal(&a, &b));
    assert_eq!(a.position, b.position);
}

#[test]
fn volumetric_generation_matches_samples() {
    let samples = samples_from(|x, y, z| x == 0 || (y == 31 && z > 15));
    let pos = IVec3::new(0, 0, 0);
    let c = gen_chunk(pos, &samples);
    assert_eq!(c.position, pos);
    assert_eq!(c.data.pos, pos);
    for x in 0..32 {
        for y in 0..32 {
            for z in 0..32 {
                let expected = x == 0 || (y == 31 && z > 15);
                assert_eq!(c.data.get(x, y, z), expected);
            }
        }
    }
}

#[test]
fn heightmap_generation_is_deterministic() {
    let mut heights = vec![0i64; 1024];
    for x in 0..32 {
        for z in 0..32 {
            heights[x * 32 + z] = ((x * z) % 40) as i64 - 4;
        }
    }
    let pos = IVec3::new(-3, 0, 5);
    let a = gen_chunk_flat(pos, &heights);
    let b = gen_chunk_flat(pos, &heights);
    assert!(grids_equal(&a, &b));
    assert_eq!(a.position, b.position);
}

#[test]
fn heightmap_fills_columns_below_height() {
    let mut heights = vec![16i64; 1024];
    heights[0] = 0; // column (0, 0) stays empty
    heights[5 * 32 + 7] = 40; // column (5, 7) is full
    let c = gen_chunk_flat(IVec3::new(0, 0, 0), &heights);
    for x in 0..32i32 {
        for y in 0..32i32 {
            for z in 0..32i32 {
                let h = heights[(x * 32 + z) as usize];
                assert_eq!(c.data.get(x, y, z), (y as i64) < h);
            }
        }
    }
}

#[test]
fn heightmap_uses_world_space_y() {
    let heights = vec![16i64; 1024];
    // One chunk above the origin: world y runs 32..64, all above 16.
    let above = gen_chunk_flat(IVec3::new(0, 1, 0), &heights);
    // One chunk below: world y runs -32..0, all under 16.
    let below = gen_chunk_flat(IVec3::new(0, -1, 0), &heights);
    for x in 0..32i32 {
        for y in 0..32i32 {
            for z in 0..32i32 {
                assert!(!above.data.get(x, y, z));
                assert!(below.data.get(x, y, z));
            }
        }
    }
}
