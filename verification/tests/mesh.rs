use particle_trails::mesh::{checked_sphere_indices, sphere_fits, sphere_indices};

/// The triangles listed pole to pole, meridian by meridian, by plain counting.
fn by_counting(nx: u32, nz: u32) -> Vec<u32> {
    let rings = nz - 2;
    let north = 1 + nx * rings;
    let at = |ix: u32, iz: u32| (ix % nx) * rings + iz;
    let mut out = Vec::new();
    for ix in 0..nx {
        out.extend([0, at(ix + 1, 1), at(ix, 1)]);
        for iz in 1..rings {
            out.extend([at(ix, iz), at(ix + 1, iz + 1), at(ix, iz + 1)]);
            out.extend([at(ix, iz), at(ix + 1, iz), at(ix + 1, iz + 1)]);
        }
        out.extend([at(ix + 1, rings), north, at(ix, rings)]);
    }
    out
}

#[test]
fn smallest_sphere() {
    let expected: Vec<u32> = vec![
        0, 3, 1, 1, 4, 2, 1, 3, 4, 4, 9, 2, //
        0, 5, 3, 3, 6, 4, 3, 5, 6, 6, 9, 4, //
        0, 7, 5, 5, 8, 6, 5, 7, 8, 8, 9, 6, //
        0, 1, 7, 7, 2, 8, 7, 1, 2, 2, 9, 8,
    ];
    assert_eq!(sphere_indices(4, 4), expected);
}

#[test]
fn spheres_of_many_sizes() {
    for nx in 4u32..12 {
        for nz in 4u32..12 {
            let got = sphere_indices(nx, nz);
            assert_eq!(got, by_counting(nx, nz), "nx {nx}, nz {nz}");
            assert_eq!(got.len() as u32, 6 * nx * (nz - 2));
            assert!(got.iter().all(|k| *k < 2 + nx * (nz - 2)));
        }
    }
}

#[test]
fn sphere_as_drawn() {
    let got = sphere_indices(64, 64);
    assert_eq!(got.len(), 6 * 64 * 62);
    assert_eq!(got, by_counting(64, 64));
    assert_eq!(*got.iter().max().unwrap(), 1 + 64 * 62);
    assert_eq!(&got[got.len() - 3..], &[62, 1 + 64 * 62, 64 * 62]);
}

#[test]
fn no_triangle_is_degenerate() {
    for (nx, nz) in [(4u32, 4u32), (5, 9), (16, 7)] {
        for t in sphere_indices(nx, nz).chunks(3) {
            assert!(t[0] != t[1] && t[0] != t[2] && t[1] != t[2], "{t:?}");
        }
    }
}

#[test]
fn every_vertex_is_used() {
    let (nx, nz) = (7u32, 6u32);
    let got = sphere_indices(nx, nz);
    for v in 0..2 + nx * (nz - 2) {
        assert!(got.contains(&v), "vertex {v}");
    }
}

#[test]
fn too_small_or_too_large_is_told_apart() {
    assert!(sphere_fits(4, 4));
    assert!(sphere_fits(64, 64));
    assert!(!sphere_fits(3, 4));
    assert!(!sphere_fits(4, 3));
    assert!(!sphere_fits(0, 0));
    // 2 + 65536 * 65536 vertices do not fit in 32 bits, 2 + 65535 * 65536 do.
    assert!(!sphere_fits(65536, 65538));
    assert!(!sphere_fits(u32::MAX, u32::MAX));
    assert_eq!(
        sphere_fits(65535, 65538),
        6u128 * 65535 * 65536 <= usize::MAX as u128
    );
}

#[test]
fn checked_variant_agrees() {
    assert_eq!(checked_sphere_indices(4, 4), Some(sphere_indices(4, 4)));
    assert_eq!(checked_sphere_indices(9, 5), Some(by_counting(9, 5)));
    assert_eq!(checked_sphere_indices(3, 64), None);
    assert_eq!(checked_sphere_indices(64, 2), None);
    assert_eq!(checked_sphere_indices(u32::MAX, u32::MAX), None);
}
