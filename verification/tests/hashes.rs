use procnoise::perlin::{
    corner_hashes_1d, grad2_hash, grad3_hash, grad4_hash, lattice_offsets_2d, lattice_offsets_3d,
    lattice_offsets_4d, NOISE_PERM,
};

#[test]
fn corner_hashes_1d_golden() {
    assert_eq!(corner_hashes_1d(0, 1), (12, 11));
    assert_eq!(corner_hashes_1d(-5, 9), (3, 12));
}

#[test]
fn corner_hashes_1d_derived_from_table() {
    // Cell 0 under seed 1: the offset corner is NOISE_PERM[1] = 164, which
    // splits into entry index 164 and second-level offset 0; the two hashes
    // chain through the table from entries 164 and 165.
    let ix = NOISE_PERM[1] as usize;
    assert_eq!(ix, 164);
    let h1 = NOISE_PERM[NOISE_PERM[ix] as usize] & 15;
    let h2 = NOISE_PERM[NOISE_PERM[ix + 1] as usize] & 15;
    assert_eq!(corner_hashes_1d(0, 1), (h1, h2));
}

#[test]
fn corner_hashes_1d_extreme_cells_wrap() {
    // The seed offset is added in wrapping arithmetic, so the outermost
    // cells still hash into the table.
    assert_eq!(corner_hashes_1d(i32::MAX, 0), (3, 2));
    assert_eq!(corner_hashes_1d(i32::MIN, 0), (2, 5));
}

#[test]
fn lattice_offsets_extreme_cells_fold() {
    assert_eq!(lattice_offsets_2d(i32::MAX, i32::MIN, 77), (31, 190));
}

#[test]
fn corner_hashes_are_four_bit() {
    for cell in [-1000, -1, 0, 1, 12345] {
        for seed in [0u32, 1, 255, 256, u32::MAX] {
            let (h1, h2) = corner_hashes_1d(cell, seed);
            assert!(h1 < 16 && h2 < 16);
        }
    }
}

#[test]
fn lattice_offsets_2d_golden() {
    assert_eq!(lattice_offsets_2d(0, 0, 1), (164, 31));
    assert_eq!(lattice_offsets_2d(-300, 77, 42), (88, 213));
}

#[test]
fn lattice_offsets_3d_golden() {
    assert_eq!(lattice_offsets_3d(5, -7, 9, 200), (38, 86, 91));
}

#[test]
fn lattice_offsets_4d_golden() {
    assert_eq!(lattice_offsets_4d(-1, -2, -3, -4, 255), (103, 213, 161, 27));
}

#[test]
fn lattice_offsets_ignore_high_seed_bits() {
    assert_eq!(lattice_offsets_2d(3, 4, 7), lattice_offsets_2d(3, 4, 7 + 256));
}

#[test]
fn grad_hashes_golden() {
    assert_eq!(grad2_hash(164, 31), 7);
    assert_eq!(grad2_hash(256, 256), 5);
    assert_eq!(grad3_hash(10, 20, 30), 10);
    assert_eq!(grad4_hash(10, 20, 30, 40), 149);
}

#[test]
fn grad_hashes_match_table_chains() {
    for (ix, iy) in [(0, 0), (17, 201), (255, 256), (511, 0)] {
        let expect = NOISE_PERM[NOISE_PERM[ix] as usize + iy] & 7;
        assert_eq!(grad2_hash(ix, iy), expect);
    }
    for (ix, iy, iz) in [(0, 0, 0), (100, 200, 50), (511, 256, 256)] {
        let expect = NOISE_PERM[NOISE_PERM[NOISE_PERM[ix] as usize + iy] as usize + iz] & 15;
        assert_eq!(grad3_hash(ix, iy, iz), expect);
    }
    let expect =
        NOISE_PERM[NOISE_PERM[NOISE_PERM[NOISE_PERM[9] as usize + 8] as usize + 7] as usize + 6];
    assert_eq!(grad4_hash(9, 8, 7, 6), expect);
}
