use procnoise::random::{cell_key_1d, cell_key_2d, cell_key_3d, cell_key_4d};
use procnoise::worley::{cell_seed_2d, cell_seed_3d, point_draw_key, poisson_count_at};

#[test]
fn worley_cell_seed_2d_golden() {
    assert_eq!(cell_seed_2d(3, 4, 9), 1474172940);
    assert_eq!(cell_seed_2d(-1, -2, 7), 1761594728);
}

#[test]
fn worley_cell_seed_3d_golden() {
    assert_eq!(cell_seed_3d(1, 2, 3, 4), 306347066);
}

#[test]
fn worley_cell_seed_formula() {
    let (ix, iy, seed) = (-123, 456, 0xabcdef);
    let expect = 702395077u64
        .wrapping_mul(ix as u64)
        .wrapping_add(915488749u64.wrapping_mul(iy as u64))
        .wrapping_add(seed as u64) as u32;
    assert_eq!(cell_seed_2d(ix, iy, seed), expect);
}

#[test]
fn poisson_count_never_exceeds_eight() {
    for top in 0u32..256 {
        assert!(poisson_count_at(top << 24) <= 8);
    }
}

#[test]
fn poisson_count_reads_top_byte() {
    assert_eq!(poisson_count_at(cell_seed_2d(3, 4, 9)), 1);
    assert_eq!(poisson_count_at(33 << 24), 8);
    assert_eq!(poisson_count_at((33 << 24) | 0xffffff), 8);
}

#[test]
fn point_draw_keys_are_distinct_within_a_cell() {
    let cell_seed = 0xfeedface;
    let mut keys = Vec::new();
    for point in 0..8 {
        for axis in 0..3 {
            keys.push(point_draw_key(cell_seed, point, axis));
        }
    }
    let n = keys.len();
    keys.sort_unstable();
    keys.dedup();
    assert_eq!(keys.len(), n);
}

#[test]
fn point_draw_key_strides_by_sixteen() {
    assert_eq!(point_draw_key(1000, 0, 0), 1000);
    assert_eq!(point_draw_key(1000, 0, 1), 1001);
    assert_eq!(point_draw_key(1000, 3, 2), 1050);
    assert_eq!(point_draw_key(u32::MAX, 1, 0), 15);
}

#[test]
fn random_cell_keys_golden() {
    assert_eq!(cell_key_1d(10, 3), 32903873);
    assert_eq!(cell_key_2d(10, 20, 3), 121565973);
    assert_eq!(cell_key_3d(10, 20, 30, 3), 327851943);
    assert_eq!(cell_key_4d(10, 20, 30, 40, 3), 726602383);
}

#[test]
fn random_cell_keys_nest() {
    // Each higher dimension adds one multiplied coordinate to the same mix.
    let k1 = cell_key_1d(10, 3);
    assert_eq!(cell_key_2d(10, 20, 3), k1.wrapping_add(20u32.wrapping_mul(4433105)));
    let k2 = cell_key_2d(10, 20, 3);
    assert_eq!(cell_key_3d(10, 20, 30, 3), k2.wrapping_add(30u32.wrapping_mul(6876199)));
    let k3 = cell_key_3d(10, 20, 30, 3);
    assert_eq!(cell_key_4d(10, 20, 30, 40, 3), k3.wrapping_add(40u32.wrapping_mul(9968761)));
}

#[test]
fn stepped_cell_key_matches_offset_corner() {
    // The filtered kernels' corner keys: stepping a coordinate by one cell
    // shifts the key by that coordinate's multiplier.
    let base = cell_key_2d(100, 200, 5);
    assert_eq!(cell_key_2d(101, 200, 5), base.wrapping_add(3290387));
    assert_eq!(cell_key_2d(100, 201, 5), base.wrapping_add(4433105));
}
