use procnoise::simplex::{simplex_code_4d, simplex_corner_offsets_4d, simplex_order_3d, SIMPLEX};

#[test]
fn order_3d_all_cascade_cases() {
    // Largest fractional coordinate rises first, then the next.
    assert_eq!(simplex_order_3d(true, true, true), ((1, 0, 0), (1, 1, 0)));
    assert_eq!(simplex_order_3d(true, true, false), ((1, 0, 0), (1, 1, 0)));
    assert_eq!(simplex_order_3d(true, false, true), ((1, 0, 0), (1, 0, 1)));
    assert_eq!(simplex_order_3d(true, false, false), ((0, 0, 1), (1, 0, 1)));
    assert_eq!(simplex_order_3d(false, false, false), ((0, 0, 1), (0, 1, 1)));
    assert_eq!(simplex_order_3d(false, false, true), ((0, 0, 1), (0, 1, 1)));
    assert_eq!(simplex_order_3d(false, true, false), ((0, 1, 0), (0, 1, 1)));
    assert_eq!(simplex_order_3d(false, true, true), ((0, 1, 0), (1, 1, 0)));
}

#[test]
fn order_3d_walk_is_sound() {
    for bits in 0u8..8 {
        let (c1, c2) = simplex_order_3d(bits & 4 != 0, bits & 2 != 0, bits & 1 != 0);
        assert_eq!(c1.0 + c1.1 + c1.2, 1);
        assert_eq!(c2.0 + c2.1 + c2.2, 2);
        assert!(c1.0 <= c2.0 && c1.1 <= c2.1 && c1.2 <= c2.2);
    }
}

#[test]
fn code_4d_packs_comparison_bits() {
    assert_eq!(simplex_code_4d(false, false, false, false, false, false), 0);
    assert_eq!(simplex_code_4d(true, true, true, true, true, true), 63);
    assert_eq!(simplex_code_4d(true, false, true, false, true, false), 42);
    assert_eq!(simplex_code_4d(false, true, false, true, false, true), 21);
}

#[test]
fn corner_offsets_4d_read_the_table() {
    for c in 0..64 {
        for step in 1..4 {
            let r = simplex_corner_offsets_4d(c, step);
            let expect = |axis: usize| u8::from(SIMPLEX[c][axis] as usize >= 4 - step);
            assert_eq!(r, (expect(0), expect(1), expect(2), expect(3)));
        }
    }
}

#[test]
fn corner_offsets_4d_walk_is_sound_on_ranked_rows() {
    for c in 0..64 {
        let row = SIMPLEX[c];
        let distinct = row[0] != row[1]
            && row[0] != row[2]
            && row[0] != row[3]
            && row[1] != row[2]
            && row[1] != row[3]
            && row[2] != row[3];
        if !(distinct && row.iter().all(|&r| r < 4)) {
            continue;
        }
        let mut prev = (0, 0, 0, 0);
        for step in 1..4 {
            let r = simplex_corner_offsets_4d(c, step);
            assert_eq!(u32::from(r.0 + r.1 + r.2 + r.3), step as u32);
            assert!(prev.0 <= r.0 && prev.1 <= r.1 && prev.2 <= r.2 && prev.3 <= r.3);
            prev = r;
        }
    }
}
