//! Cellular (Worley) noise: per-cell seeds and Poisson point counts.
//!
//! Each lattice cell of the cellular kernel owns a pseudo-random point
//! process. The cell's integer coordinates and the caller's seed are folded
//! into a 32-bit cell seed by two (or three) large odd multipliers in
//! wrapping 64-bit arithmetic; the seed's top byte indexes
//! [`POISSON_COUNT`], the precomputed inverse distribution table giving how
//! many feature points the cell holds, never more than eight
//! ([`lemma_poisson_counts_bounded`]). Each point then draws its coordinate
//! offsets from the uniform generator under keys strided sixteen apart, so
//! no two points of a cell share a draw ([`point_draw_key`]). Measuring
//! floating-point distances to those points is the callers' business.

use vstd::prelude::*;

verus! {

/// Feature-point count per top byte of a cell seed: the discretized inverse
/// distribution of a Poisson point count with fixed mean.
pub const POISSON_COUNT: [u8; 256] = [
    1, 0, 2, 5, 5, 5, 2, 2, 3, 5, 3, 0, 2, 3, 3, 2, 2, 3, 3, 1, 0, 3, 2, 1, 4, 4, 3, 2, 2, 3, 1, 1,
    3, 8, 2, 3, 2, 3, 2, 4, 2, 4, 2, 4, 3, 3, 3, 2, 3, 0, 0, 5, 1, 1, 1, 2, 3, 0, 2, 3, 5, 1, 4, 1,
    3, 3, 2, 2, 6, 6, 1, 2, 4, 4, 5, 1, 3, 2, 2, 4, 1, 2, 1, 3, 2, 1, 2, 1, 4, 3, 5, 4, 1, 2, 0, 1,
    2, 2, 0, 1, 4, 3, 2, 2, 1, 3, 3, 3, 4, 4, 1, 3, 3, 3, 3, 4, 1, 3, 2, 2, 2, 2, 1, 3, 5, 2, 5, 5,
    2, 3, 0, 3, 3, 4, 1, 3, 3, 1, 0, 1, 2, 1, 4, 2, 3, 3, 2, 6, 1, 2, 0, 1, 1, 1, 3, 4, 0, 2, 3, 2,
    1, 1, 1, 3, 5, 1, 5, 2, 0, 2, 0, 2, 1, 3, 3, 3, 1, 3, 3, 2, 1, 1, 3, 1, 1, 0, 0, 2, 2, 2, 7, 2,
    2, 0, 8, 2, 1, 3, 3, 1, 3, 4, 4, 0, 2, 6, 3, 6, 2, 2, 4, 3, 4, 2, 3, 2, 3, 3, 3, 3, 2, 3, 4, 1,
    2, 2, 4, 4, 5, 6, 2, 6, 3, 1, 5, 0, 3, 3, 2, 5, 0, 4, 2, 1, 2, 6, 0, 3, 1, 1, 1, 3, 3, 2, 2, 2,
];

/// Every entry of the count table lies in `[0, 8]`: no cell ever holds more
/// than eight feature points.
pub proof fn lemma_poisson_counts_bounded()
    ensures
        forall|i: int| 0 <= i < 256 ==> #[trigger] POISSON_COUNT[i] <= 8,
{
    assert(forall|i: int| 0 <= i < 256 ==> #[trigger] POISSON_COUNT[i] <= 8);
}

/// The 32-bit seed of the two-dimensional cell at `(ix, iy)` under `seed`.
pub open spec fn cell_seed_2d_spec(ix: i32, iy: i32, seed: u32) -> u32 {
    (702395077u64.wrapping_mul(ix as u64).wrapping_add(
        915488749u64.wrapping_mul(iy as u64),
    ).wrapping_add(seed as u64)) as u32
}

/// Folds a two-dimensional cell's integer coordinates and the caller's seed
/// into the cell's point-process seed.
pub fn cell_seed_2d(ix: i32, iy: i32, seed: u32) -> (r: u32)
    ensures
        r == cell_seed_2d_spec(ix, iy, seed),
{
    #[verifier::truncate]
    let r: u32 = (702395077u64.wrapping_mul(
        #[verifier::truncate] (ix as u64),
    ).wrapping_add(915488749u64.wrapping_mul(#[verifier::truncate] (iy as u64))).wrapping_add(
        seed as u64,
    )) as u32;
    r
}

/// The 32-bit seed of the three-dimensional cell at `(ix, iy, iz)` under
/// `seed`.
pub open spec fn cell_seed_3d_spec(ix: i32, iy: i32, iz: i32, seed: u32) -> u32 {
    (702395077u64.wrapping_mul(ix as u64).wrapping_add(
        915488749u64.wrapping_mul(iy as u64),
    ).wrapping_add(2120969693u64.wrapping_mul(iz as u64)).wrapping_add(seed as u64)) as u32
}

/// Folds a three-dimensional cell's integer coordinates and the caller's
/// seed into the cell's point-process seed.
pub fn cell_seed_3d(ix: i32, iy: i32, iz: i32, seed: u32) -> (r: u32)
    ensures
        r == cell_seed_3d_spec(ix, iy, iz, seed),
{
    #[verifier::truncate]
    let r: u32 = (702395077u64.wrapping_mul(
        #[verifier::truncate] (ix as u64),
    ).wrapping_add(915488749u64.wrapping_mul(#[verifier::truncate] (iy as u64))).wrapping_add(
        2120969693u64.wrapping_mul(#[verifier::truncate] (iz as u64)),
    ).wrapping_add(seed as u64)) as u32;
    r
}

/// How many feature points the cell with seed `cell_seed` holds: the count
/// table entry under the seed's top byte, at most eight.
pub fn poisson_count_at(cell_seed: u32) -> (n: u8)
    ensures
        n == POISSON_COUNT[(cell_seed >> 24) as int],
        n <= 8,
{
    proof {
        assert((cell_seed >> 24) < 256) by (bit_vector);
        lemma_poisson_counts_bounded();
    }
    POISSON_COUNT[(cell_seed >> 24) as usize]
}

/// The generator key of one coordinate draw of one feature point: point
/// slots are strided sixteen keys apart within the cell's key block, so the
/// two or three draws of a point, and the draws of distinct points, never
/// share a key.
pub fn point_draw_key(cell_seed: u32, point: u8, axis: u8) -> (r: u32)
    requires
        point < 8,
        axis < 3,
    ensures
        r == cell_seed.wrapping_add((point * 16 + axis) as u32),
{
    cell_seed.wrapping_add(point as u32 * 16 + axis as u32)
}

/// No two draws of a cell share a generator key: distinct (point, axis)
/// slots give distinct keys, because the slot offsets `16 * point + axis`
/// are distinct values below 128 added to one base in wrapping arithmetic.
pub proof fn lemma_point_draw_keys_distinct(cell_seed: u32, p1: u8, a1: u8, p2: u8, a2: u8)
    requires
        p1 < 8,
        a1 < 3,
        p2 < 8,
        a2 < 3,
        p1 != p2 || a1 != a2,
    ensures
        cell_seed.wrapping_add((p1 * 16 + a1) as u32) != cell_seed.wrapping_add(
            (p2 * 16 + a2) as u32,
        ),
{
    assert(p1 * 16 + a1 != p2 * 16 + a2);
}

} // verus!
