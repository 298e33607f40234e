//! The shared lattice permutation table and the hash chains built on it.
//!
//! [`NOISE_PERM`] holds a fixed arrangement of the values `0..=255`,
//! duplicated to 512 entries so that every chained lookup `table[table[i] + j]`
//! with `i < 512` and `j <= 256` stays in bounds without masking between
//! steps (the entries are bytes, so `table[i] + j <= 255 + 256 < 512`).
//! [`lemma_perm_table_duplicated`] pins the duplication down.
//!
//! The gradient kernels hash a lattice corner by offsetting each integer
//! coordinate with a seed-chosen table entry, folding it into `[0, 256)`, and
//! chaining lookups, one per axis. The functions here compute those hashes
//! and nothing else; blending the gradients they select is the callers'
//! floating-point business.

use vstd::prelude::*;

verus! {

/// Permutation of `0..=255`, laid out twice over 512 entries.
pub const NOISE_PERM: [u8; 512] = [
    215, 164, 31, 51, 68, 144, 111, 227, 147, 241, 249, 207, 26, 113, 109, 36,
    140, 226, 83, 37, 158, 143, 27, 145, 177, 40, 53, 170, 20, 25, 138, 206,
    55, 222, 77, 1, 23, 42, 197, 174, 169, 0, 132, 136, 86, 98, 242, 160,
    75, 218, 54, 120, 202, 126, 61, 231, 41, 119, 214, 50, 18, 172, 21, 203,
    59, 205, 219, 34, 70, 49, 156, 29, 129, 10, 115, 245, 216, 32, 190, 67,
    57, 240, 8, 95, 151, 189, 228, 102, 246, 125, 38, 212, 234, 43, 24, 139,
    171, 103, 200, 196, 150, 194, 71, 97, 161, 105, 157, 73, 5, 199, 233, 225,
    148, 191, 85, 159, 121, 130, 162, 116, 60, 166, 195, 142, 220, 39, 88, 210,
    87, 137, 146, 100, 3, 154, 186, 19, 165, 52, 175, 35, 180, 141, 99, 106,
    9, 78, 149, 223, 244, 182, 47, 173, 237, 22, 56, 183, 110, 79, 64, 123,
    209, 76, 250, 236, 124, 178, 16, 185, 184, 181, 211, 255, 248, 66, 7, 224,
    81, 153, 91, 15, 193, 187, 239, 28, 213, 84, 254, 12, 243, 232, 2, 96,
    134, 179, 176, 235, 74, 89, 229, 238, 33, 93, 82, 45, 94, 107, 152, 127,
    72, 108, 247, 128, 44, 90, 6, 117, 168, 131, 80, 17, 65, 253, 30, 198,
    201, 4, 192, 204, 221, 133, 112, 188, 118, 13, 92, 14, 217, 251, 58, 101,
    114, 11, 69, 208, 122, 48, 63, 135, 155, 230, 163, 252, 46, 62, 167, 104,
    215, 164, 31, 51, 68, 144, 111, 227, 147, 241, 249, 207, 26, 113, 109, 36,
    140, 226, 83, 37, 158, 143, 27, 145, 177, 40, 53, 170, 20, 25, 138, 206,
    55, 222, 77, 1, 23, 42, 197, 174, 169, 0, 132, 136, 86, 98, 242, 160,
    75, 218, 54, 120, 202, 126, 61, 231, 41, 119, 214, 50, 18, 172, 21, 203,
    59, 205, 219, 34, 70, 49, 156, 29, 129, 10, 115, 245, 216, 32, 190, 67,
    57, 240, 8, 95, 151, 189, 228, 102, 246, 125, 38, 212, 234, 43, 24, 139,
    171, 103, 200, 196, 150, 194, 71, 97, 161, 105, 157, 73, 5, 199, 233, 225,
    148, 191, 85, 159, 121, 130, 162, 116, 60, 166, 195, 142, 220, 39, 88, 210,
    87, 137, 146, 100, 3, 154, 186, 19, 165, 52, 175, 35, 180, 141, 99, 106,
    9, 78, 149, 223, 244, 182, 47, 173, 237, 22, 56, 183, 110, 79, 64, 123,
    209, 76, 250, 236, 124, 178, 16, 185, 184, 181, 211, 255, 248, 66, 7, 224,
    81, 153, 91, 15, 193, 187, 239, 28, 213, 84, 254, 12, 243, 232, 2, 96,
    134, 179, 176, 235, 74, 89, 229, 238, 33, 93, 82, 45, 94, 107, 152, 127,
    72, 108, 247, 128, 44, 90, 6, 117, 168, 131, 80, 17, 65, 253, 30, 198,
    201, 4, 192, 204, 221, 133, 112, 188, 118, 13, 92, 14, 217, 251, 58, 101,
    114, 11, 69, 208, 122, 48, 63, 135, 155, 230, 163, 252, 46, 62, 167, 104,
];

/// The entries repeat with period 256: each second-half entry equals its
/// first-half counterpart, so a chained lookup may run past index 255 and
/// still read the same permutation.
pub proof fn lemma_perm_table_duplicated()
    ensures
        forall|i: int| 0 <= i < 256 ==> #[trigger] NOISE_PERM[i + 256] == NOISE_PERM[i],
{
    assert(forall|i: int|
        0 <= i < 256 ==> #[trigger] NOISE_PERM[i + 256] == NOISE_PERM[i]);
}

/// A lattice coordinate offset by a table entry and folded into `[0, 256)`,
/// in wrapping 32-bit arithmetic: the corner index the permutation table is
/// entered with.
pub open spec fn folded_corner(cell: i32, entry: u8) -> i32 {
    cell.wrapping_add(entry as i32) & 255
}

/// Offsets a pair of lattice-cell coordinates by the two consecutive table
/// entries the seed selects, and folds each into `[0, 256)`.
pub fn lattice_offsets_2d(ix: i32, iy: i32, seed: u32) -> (r: (usize, usize))
    ensures
        r.0 == folded_corner(ix, NOISE_PERM[(seed & 255) as int]),
        r.1 == folded_corner(iy, NOISE_PERM[(seed & 255) + 1]),
        r.0 < 256,
        r.1 < 256,
{
    let s: usize = (seed & 255) as usize;
    proof {
        assert((seed & 255) < 256) by (bit_vector);
    }
    let ox: i32 = ix.wrapping_add(NOISE_PERM[s] as i32) & 255;
    let oy: i32 = iy.wrapping_add(NOISE_PERM[s + 1] as i32) & 255;
    proof {
        assert(forall|v: i32| 0 <= #[trigger] (v & 255) < 256) by (bit_vector);
    }
    (ox as usize, oy as usize)
}

/// Offsets three lattice-cell coordinates by the three consecutive table
/// entries the seed selects, and folds each into `[0, 256)`.
pub fn lattice_offsets_3d(ix: i32, iy: i32, iz: i32, seed: u32) -> (r: (usize, usize, usize))
    ensures
        r.0 == folded_corner(ix, NOISE_PERM[(seed & 255) as int]),
        r.1 == folded_corner(iy, NOISE_PERM[(seed & 255) + 1]),
        r.2 == folded_corner(iz, NOISE_PERM[(seed & 255) + 2]),
        r.0 < 256,
        r.1 < 256,
        r.2 < 256,
{
    let s: usize = (seed & 255) as usize;
    proof {
        assert((seed & 255) < 256) by (bit_vector);
    }
    let ox: i32 = ix.wrapping_add(NOISE_PERM[s] as i32) & 255;
    let oy: i32 = iy.wrapping_add(NOISE_PERM[s + 1] as i32) & 255;
    let oz: i32 = iz.wrapping_add(NOISE_PERM[s + 2] as i32) & 255;
    proof {
        assert(forall|v: i32| 0 <= #[trigger] (v & 255) < 256) by (bit_vector);
    }
    (ox as usize, oy as usize, oz as usize)
}

/// Offsets four lattice-cell coordinates by the four consecutive table
/// entries the seed selects, and folds each into `[0, 256)`.
pub fn lattice_offsets_4d(ix: i32, iy: i32, iz: i32, it: i32, seed: u32) -> (r: (
    usize,
    usize,
    usize,
    usize,
))
    ensures
        r.0 == folded_corner(ix, NOISE_PERM[(seed & 255) as int]),
        r.1 == folded_corner(iy, NOISE_PERM[(seed & 255) + 1]),
        r.2 == folded_corner(iz, NOISE_PERM[(seed & 255) + 2]),
        r.3 == folded_corner(it, NOISE_PERM[(seed & 255) + 3]),
        r.0 < 256,
        r.1 < 256,
        r.2 < 256,
        r.3 < 256,
{
    let s: usize = (seed & 255) as usize;
    proof {
        assert((seed & 255) < 256) by (bit_vector);
    }
    let ox: i32 = ix.wrapping_add(NOISE_PERM[s] as i32) & 255;
    let oy: i32 = iy.wrapping_add(NOISE_PERM[s + 1] as i32) & 255;
    let oz: i32 = iz.wrapping_add(NOISE_PERM[s + 2] as i32) & 255;
    let ot: i32 = it.wrapping_add(NOISE_PERM[s + 3] as i32) & 255;
    proof {
        assert(forall|v: i32| 0 <= #[trigger] (v & 255) < 256) by (bit_vector);
    }
    (ox as usize, oy as usize, oz as usize, ot as usize)
}

/// The hash a two-axis lattice corner selects its gradient by: a chained
/// permutation lookup masked to three bits.
pub open spec fn grad2_hash_spec(ix: int, iy: int) -> u8 {
    NOISE_PERM[NOISE_PERM[ix] + iy] & 7
}

/// Chained two-axis corner hash; the three-bit result picks the corner's
/// gradient (axis swap and signs). The callers' folded corner coordinates
/// keep every lookup of the chain inside the doubled table, which is what
/// the preconditions state.
pub fn grad2_hash(ix: usize, iy: usize) -> (h: u8)
    requires
        ix < 512,
        NOISE_PERM[ix as int] + iy < 512,
    ensures
        h == grad2_hash_spec(ix as int, iy as int),
        h < 8,
{
    let h: u8 = NOISE_PERM[NOISE_PERM[ix] as usize + iy] & 7;
    proof {
        assert(forall|v: u8| #[trigger] (v & 7) < 8) by (bit_vector);
    }
    h
}

/// The hash a three-axis lattice corner selects its gradient by: a chained
/// permutation lookup masked to four bits.
pub open spec fn grad3_hash_spec(ix: int, iy: int, iz: int) -> u8 {
    NOISE_PERM[NOISE_PERM[NOISE_PERM[ix] + iy] + iz] & 15
}

/// Chained three-axis corner hash; the four-bit result picks the corner's
/// gradient.
pub fn grad3_hash(ix: usize, iy: usize, iz: usize) -> (h: u8)
    requires
        ix < 512,
        NOISE_PERM[ix as int] + iy < 512,
        NOISE_PERM[NOISE_PERM[ix as int] + iy] + iz < 512,
    ensures
        h == grad3_hash_spec(ix as int, iy as int, iz as int),
        h < 16,
{
    let h: u8 = NOISE_PERM[NOISE_PERM[NOISE_PERM[ix] as usize + iy] as usize + iz] & 15;
    proof {
        assert(forall|v: u8| #[trigger] (v & 15) < 16) by (bit_vector);
    }
    h
}

/// The hash a four-axis lattice corner selects its gradient by: a chained
/// permutation lookup, all eight bits kept.
pub open spec fn grad4_hash_spec(ix: int, iy: int, iz: int, it: int) -> u8 {
    NOISE_PERM[NOISE_PERM[NOISE_PERM[NOISE_PERM[ix] + iy] + iz] + it]
}

/// Chained four-axis corner hash; pairs of bits in the result pick which
/// axes contribute and with which sign.
pub fn grad4_hash(ix: usize, iy: usize, iz: usize, it: usize) -> (h: u8)
    requires
        ix < 512,
        NOISE_PERM[ix as int] + iy < 512,
        NOISE_PERM[NOISE_PERM[ix as int] + iy] + iz < 512,
        NOISE_PERM[NOISE_PERM[NOISE_PERM[ix as int] + iy] + iz] + it < 512,
    ensures
        h == grad4_hash_spec(ix as int, iy as int, iz as int, it as int),
{
    NOISE_PERM[NOISE_PERM[NOISE_PERM[NOISE_PERM[ix] as usize + iy] as usize + iz] as usize + it]
}

/// Division by 256 that truncates toward zero, as the machine division the
/// one-axis kernel applies to a possibly negative corner index does.
pub open spec fn trunc_div_256(a: i32) -> i32 {
    (if a >= 0 {
        a as int / 256
    } else {
        -((-(a as int)) / 256)
    }) as i32
}

/// The pair of four-bit gradient hashes of the one-axis kernel for the cell
/// `cell` under `seed`: the seed-offset corner index is split into a low
/// byte (entry index) and a folded upper part (second-level offset), and the
/// two adjacent entries are chain-hashed.
pub open spec fn corner_hashes_1d_spec(cell: i32, seed: u32) -> (u8, u8) {
    let ix = cell.wrapping_add(NOISE_PERM[(seed & 255) as int] as i32);
    let ixp1 = (ix & 255) as int;
    let ixp2 = (trunc_div_256(ix) & 255) as int;
    (
        NOISE_PERM[NOISE_PERM[ixp1] + ixp2] & 15,
        NOISE_PERM[NOISE_PERM[ixp1 + 1] + ixp2] & 15,
    )
}

/// The two gradient hashes the one-axis kernels blend: one for the cell's
/// own corner, one for the next corner over.
pub fn corner_hashes_1d(cell: i32, seed: u32) -> (r: (u8, u8))
    ensures
        r == corner_hashes_1d_spec(cell, seed),
        r.0 < 16,
        r.1 < 16,
{
    let s: usize = (seed & 255) as usize;
    proof {
        assert((seed & 255) < 256) by (bit_vector);
    }
    let ix: i32 = cell.wrapping_add(NOISE_PERM[s] as i32);
    let ixp1: usize = (ix & 255) as usize;
    let q: i32 = ix / 256;
    let ixp2: usize = (q & 255) as usize;
    proof {
        assert(forall|v: i32| 0 <= #[trigger] (v & 255) < 256) by (bit_vector);
        assert(q == trunc_div_256(ix));
    }
    let h1: u8 = NOISE_PERM[NOISE_PERM[ixp1] as usize + ixp2] & 15;
    let h2: u8 = NOISE_PERM[NOISE_PERM[ixp1 + 1] as usize + ixp2] & 15;
    proof {
        assert(forall|v: u8| #[trigger] (v & 15) < 16) by (bit_vector);
    }
    (h1, h2)
}

/// The first half of the table is injective: no value repeats among the
/// entries `0..256`, so distinct corner indices enter distinct permutation
/// phases.
#[verifier::rlimit(100)]
#[verifier::spinoff_prover]
pub proof fn lemma_perm_table_injective()
    ensures
        forall|i: int, j: int|
            0 <= i < 256 && 0 <= j < 256 && i != j ==> #[trigger] NOISE_PERM[i]
                != #[trigger] NOISE_PERM[j],
{
    assert(forall|i: int, j: int|
        0 <= i < 256 && 0 <= j < 256 && i != j ==> #[trigger] NOISE_PERM[i]
            != #[trigger] NOISE_PERM[j]);
}

/// Every chained lookup stays inside the doubled table: an entry is a byte,
/// so adding a folded corner coordinate (at most 256) to it keeps the next
/// index under 512. Together with the folding of the corner coordinates,
/// this is why no gradient hash chain can index out of range.
pub proof fn lemma_hash_chain_in_bounds(i: int, j: int)
    requires
        0 <= i < 512,
        0 <= j <= 256,
    ensures
        NOISE_PERM[i] + j < 512,
{
}

} // verus!
