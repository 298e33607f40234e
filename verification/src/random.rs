//! Cell keys of the uncorrelated value-noise kernels.
//!
//! Value noise draws one scalar per lattice cell from the uniform generator.
//! The cell's key mixes each integer coordinate with its own large odd
//! multiplier and adds the caller's seed, all in wrapping 32-bit arithmetic,
//! so neighbouring cells land on unrelated keys. The filtered variants blend
//! the draws of the `2^N` surrounding cells; each corner's key is the same
//! mix taken at the stepped coordinates, which these functions cover by
//! taking the corner's cell coordinates directly.

use vstd::prelude::*;

verus! {

/// Multiplier of the first coordinate in a cell key.
pub const CELL_MUL_X: u32 = 3290387;

/// Multiplier of the second coordinate in a cell key.
pub const CELL_MUL_Y: u32 = 4433105;

/// Multiplier of the third coordinate in a cell key.
pub const CELL_MUL_Z: u32 = 6876199;

/// Multiplier of the fourth coordinate in a cell key.
pub const CELL_MUL_T: u32 = 9968761;

/// The generator key of the one-dimensional cell at `xi` under `seed`.
pub open spec fn cell_key_1d_spec(xi: u32, seed: u32) -> u32 {
    xi.wrapping_mul(CELL_MUL_X).wrapping_add(seed)
}

/// Mixes a one-dimensional cell coordinate and the seed into the cell's
/// generator key.
pub fn cell_key_1d(xi: u32, seed: u32) -> (r: u32)
    ensures
        r == cell_key_1d_spec(xi, seed),
{
    xi.wrapping_mul(CELL_MUL_X).wrapping_add(seed)
}

/// The generator key of the two-dimensional cell at `(xi, yi)` under `seed`.
pub open spec fn cell_key_2d_spec(xi: u32, yi: u32, seed: u32) -> u32 {
    xi.wrapping_mul(CELL_MUL_X).wrapping_add(yi.wrapping_mul(CELL_MUL_Y)).wrapping_add(seed)
}

/// Mixes a two-dimensional cell's coordinates and the seed into the cell's
/// generator key.
pub fn cell_key_2d(xi: u32, yi: u32, seed: u32) -> (r: u32)
    ensures
        r == cell_key_2d_spec(xi, yi, seed),
{
    xi.wrapping_mul(CELL_MUL_X).wrapping_add(yi.wrapping_mul(CELL_MUL_Y)).wrapping_add(seed)
}

/// The generator key of the three-dimensional cell at `(xi, yi, zi)` under
/// `seed`.
pub open spec fn cell_key_3d_spec(xi: u32, yi: u32, zi: u32, seed: u32) -> u32 {
    xi.wrapping_mul(CELL_MUL_X).wrapping_add(yi.wrapping_mul(CELL_MUL_Y)).wrapping_add(
        zi.wrapping_mul(CELL_MUL_Z),
    ).wrapping_add(seed)
}

/// Mixes a three-dimensional cell's coordinates and the seed into the cell's
/// generator key.
pub fn cell_key_3d(xi: u32, yi: u32, zi: u32, seed: u32) -> (r: u32)
    ensures
        r == cell_key_3d_spec(xi, yi, zi, seed),
{
    xi.wrapping_mul(CELL_MUL_X).wrapping_add(yi.wrapping_mul(CELL_MUL_Y)).wrapping_add(
        zi.wrapping_mul(CELL_MUL_Z),
    ).wrapping_add(seed)
}

/// The generator key of the four-dimensional cell at `(xi, yi, zi, ti)`
/// under `seed`.
pub open spec fn cell_key_4d_spec(xi: u32, yi: u32, zi: u32, ti: u32, seed: u32) -> u32 {
    xi.wrapping_mul(CELL_MUL_X).wrapping_add(yi.wrapping_mul(CELL_MUL_Y)).wrapping_add(
        zi.wrapping_mul(CELL_MUL_Z),
    ).wrapping_add(ti.wrapping_mul(CELL_MUL_T)).wrapping_add(seed)
}

/// Mixes a four-dimensional cell's coordinates and the seed into the cell's
/// generator key.
pub fn cell_key_4d(xi: u32, yi: u32, zi: u32, ti: u32, seed: u32) -> (r: u32)
    ensures
        r == cell_key_4d_spec(xi, yi, zi, ti, seed),
{
    xi.wrapping_mul(CELL_MUL_X).wrapping_add(yi.wrapping_mul(CELL_MUL_Y)).wrapping_add(
        zi.wrapping_mul(CELL_MUL_Z),
    ).wrapping_add(ti.wrapping_mul(CELL_MUL_T)).wrapping_add(seed)
}

} // verus!
