//! Simplex traversal orders: which lattice corner a simplex walk visits when.
//!
//! A simplex kernel visits the `N + 1` corners of the simplex containing the
//! sample, starting at the base corner and raising one axis offset per step
//! until all are one. Which axis rises first is decided by comparing the
//! fractional coordinates. In three dimensions a six-way comparison cascade
//! decides; in four, the six pairwise comparisons form a code into the
//! 64-row [`SIMPLEX`] table, whose rows rank the axes (rows whose code no
//! ordering produces are left as all-zero sentinels). The functions here
//! compute the decisions; the floating-point corner contributions are the
//! callers' business.
//!
//! [`lemma_order_rows_traverse`] proves the table rows sound: every row that
//! ranks the axes distinctly yields a walk that raises exactly one axis per
//! step and never lowers one.

use vstd::prelude::*;

verus! {

/// Axis ranks for each 6-bit comparison code: row entries give, per axis
/// (x, y, z, t), how many of that axis's three pairwise tests it won, so the
/// largest coordinate ranks 3 and the smallest 0.
/// Codes that no consistent ordering of four values produces hold `[0, 0, 0, 0]`.
pub const SIMPLEX: [[u8; 4]; 64] = [
    [0, 1, 2, 3],
    [0, 1, 3, 2],
    [0, 0, 0, 0],
    [0, 2, 3, 1],
    [0, 0, 0, 0],
    [0, 0, 0, 0],
    [0, 0, 0, 0],
    [1, 2, 3, 0],
    [0, 2, 1, 3],
    [0, 0, 0, 0],
    [0, 3, 1, 2],
    [0, 3, 2, 1],
    [0, 0, 0, 0],
    [0, 0, 0, 0],
    [0, 0, 0, 0],
    [1, 3, 2, 0],
    [0, 0, 0, 0],
    [0, 0, 0, 0],
    [0, 0, 0, 0],
    [0, 0, 0, 0],
    [0, 0, 0, 0],
    [0, 0, 0, 0],
    [0, 0, 0, 0],
    [0, 0, 0, 0],
    [1, 2, 0, 3],
    [0, 0, 0, 0],
    [1, 3, 0, 2],
    [0, 0, 0, 0],
    [0, 0, 0, 0],
    [0, 0, 0, 0],
    [2, 3, 0, 1],
    [2, 3, 1, 0],
    [1, 0, 2, 3],
    [1, 0, 3, 2],
    [0, 0, 0, 0],
    [0, 0, 0, 0],
    [0, 0, 0, 0],
    [2, 0, 3, 1],
    [0, 0, 0, 0],
    [2, 1, 3, 0],
    [0, 0, 0, 0],
    [0, 0, 0, 0],
    [0, 0, 0, 0],
    [0, 0, 0, 0],
    [0, 0, 0, 0],
    [0, 0, 0, 0],
    [0, 0, 0, 0],
    [0, 0, 0, 0],
    [2, 0, 1, 3],
    [0, 0, 0, 0],
    [0, 0, 0, 0],
    [0, 0, 0, 0],
    [3, 0, 1, 2],
    [3, 0, 2, 1],
    [0, 0, 0, 0],
    [3, 1, 2, 0],
    [2, 1, 0, 3],
    [0, 0, 0, 0],
    [0, 0, 0, 0],
    [0, 0, 0, 0],
    [3, 1, 0, 2],
    [0, 0, 0, 0],
    [3, 2, 0, 1],
    [3, 2, 1, 0],
];

/// Corner offsets of the second and third vertex of the simplex walk in
/// three dimensions, given the three pairwise comparisons of the fractional
/// coordinates: per axis 0 or 1, largest coordinate first.
pub open spec fn order_3d_spec(x_ge_y: bool, y_ge_z: bool, x_ge_z: bool) -> (
    (u8, u8, u8),
    (u8, u8, u8),
) {
    if x_ge_y {
        if y_ge_z {
            ((1, 0, 0), (1, 1, 0))
        } else if x_ge_z {
            ((1, 0, 0), (1, 0, 1))
        } else {
            ((0, 0, 1), (1, 0, 1))
        }
    } else {
        if !y_ge_z {
            ((0, 0, 1), (0, 1, 1))
        } else if !x_ge_z {
            ((0, 1, 0), (0, 1, 1))
        } else {
            ((0, 1, 0), (1, 1, 0))
        }
    }
}

/// The second and third corner of the three-dimensional simplex walk, from
/// the pairwise comparisons of the sample's fractional coordinates. The walk
/// is sound whatever the flags: the second corner raises exactly one axis,
/// the third exactly two, and no axis is lowered between them.
pub fn simplex_order_3d(x_ge_y: bool, y_ge_z: bool, x_ge_z: bool) -> (r: (
    (u8, u8, u8),
    (u8, u8, u8),
))
    ensures
        r == order_3d_spec(x_ge_y, y_ge_z, x_ge_z),
        r.0.0 + r.0.1 + r.0.2 == 1,
        r.1.0 + r.1.1 + r.1.2 == 2,
        r.0.0 <= r.1.0 <= 1,
        r.0.1 <= r.1.1 <= 1,
        r.0.2 <= r.1.2 <= 1,
{
    if x_ge_y {
        if y_ge_z {
            ((1, 0, 0), (1, 1, 0))
        } else if x_ge_z {
            ((1, 0, 0), (1, 0, 1))
        } else {
            ((0, 0, 1), (1, 0, 1))
        }
    } else {
        if !y_ge_z {
            ((0, 0, 1), (0, 1, 1))
        } else if !x_ge_z {
            ((0, 1, 0), (0, 1, 1))
        } else {
            ((0, 1, 0), (1, 1, 0))
        }
    }
}

/// The comparison code of the four-dimensional walk: one bit per pairwise
/// test, x-against-y highest.
pub open spec fn code_4d_spec(
    x_gt_y: bool,
    x_gt_z: bool,
    y_gt_z: bool,
    x_gt_t: bool,
    y_gt_t: bool,
    z_gt_t: bool,
) -> int {
    (if x_gt_y { 32int } else { 0int }) + (if x_gt_z { 16int } else { 0int }) + (if y_gt_z {
        8int
    } else {
        0int
    }) + (if x_gt_t { 4int } else { 0int }) + (if y_gt_t { 2int } else { 0int }) + (if z_gt_t {
        1int
    } else {
        0int
    })
}

/// Packs the six pairwise comparisons of the fractional coordinates into the
/// [`SIMPLEX`] row index.
pub fn simplex_code_4d(
    x_gt_y: bool,
    x_gt_z: bool,
    y_gt_z: bool,
    x_gt_t: bool,
    y_gt_t: bool,
    z_gt_t: bool,
) -> (c: usize)
    ensures
        c == code_4d_spec(x_gt_y, x_gt_z, y_gt_z, x_gt_t, y_gt_t, z_gt_t),
        c < 64,
{
    (if x_gt_y { 32 } else { 0 }) + (if x_gt_z { 16 } else { 0 }) + (if y_gt_z { 8 } else { 0 })
        + (if x_gt_t { 4 } else { 0 }) + (if y_gt_t { 2 } else { 0 }) + (if z_gt_t {
        1
    } else {
        0
    })
}

/// Whether an axis whose rank is `rank` is already raised at step `step` of
/// the walk: the `step`-th corner raises the `step` highest-ranked axes.
pub open spec fn raised_at(rank: u8, step: int) -> u8 {
    if rank >= 4 - step {
        1u8
    } else {
        0u8
    }
}

/// The corner offsets of the `step`-th intermediate vertex of the
/// four-dimensional simplex walk, read off the [`SIMPLEX`] row for code `c`.
pub fn simplex_corner_offsets_4d(c: usize, step: usize) -> (r: (u8, u8, u8, u8))
    requires
        c < 64,
        1 <= step <= 3,
    ensures
        r.0 == raised_at(SIMPLEX[c as int][0], step as int),
        r.1 == raised_at(SIMPLEX[c as int][1], step as int),
        r.2 == raised_at(SIMPLEX[c as int][2], step as int),
        r.3 == raised_at(SIMPLEX[c as int][3], step as int),
        r.0 <= 1 && r.1 <= 1 && r.2 <= 1 && r.3 <= 1,
{
    let row: [u8; 4] = SIMPLEX[c];
    (
        if row[0] as usize >= 4 - step { 1 } else { 0 },
        if row[1] as usize >= 4 - step { 1 } else { 0 },
        if row[2] as usize >= 4 - step { 1 } else { 0 },
        if row[3] as usize >= 4 - step { 1 } else { 0 },
    )
}

/// Whether row `c` ranks the four axes distinctly with ranks `0..=3`: the
/// codes an actual ordering of four fractional coordinates produces.
pub open spec fn row_ranks_axes(c: int) -> bool {
    let row = SIMPLEX[c];
    row[0] < 4 && row[1] < 4 && row[2] < 4 && row[3] < 4 && row[0] != row[1] && row[0] != row[2]
        && row[0] != row[3] && row[1] != row[2] && row[1] != row[3] && row[2] != row[3]
}

/// Soundness of the order table: on every row that ranks the axes
/// distinctly, step `s` of the walk has exactly `s` axes raised, and an axis
/// once raised stays raised. Sentinel rows are excluded; no comparison code
/// reaches them.
pub proof fn lemma_order_rows_traverse()
    ensures
        forall|c: int, s: int|
            #![trigger raised_at(SIMPLEX[c][0], s)]
            0 <= c < 64 && row_ranks_axes(c) && 1 <= s <= 3 ==> raised_at(SIMPLEX[c][0], s)
                + raised_at(SIMPLEX[c][1], s) + raised_at(SIMPLEX[c][2], s) + raised_at(
                SIMPLEX[c][3],
                s,
            ) == s,
        forall|c: int, s: int, axis: int|
            0 <= c < 64 && 1 <= s <= 2 && 0 <= axis < 4 ==> #[trigger] raised_at(
                SIMPLEX[c][axis],
                s,
            ) <= raised_at(SIMPLEX[c][axis], s + 1),
{
    assert forall|c: int, s: int|
        0 <= c < 64 && row_ranks_axes(c) && 1 <= s <= 3 implies raised_at(SIMPLEX[c][0], s)
        + raised_at(SIMPLEX[c][1], s) + raised_at(SIMPLEX[c][2], s) + raised_at(
        SIMPLEX[c][3],
        s,
    ) == s by {
        let row = SIMPLEX[c];
        assert(row[0] < 4 && row[1] < 4 && row[2] < 4 && row[3] < 4);
    }
}

} // verus!
