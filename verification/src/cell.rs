//! Simplex corner traversal order from pairwise offset comparisons.
//!
//! After skewing, a point's fractional offsets from its cell origin decide in
//! which order the cell's corners are visited: the traversal steps one lattice
//! axis at a time, largest offset first.  All comparisons are
//! greater-than-or-equal, so exact ties favour the earlier axis.

use vstd::prelude::*;

verus! {

/// Lattice steps from a 2-D simplex cell's origin to its middle corner: one
/// step along x when the offset satisfies x >= y (ties favour x), one step
/// along y otherwise.
pub open spec fn corner_order_2d_spec(x_ge_y: bool) -> (u8, u8) {
    if x_ge_y {
        (1u8, 0u8)
    } else {
        (0u8, 1u8)
    }
}

/// Middle-corner steps (i1, j1) of a 2-D simplex cell, from the single
/// comparison of the fractional offsets.  Exactly one axis is stepped.
pub fn corner_order_2d(x_ge_y: bool) -> (o: (u8, u8))
    ensures
        o == corner_order_2d_spec(x_ge_y),
        o.0 + o.1 == 1,
{
    if x_ge_y {
        (1, 0)
    } else {
        (0, 1)
    }
}

/// Lattice steps from a 3-D simplex cell's origin to its second corner
/// (i1, j1, k1) and to its third corner (i2, j2, k2); each step is 0 or 1.
#[derive(Clone, Copy, Debug, PartialEq, Eq, Structural)]
pub struct CornerOrder3 {
    pub i1: u8,
    pub j1: u8,
    pub k1: u8,
    pub i2: u8,
    pub j2: u8,
    pub k2: u8,
}

/// Corner traversal order of a 3-D simplex cell from the three pairwise
/// comparisons of the fractional offsets, with ties favouring the earlier
/// axis.  The six orderings map to steps as follows:
///
/// ```text
/// x >= y >= z  ->  100 then 110        y > x, y >= z  ->  010 then 110
/// x > z > y    ->  100 then 101        y > z > x      ->  010 then 011
/// z > x >= y   ->  001 then 101        z > y > x      ->  001 then 011
/// ```
pub open spec fn corner_order_3d_spec(x_ge_y: bool, x_ge_z: bool, y_ge_z: bool) -> CornerOrder3 {
    CornerOrder3 {
        i1: if x_ge_y && x_ge_z {
            1
        } else {
            0
        },
        j1: if !x_ge_y && y_ge_z {
            1
        } else {
            0
        },
        k1: if !x_ge_z && !y_ge_z {
            1
        } else {
            0
        },
        i2: if x_ge_y || x_ge_z {
            1
        } else {
            0
        },
        j2: if !x_ge_y || y_ge_z {
            1
        } else {
            0
        },
        k2: if !x_ge_z || !y_ge_z {
            1
        } else {
            0
        },
    }
}

/// Corner traversal order of a 3-D simplex cell.  The body accumulates each
/// third-corner step as "already stepped, or this axis beats exactly one of
/// the other two", the branch-free form the lane kernels use; the contract
/// pins it to the direct description in `corner_order_3d_spec`.
pub fn corner_order_3d(x_ge_y: bool, x_ge_z: bool, y_ge_z: bool) -> (o: CornerOrder3)
    ensures
        o == corner_order_3d_spec(x_ge_y, x_ge_z, y_ge_z),
{
    let i1: u8 = if x_ge_y && x_ge_z {
        1
    } else {
        0
    };
    let j1: u8 = if !x_ge_y && y_ge_z {
        1
    } else {
        0
    };
    let k1: u8 = if !x_ge_z && !y_ge_z {
        1
    } else {
        0
    };
    let i2: u8 = if i1 == 1 || (x_ge_y && !x_ge_z) || (x_ge_z && !x_ge_y) {
        1
    } else {
        0
    };
    let j2: u8 = if j1 == 1 || (!x_ge_y && !y_ge_z) || (y_ge_z && x_ge_y) {
        1
    } else {
        0
    };
    let k2: u8 = if k1 == 1 || (!y_ge_z && x_ge_z) || (!x_ge_z && y_ge_z) {
        1
    } else {
        0
    };
    CornerOrder3 { i1, j1, k1, i2, j2, k2 }
}

/// Comparison bits that arise from actually ordering three offsets are
/// transitively consistent: x >= y >= z forces x >= z, and y > x with z > y
/// forces z > x.  Under that consistency the traversal steps exactly one axis
/// to reach the second corner and exactly two to reach the third, and never
/// retracts a step it has taken.
pub proof fn lemma_corner_order_3d_steps(x_ge_y: bool, x_ge_z: bool, y_ge_z: bool)
    requires
        x_ge_y && y_ge_z ==> x_ge_z,
        !x_ge_y && !y_ge_z ==> !x_ge_z,
    ensures
        ({
            let o = corner_order_3d_spec(x_ge_y, x_ge_z, y_ge_z);
            &&& o.i1 + o.j1 + o.k1 == 1
            &&& o.i2 + o.j2 + o.k2 == 2
            &&& o.i1 <= o.i2
            &&& o.j1 <= o.j2
            &&& o.k1 <= o.k2
        }),
{
}

} // verus!
