//! Gradient-direction selection from the low bits of a hashed index.
//!
//! The noise kernel dots each corner's fractional offset with one of a small
//! fixed set of gradient directions.  Which direction is used depends only on
//! the low 3 bits (2-D) or 4 bits (3-D) of the corner's gradient index, and
//! the directions have small integer components, so the selection itself is
//! exact integer logic.

use vstd::prelude::*;

verus! {

/// X component of the 2-D gradient direction picked by the low 3 bits of a
/// gradient index: indices 0..4 give a (±1, ±2) direction and indices 4..8 a
/// (±2, ±1) direction, bit 0 flipping the unit component's sign and bit 1 the
/// doubled component's sign.
pub open spec fn grad_2d_x_spec(g: u8) -> int {
    let h: u8 = g & 7;
    if h < 4 {
        if h & 1 == 0 {
            1
        } else {
            -1
        }
    } else {
        if h & 2 == 0 {
            2
        } else {
            -2
        }
    }
}

/// Y component of the 2-D gradient direction picked by the low 3 bits of a
/// gradient index; see `grad_2d_x_spec`.
pub open spec fn grad_2d_y_spec(g: u8) -> int {
    let h: u8 = g & 7;
    if h < 4 {
        if h & 2 == 0 {
            2
        } else {
            -2
        }
    } else {
        if h & 1 == 0 {
            1
        } else {
            -1
        }
    }
}

/// The 2-D gradient direction for a gradient index.  Every direction has
/// squared length 5, so corner contributions scale uniformly.
pub fn gradient_2d(g: u8) -> (v: (i8, i8))
    ensures
        v.0 as int == grad_2d_x_spec(g),
        v.1 as int == grad_2d_y_spec(g),
        v.0 * v.0 + v.1 * v.1 == 5,
{
    let h: u8 = g & 7;
    let unit: i8 = if h & 1 == 0 {
        1
    } else {
        -1
    };
    let doubled: i8 = if h & 2 == 0 {
        2
    } else {
        -2
    };
    proof {
        assert(unit * unit == 1) by (nonlinear_arith)
            requires
                unit == 1i8 || unit == -1i8,
        ;
        assert(doubled * doubled == 4) by (nonlinear_arith)
            requires
                doubled == 2i8 || doubled == -2i8,
        ;
    }
    if h < 4 {
        (unit, doubled)
    } else {
        (doubled, unit)
    }
}

/// The 3-D gradient direction picked by the low 4 bits of a gradient index,
/// as a triple of components.  The first operand is x for indices below 8 and
/// y otherwise; the second is y below 4, x for 12 and 14, and z otherwise;
/// bits 0 and 1 flip the first and second operand's signs.  Every direction
/// is an edge of the unit cube: two components of magnitude 1, one zero.
pub open spec fn grad_3d_spec(g: u8) -> (int, int, int) {
    let h: u8 = g & 15;
    let s1: int = if h & 1 == 0 {
        1
    } else {
        -1
    };
    let s2: int = if h & 2 == 0 {
        1
    } else {
        -1
    };
    (
        (if h < 8 {
            s1
        } else {
            0
        }) + (if h == 12 || h == 14 {
            s2
        } else {
            0
        }),
        (if h >= 8 {
            s1
        } else {
            0
        }) + (if h < 4 {
            s2
        } else {
            0
        }),
        if h >= 4 && h != 12 && h != 14 {
            s2
        } else {
            0
        },
    )
}

/// The 3-D gradient direction for a gradient index.  Every direction has
/// squared length 2.
pub fn gradient_3d(g: u8) -> (v: (i8, i8, i8))
    ensures
        v.0 as int == grad_3d_spec(g).0,
        v.1 as int == grad_3d_spec(g).1,
        v.2 as int == grad_3d_spec(g).2,
        v.0 * v.0 + v.1 * v.1 + v.2 * v.2 == 2,
{
    let h: u8 = g & 15;
    let s1: i8 = if h & 1 == 0 {
        1
    } else {
        -1
    };
    let s2: i8 = if h & 2 == 0 {
        1
    } else {
        -1
    };
    proof {
        assert(s1 * s1 == 1) by (nonlinear_arith)
            requires
                s1 == 1i8 || s1 == -1i8,
        ;
        assert(s2 * s2 == 1) by (nonlinear_arith)
            requires
                s2 == 1i8 || s2 == -1i8,
        ;
        assert(0i8 * 0i8 == 0) by (nonlinear_arith);
    }
    if h < 4 {
        (s1, s2, 0)
    } else if h < 8 {
        (s1, 0, s2)
    } else if h == 12 || h == 14 {
        (s2, s1, 0)
    } else {
        (0, s1, s2)
    }
}

} // verus!
