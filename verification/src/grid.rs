//! Row-major grid traversal and its lane-stride decomposition.
//!
//! A grid request is served by streaming samples into a flat buffer, x
//! varying fastest.  The inner dimension is advanced a lane at a time with a
//! single-sample remainder tail, and the functions here pin down the
//! bookkeeping: the buffer position of every grid point, the order in which
//! points are visited, and the fact that the columns a row's strides cover
//! are the same whatever the lane width.

use vstd::arithmetic::div_mod::lemma_fundamental_div_mod;
use vstd::arithmetic::mul::lemma_mul_inequality;
use vstd::arithmetic::mul::lemma_mul_is_distributive_add_other_way;
use vstd::prelude::*;

verus! {

/// Flat buffer position of grid point (x, y) in a row-major grid of the
/// given width: x varies fastest.
pub open spec fn row_major_2d(x: int, y: int, width: int) -> int {
    y * width + x
}

/// Flat buffer position of grid point (x, y, z) in a row-major grid of the
/// given width and height: x varies fastest, then y, then z.
pub open spec fn row_major_3d(x: int, y: int, z: int, width: int, height: int) -> int {
    (z * height + y) * width + x
}

/// Buffer position of a 2-D grid point.
pub fn buffer_index_2d(x: usize, y: usize, width: usize) -> (n: usize)
    requires
        x < width,
        y * width + x <= usize::MAX,
    ensures
        n == row_major_2d(x as int, y as int, width as int),
{
    y * width + x
}

/// Buffer position of a 3-D grid point.
pub fn buffer_index_3d(x: usize, y: usize, z: usize, width: usize, height: usize) -> (n: usize)
    requires
        x < width,
        y < height,
        (z * height + y) * width + x <= usize::MAX,
    ensures
        n == row_major_3d(x as int, y as int, z as int, width as int, height as int),
{
    proof {
        lemma_mul_inequality(1, width as int, z as int * height as int + y as int);
    }
    (z * height + y) * width + x
}

/// Traversal order of a width x height grid: one (column, row) pair per
/// sample, row-major, so the pair at flat position n is the grid point whose
/// buffer position is n.  A zero-sized grid yields an empty order.
pub fn traversal_2d(width: usize, height: usize) -> (order: Vec<(usize, usize)>)
    requires
        width * height <= usize::MAX,
    ensures
        order@.len() == width * height,
        forall|n: int|
            0 <= n < order@.len() ==> (#[trigger] order@[n]).0 < width && order@[n].1 < height
                && row_major_2d(order@[n].0 as int, order@[n].1 as int, width as int) == n,
{
    let mut order: Vec<(usize, usize)> = Vec::new();
    let mut y: usize = 0;
    while y < height
        invariant
            y <= height,
            order@.len() == y * width,
            forall|n: int|
                0 <= n < order@.len() ==> (#[trigger] order@[n]).0 < width && order@[n].1 < height
                    && row_major_2d(order@[n].0 as int, order@[n].1 as int, width as int) == n,
        decreases height - y,
    {
        let mut x: usize = 0;
        while x < width
            invariant
                x <= width,
                y < height,
                order@.len() == y * width + x,
                forall|n: int|
                    0 <= n < order@.len() ==> (#[trigger] order@[n]).0 < width && order@[n].1
                        < height && row_major_2d(
                        order@[n].0 as int,
                        order@[n].1 as int,
                        width as int,
                    ) == n,
            decreases width - x,
        {
            order.push((x, y));
            x = x + 1;
        }
        proof {
            lemma_mul_is_distributive_add_other_way(width as int, y as int, 1);
        }
        y = y + 1;
    }
    proof {
        assert(height as int * width as int == width as int * height as int) by (nonlinear_arith);
    }
    order
}

/// Traversal order of a width x height x depth grid: one (column, row, slice)
/// triple per sample, row-major, so the triple at flat position n is the grid
/// point whose buffer position is n.
pub fn traversal_3d(width: usize, height: usize, depth: usize) -> (order: Vec<
    (usize, usize, usize),
>)
    requires
        width * height * depth <= usize::MAX,
    ensures
        order@.len() == width * height * depth,
        forall|n: int|
            0 <= n < order@.len() ==> (#[trigger] order@[n]).0 < width && order@[n].1 < height
                && order@[n].2 < depth && row_major_3d(
                order@[n].0 as int,
                order@[n].1 as int,
                order@[n].2 as int,
                width as int,
                height as int,
            ) == n,
{
    let mut order: Vec<(usize, usize, usize)> = Vec::new();
    let mut z: usize = 0;
    while z < depth
        invariant
            z <= depth,
            order@.len() == (z * height) * width,
            forall|n: int|
                0 <= n < order@.len() ==> (#[trigger] order@[n]).0 < width && order@[n].1 < height
                    && order@[n].2 < depth && row_major_3d(
                    order@[n].0 as int,
                    order@[n].1 as int,
                    order@[n].2 as int,
                    width as int,
                    height as int,
                ) == n,
        decreases depth - z,
    {
        let mut y: usize = 0;
        while y < height
            invariant
                y <= height,
                z < depth,
                order@.len() == (z * height + y) * width,
                forall|n: int|
                    0 <= n < order@.len() ==> (#[trigger] order@[n]).0 < width && order@[n].1
                        < height && order@[n].2 < depth && row_major_3d(
                        order@[n].0 as int,
                        order@[n].1 as int,
                        order@[n].2 as int,
                        width as int,
                        height as int,
                    ) == n,
            decreases height - y,
        {
            let mut x: usize = 0;
            while x < width
                invariant
                    x <= width,
                    y < height,
                    z < depth,
                    order@.len() == (z * height + y) * width + x,
                    forall|n: int|
                        0 <= n < order@.len() ==> (#[trigger] order@[n]).0 < width && order@[n].1
                            < height && order@[n].2 < depth && row_major_3d(
                            order@[n].0 as int,
                            order@[n].1 as int,
                            order@[n].2 as int,
                            width as int,
                            height as int,
                        ) == n,
                decreases width - x,
            {
                order.push((x, y, z));
                x = x + 1;
            }
            proof {
                lemma_mul_is_distributive_add_other_way(
                    width as int,
                    z as int * height as int + y as int,
                    1,
                );
            }
            y = y + 1;
        }
        proof {
            lemma_mul_is_distributive_add_other_way(height as int, z as int, 1);
        }
        z = z + 1;
    }
    proof {
        assert((depth as int * height as int) * width as int == width as int * height as int
            * depth as int) by (nonlinear_arith);
    }
    order
}

/// No sample is skipped or duplicated in a 2-D traversal: any order with the
/// contract of `traversal_2d` holds each grid point (x, y) at position
/// y * width + x and nowhere else.
pub proof fn lemma_traversal_2d_complete(
    order: Seq<(usize, usize)>,
    width: usize,
    height: usize,
    x: usize,
    y: usize,
)
    requires
        order.len() == width * height,
        forall|n: int|
            0 <= n < order.len() ==> (#[trigger] order[n]).0 < width && order[n].1 < height
                && row_major_2d(order[n].0 as int, order[n].1 as int, width as int) == n,
        x < width,
        y < height,
    ensures
        0 <= row_major_2d(x as int, y as int, width as int) < order.len(),
        order[row_major_2d(x as int, y as int, width as int)] == (x, y),
        forall|n: int|
            0 <= n < order.len() && #[trigger] order[n] == (x, y) ==> n == row_major_2d(
                x as int,
                y as int,
                width as int,
            ),
{
    let n0 = row_major_2d(x as int, y as int, width as int);
    assert(0 <= n0 < width * height) by (nonlinear_arith)
        requires
            n0 == y * width + x,
            x < width,
            y < height,
    ;
    let p = order[n0];
    assert(p.0 == x && p.1 == y) by (nonlinear_arith)
        requires
            p.1 * width + p.0 == y * width + x,
            p.0 < width,
            x < width,
            0 <= p.1,
            0 <= y,
            0 <= p.0,
            0 <= x,
    ;
}

/// No sample is skipped or duplicated in a 3-D traversal: any order with the
/// contract of `traversal_3d` holds each grid point (x, y, z) at position
/// (z * height + y) * width + x and nowhere else.
pub proof fn lemma_traversal_3d_complete(
    order: Seq<(usize, usize, usize)>,
    width: usize,
    height: usize,
    depth: usize,
    x: usize,
    y: usize,
    z: usize,
)
    requires
        order.len() == width * height * depth,
        forall|n: int|
            0 <= n < order.len() ==> (#[trigger] order[n]).0 < width && order[n].1 < height
                && order[n].2 < depth && row_major_3d(
                order[n].0 as int,
                order[n].1 as int,
                order[n].2 as int,
                width as int,
                height as int,
            ) == n,
        x < width,
        y < height,
        z < depth,
    ensures
        0 <= row_major_3d(x as int, y as int, z as int, width as int, height as int) < order.len(),
        order[row_major_3d(x as int, y as int, z as int, width as int, height as int)] == (x, y, z),
        forall|n: int|
            0 <= n < order.len() && #[trigger] order[n] == (x, y, z) ==> n == row_major_3d(
                x as int,
                y as int,
                z as int,
                width as int,
                height as int,
            ),
{
    let n0 = row_major_3d(x as int, y as int, z as int, width as int, height as int);
    assert(0 <= n0 < width * height * depth) by (nonlinear_arith)
        requires
            n0 == (z * height + y) * width + x,
            x < width,
            y < height,
            z < depth,
    ;
    let p = order[n0];
    assert(p.0 == x && p.1 == y && p.2 == z) by (nonlinear_arith)
        requires
            (p.2 * height + p.1) * width + p.0 == (z * height + y) * width + x,
            p.0 < width,
            p.1 < height,
            x < width,
            y < height,
            0 <= p.0,
            0 <= p.1,
            0 <= p.2,
            0 <= x,
            0 <= y,
            0 <= z,
    ;
}

/// How one grid row of the given width is covered at a lane width: some
/// number of whole strides of `lane` samples each, then a remainder tail of
/// fewer than `lane` single samples — together exactly the row.
pub fn stride_breakdown(width: usize, lane: usize) -> (s: (usize, usize))
    requires
        1 <= lane,
    ensures
        s.0 == width as int / lane as int,
        s.1 == width as int % lane as int,
        s.0 * lane + s.1 == width,
        s.1 < lane,
{
    proof {
        lemma_fundamental_div_mod(width as int, lane as int);
        assert(lane as int * (width as int / lane as int) == (width as int / lane as int) * lane
            as int) by (nonlinear_arith);
    }
    (width / lane, width % lane)
}

/// The columns of one grid row in evaluation order at a given lane width:
/// whole lane-sized strides first, then the remainder tail one column at a
/// time.  Position c always holds column c, whatever the lane width, so the
/// coordinate evaluated into a buffer position never depends on the lane
/// width that produced it.
pub fn lane_columns(width: usize, lane: usize) -> (cols: Vec<usize>)
    requires
        1 <= lane,
    ensures
        cols@.len() == width,
        forall|c: int| 0 <= c < width ==> #[trigger] cols@[c] == c,
{
    let full: usize = width / lane;
    proof {
        lemma_fundamental_div_mod(width as int, lane as int);
        assert(lane as int * (width as int / lane as int) == (width as int / lane as int) * lane
            as int) by (nonlinear_arith);
    }
    let mut cols: Vec<usize> = Vec::new();
    let mut s: usize = 0;
    while s < full
        invariant
            1 <= lane,
            s <= full,
            full * lane <= width,
            cols@.len() == s * lane,
            forall|c: int| 0 <= c < cols@.len() ==> #[trigger] cols@[c] == c,
        decreases full - s,
    {
        proof {
            lemma_mul_inequality(s as int + 1, full as int, lane as int);
            lemma_mul_is_distributive_add_other_way(lane as int, s as int, 1);
        }
        let base: usize = s * lane;
        let mut k: usize = 0;
        while k < lane
            invariant
                k <= lane,
                base + lane <= width,
                base == s * lane,
                cols@.len() == base + k,
                forall|c: int| 0 <= c < cols@.len() ==> #[trigger] cols@[c] == c,
            decreases lane - k,
        {
            cols.push(base + k);
            k = k + 1;
        }
        s = s + 1;
    }
    let mut c: usize = cols.len();
    while c < width
        invariant
            cols@.len() == c,
            c <= width,
            forall|i: int| 0 <= i < cols@.len() ==> #[trigger] cols@[i] == i,
        decreases width - c,
    {
        cols.push(c);
        c = c + 1;
    }
    cols
}

} // verus!
