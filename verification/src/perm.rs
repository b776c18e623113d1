//! The gradient permutation table and its chained-lookup hashing.
//!
//! Integer lattice coordinates, folded to the range 0..256, are mixed into a
//! pseudo-random gradient index by nested lookups in a fixed permutation
//! table.  The table holds one permutation of the bytes 0..=255 written out
//! twice, so that the nested lookups below never index past the end even when
//! the inner lookup contributes its largest value.

use crate::cell::CornerOrder3;
use vstd::prelude::*;

verus! {

/// Number of distinct lattice cells per axis before the gradient pattern repeats.
pub const LATTICE_PERIOD: usize = 256;

/// The classic permutation of 0..=255, doubled for wraparound-free chained lookups.
pub const PERM: [u8; 512] = [
    151, 160, 137, 91, 90, 15, 131, 13, 201, 95, 96, 53, 194, 233, 7, 225,
    140, 36, 103, 30, 69, 142, 8, 99, 37, 240, 21, 10, 23, 190, 6, 148,
    247, 120, 234, 75, 0, 26, 197, 62, 94, 252, 219, 203, 117, 35, 11, 32,
    57, 177, 33, 88, 237, 149, 56, 87, 174, 20, 125, 136, 171, 168, 68, 175,
    74, 165, 71, 134, 139, 48, 27, 166, 77, 146, 158, 231, 83, 111, 229, 122,
    60, 211, 133, 230, 220, 105, 92, 41, 55, 46, 245, 40, 244, 102, 143, 54,
    65, 25, 63, 161, 1, 216, 80, 73, 209, 76, 132, 187, 208, 89, 18, 169,
    200, 196, 135, 130, 116, 188, 159, 86, 164, 100, 109, 198, 173, 186, 3, 64,
    52, 217, 226, 250, 124, 123, 5, 202, 38, 147, 118, 126, 255, 82, 85, 212,
    207, 206, 59, 227, 47, 16, 58, 17, 182, 189, 28, 42, 223, 183, 170, 213,
    119, 248, 152, 2, 44, 154, 163, 70, 221, 153, 101, 155, 167, 43, 172, 9,
    129, 22, 39, 253, 19, 98, 108, 110, 79, 113, 224, 232, 178, 185, 112, 104,
    218, 246, 97, 228, 251, 34, 242, 193, 238, 210, 144, 12, 191, 179, 162, 241,
    81, 51, 145, 235, 249, 14, 239, 107, 49, 192, 214, 31, 181, 199, 106, 157,
    184, 84, 204, 176, 115, 121, 50, 45, 127, 4, 150, 254, 138, 236, 205, 93,
    222, 114, 67, 29, 24, 72, 243, 141, 128, 195, 78, 66, 215, 61, 156, 180,
    151, 160, 137, 91, 90, 15, 131, 13, 201, 95, 96, 53, 194, 233, 7, 225,
    140, 36, 103, 30, 69, 142, 8, 99, 37, 240, 21, 10, 23, 190, 6, 148,
    247, 120, 234, 75, 0, 26, 197, 62, 94, 252, 219, 203, 117, 35, 11, 32,
    57, 177, 33, 88, 237, 149, 56, 87, 174, 20, 125, 136, 171, 168, 68, 175,
    74, 165, 71, 134, 139, 48, 27, 166, 77, 146, 158, 231, 83, 111, 229, 122,
    60, 211, 133, 230, 220, 105, 92, 41, 55, 46, 245, 40, 244, 102, 143, 54,
    65, 25, 63, 161, 1, 216, 80, 73, 209, 76, 132, 187, 208, 89, 18, 169,
    200, 196, 135, 130, 116, 188, 159, 86, 164, 100, 109, 198, 173, 186, 3, 64,
    52, 217, 226, 250, 124, 123, 5, 202, 38, 147, 118, 126, 255, 82, 85, 212,
    207, 206, 59, 227, 47, 16, 58, 17, 182, 189, 28, 42, 223, 183, 170, 213,
    119, 248, 152, 2, 44, 154, 163, 70, 221, 153, 101, 155, 167, 43, 172, 9,
    129, 22, 39, 253, 19, 98, 108, 110, 79, 113, 224, 232, 178, 185, 112, 104,
    218, 246, 97, 228, 251, 34, 242, 193, 238, 210, 144, 12, 191, 179, 162, 241,
    81, 51, 145, 235, 249, 14, 239, 107, 49, 192, 214, 31, 181, 199, 106, 157,
    184, 84, 204, 176, 115, 121, 50, 45, 127, 4, 150, 254, 138, 236, 205, 93,
    222, 114, 67, 29, 24, 72, 243, 141, 128, 195, 78, 66, 215, 61, 156, 180,
];

/// Chained-permutation mixing for a 2-D lattice point: the gradient index of
/// the cell at folded coordinates (i, j) is `PERM[i + PERM[j]]`.
pub open spec fn hash_2d_spec(i: int, j: int) -> u8
    recommends
        0 <= i < LATTICE_PERIOD,
        0 <= j < LATTICE_PERIOD,
{
    PERM[i + PERM[j] as int]
}

/// Chained-permutation mixing for a 3-D lattice point: the gradient index of
/// the cell at folded coordinates (i, j, k) is `PERM[i + PERM[j + PERM[k]]]`.
pub open spec fn hash_3d_spec(i: int, j: int, k: int) -> u8
    recommends
        0 <= i < LATTICE_PERIOD,
        0 <= j < LATTICE_PERIOD,
        0 <= k < LATTICE_PERIOD,
{
    PERM[i + PERM[j + PERM[k] as int] as int]
}

/// Gradient index of the 2-D lattice cell at folded coordinates (i, j).
pub fn hash_2d(i: u8, j: u8) -> (g: u8)
    ensures
        g == hash_2d_spec(i as int, j as int),
{
    PERM[(i as usize) + (PERM[j as usize] as usize)]
}

/// Gradient index of the 3-D lattice cell at folded coordinates (i, j, k).
pub fn hash_3d(i: u8, j: u8, k: u8) -> (g: u8)
    ensures
        g == hash_3d_spec(i as int, j as int, k as int),
{
    PERM[(i as usize) + (PERM[(j as usize) + (PERM[k as usize] as usize)] as usize)]
}

/// Folds an integer lattice coordinate into 0..256, the table's period.  An
/// out-of-range coordinate is a normalization, never an error, and negative
/// coordinates fold the same way as in two's-complement low-byte masking.
pub fn fold_lattice_coord(c: i32) -> (f: u8)
    ensures
        f as int == (c as int) % (LATTICE_PERIOD as int),
{
    let shifted: u64 = ((c as i64) + 0x8000_0000) as u64;
    proof {
        // The shift that makes the coordinate nonnegative is a multiple of
        // the period, so it changes nothing modulo 256.
        vstd::arithmetic::div_mod::lemma_mod_multiples_vanish(0x80_0000, c as int, 256);
    }
    (shifted % 256) as u8
}

/// Gradient indices of the three corners of a 2-D simplex cell with folded
/// origin (ii, jj) and middle-corner steps (i1, j1): the origin, the origin
/// plus the middle step, and the origin plus one step on both axes.  The
/// doubled table absorbs the +1 steps, so nothing is refolded.
pub fn corner_hashes_2d(ii: u8, jj: u8, i1: u8, j1: u8) -> (g: (u8, u8, u8))
    requires
        i1 <= 1,
        j1 <= 1,
    ensures
        g.0 == hash_2d_spec(ii as int, jj as int),
        g.1 == PERM[ii + i1 + PERM[jj + j1] as int],
        g.2 == PERM[ii + 1 + PERM[jj + 1] as int],
{
    let g0: u8 = PERM[(ii as usize) + (PERM[jj as usize] as usize)];
    let g1: u8 = PERM[(ii as usize) + (i1 as usize) + (PERM[(jj as usize) + (j1 as usize)] as usize)];
    let g2: u8 = PERM[(ii as usize) + 1 + (PERM[(jj as usize) + 1] as usize)];
    (g0, g1, g2)
}

/// Gradient indices of the four corners of a 3-D simplex cell with folded
/// origin (ii, jj, kk) and traversal order `o`: the origin, the origin plus
/// the second-corner steps, plus the third-corner steps, and plus one step on
/// every axis.
pub fn corner_hashes_3d(ii: u8, jj: u8, kk: u8, o: CornerOrder3) -> (g: (u8, u8, u8, u8))
    requires
        o.i1 <= 1,
        o.j1 <= 1,
        o.k1 <= 1,
        o.i2 <= 1,
        o.j2 <= 1,
        o.k2 <= 1,
    ensures
        g.0 == hash_3d_spec(ii as int, jj as int, kk as int),
        g.1 == PERM[ii + o.i1 + PERM[jj + o.j1 + PERM[kk + o.k1] as int] as int],
        g.2 == PERM[ii + o.i2 + PERM[jj + o.j2 + PERM[kk + o.k2] as int] as int],
        g.3 == PERM[ii + 1 + PERM[jj + 1 + PERM[kk + 1] as int] as int],
{
    let g0: u8 = PERM[(ii as usize) + (PERM[(jj as usize) + (PERM[kk as usize] as usize)] as usize)];
    let g1: u8 = PERM[(ii as usize) + (o.i1 as usize) + (PERM[(jj as usize) + (o.j1 as usize) + (PERM[(kk
        as usize) + (o.k1 as usize)] as usize)] as usize)];
    let g2: u8 = PERM[(ii as usize) + (o.i2 as usize) + (PERM[(jj as usize) + (o.j2 as usize) + (PERM[(kk
        as usize) + (o.k2 as usize)] as usize)] as usize)];
    let g3: u8 = PERM[(ii as usize) + 1 + (PERM[(jj as usize) + 1 + (PERM[(kk as usize) + 1] as usize)]
        as usize)];
    (g0, g1, g2, g3)
}

} // verus!
