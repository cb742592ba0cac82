use crate::block::Column;
use crate::galois::{gf_mul, has_table, lemma_gf_mul_distributes};
use crate::tables::{INV_MIX_MATRIX, MIX_MATRIX};
use vstd::prelude::*;

verus! {

/// A 4x4 matrix of bytes, row by row.
pub type Matrix = [[u8; 4]; 4];

/// One entry of a matrix-vector product over GF(2^8): a matrix row times a
/// column, the four products summed with XOR.
pub open spec fn dot(row: [u8; 4], c: Column) -> u8 {
    gf_mul(row[0], c[0]) ^ gf_mul(row[1], c[1]) ^ gf_mul(row[2], c[2]) ^ gf_mul(row[3], c[3])
}

/// The product of a 4x4 matrix and a column over GF(2^8).
pub open spec fn mat_vec(m: Matrix, c: Column) -> Column {
    [dot(m[0], c), dot(m[1], c), dot(m[2], c), dot(m[3], c)]
}

/// The XOR of the first `n` products of a matrix row with a column.
pub open spec fn partial_dot(row: [u8; 4], c: Column, n: int) -> u8
    decreases n,
{
    if n <= 0 {
        0
    } else {
        partial_dot(row, c, n - 1) ^ gf_mul(row[n - 1], c[n - 1])
    }
}

/// Whether every entry of a matrix is 1 or has a multiplication table.
pub open spec fn entries_supported(m: Matrix) -> bool {
    forall|i: int, k: int|
        0 <= i < 4 && 0 <= k < 4 ==> m[i][k] == 1 || has_table(#[trigger] m[i][k])
}

/// Summing all four products gives the matrix-vector entry.
pub proof fn lemma_partial_dot_full(row: [u8; 4], c: Column)
    ensures
        partial_dot(row, c, 4) == dot(row, c),
{
    reveal_with_fuel(partial_dot, 5);
    let g = gf_mul(row[0], c[0]);
    assert(0u8 ^ g == g) by (bit_vector);
}

/// The two diffusion matrices undo each other on every column, in either
/// order.
pub proof fn lemma_mat_vec_inverse(c: Column)
    ensures
        mat_vec(INV_MIX_MATRIX, mat_vec(MIX_MATRIX, c)) == c,
        mat_vec(MIX_MATRIX, mat_vec(INV_MIX_MATRIX, c)) == c,
{
    lemma_dot_inverse(0, c);
    lemma_dot_inverse(1, c);
    lemma_dot_inverse(2, c);
    lemma_dot_inverse(3, c);
    assert(mat_vec(INV_MIX_MATRIX, mat_vec(MIX_MATRIX, c)) =~= c);
    assert(mat_vec(MIX_MATRIX, mat_vec(INV_MIX_MATRIX, c)) =~= c);
}

/// Multiplication in GF(2^8) distributes over the XOR of four bytes.
proof fn lemma_gf_mul_distributes_4(a: u8, w: u8, x: u8, y: u8, z: u8)
    ensures
        gf_mul(a, w ^ x ^ y ^ z) == gf_mul(a, w) ^ gf_mul(a, x) ^ gf_mul(a, y) ^ gf_mul(a, z),
{
    lemma_gf_mul_distributes(a, w ^ x ^ y, z);
    lemma_gf_mul_distributes(a, w ^ x, y);
    lemma_gf_mul_distributes(a, w, x);
}

/// What a byte contributes to one entry of a product of two matrices: the
/// row `(a, b, c, d)` of the left matrix against the column `(p, q, r, s)` of
/// the right one, applied to `x`.
spec fn entry(a: u8, b: u8, c: u8, d: u8, p: u8, q: u8, r: u8, s: u8, x: u8) -> u8 {
    gf_mul(a, gf_mul(p, x)) ^ gf_mul(b, gf_mul(q, x)) ^ gf_mul(c, gf_mul(r, x)) ^ gf_mul(
        d,
        gf_mul(s, x),
    )
}

/// The inverse diffusion matrix times the forward one is the identity
/// matrix: on the diagonal a byte comes back, off it zero comes out.
proof fn lemma_inverse_times_forward(x: u8)
    by (bit_vector)
    ensures
        entry(14, 11, 13, 9, 2, 1, 1, 3, x) == x,
        entry(14, 11, 13, 9, 3, 2, 1, 1, x) == 0,
        entry(14, 11, 13, 9, 1, 3, 2, 1, x) == 0,
        entry(14, 11, 13, 9, 1, 1, 3, 2, x) == 0,
        entry(9, 14, 11, 13, 2, 1, 1, 3, x) == 0,
        entry(9, 14, 11, 13, 3, 2, 1, 1, x) == x,
        entry(9, 14, 11, 13, 1, 3, 2, 1, x) == 0,
        entry(9, 14, 11, 13, 1, 1, 3, 2, x) == 0,
        entry(13, 9, 14, 11, 2, 1, 1, 3, x) == 0,
        entry(13, 9, 14, 11, 3, 2, 1, 1, x) == 0,
        entry(13, 9, 14, 11, 1, 3, 2, 1, x) == x,
        entry(13, 9, 14, 11, 1, 1, 3, 2, x) == 0,
        entry(11, 13, 9, 14, 2, 1, 1, 3, x) == 0,
        entry(11, 13, 9, 14, 3, 2, 1, 1, x) == 0,
        entry(11, 13, 9, 14, 1, 3, 2, 1, x) == 0,
        entry(11, 13, 9, 14, 1, 1, 3, 2, x) == x,
{
}

/// The forward diffusion matrix times the inverse one is the identity
/// matrix as well.
proof fn lemma_forward_times_inverse(x: u8)
    by (bit_vector)
    ensures
        entry(2, 3, 1, 1, 14, 9, 13, 11, x) == x,
        entry(2, 3, 1, 1, 11, 14, 9, 13, x) == 0,
        entry(2, 3, 1, 1, 13, 11, 14, 9, x) == 0,
        entry(2, 3, 1, 1, 9, 13, 11, 14, x) == 0,
        entry(1, 2, 3, 1, 14, 9, 13, 11, x) == 0,
        entry(1, 2, 3, 1, 11, 14, 9, 13, x) == x,
        entry(1, 2, 3, 1, 13, 11, 14, 9, x) == 0,
        entry(1, 2, 3, 1, 9, 13, 11, 14, x) == 0,
        entry(1, 1, 2, 3, 14, 9, 13, 11, x) == 0,
        entry(1, 1, 2, 3, 11, 14, 9, 13, x) == 0,
        entry(1, 1, 2, 3, 13, 11, 14, 9, x) == x,
        entry(1, 1, 2, 3, 9, 13, 11, 14, x) == 0,
        entry(3, 1, 1, 2, 14, 9, 13, 11, x) == 0,
        entry(3, 1, 1, 2, 11, 14, 9, 13, x) == 0,
        entry(3, 1, 1, 2, 13, 11, 14, 9, x) == 0,
        entry(3, 1, 1, 2, 9, 13, 11, 14, x) == x,
{
}

/// What input byte `j` of a column contributes to the product of a matrix
/// row `k` with the column multiplied by the matrix `m`.
spec fn contribution(k: [u8; 4], m: Matrix, j: int, x: u8) -> u8 {
    entry(k[0], k[1], k[2], k[3], m[0][j], m[1][j], m[2][j], m[3][j], x)
}

/// A matrix row times a multiplied column is the XOR of what each input
/// byte contributes.
proof fn lemma_dot_by_contribution(k: [u8; 4], m: Matrix, c: Column)
    ensures
        dot(k, mat_vec(m, c)) == contribution(k, m, 0, c[0]) ^ contribution(k, m, 1, c[1])
            ^ contribution(k, m, 2, c[2]) ^ contribution(k, m, 3, c[3]),
{
    let d = mat_vec(m, c);
    assert forall|i: int| 0 <= i < 4 implies gf_mul(k[i], d[i]) == gf_mul(
        k[i],
        gf_mul(m[i][0], c[0]),
    ) ^ gf_mul(k[i], gf_mul(m[i][1], c[1])) ^ gf_mul(k[i], gf_mul(m[i][2], c[2])) ^ gf_mul(
        k[i],
        gf_mul(m[i][3], c[3]),
    ) by {
        lemma_gf_mul_distributes_4(
            k[i],
            gf_mul(m[i][0], c[0]),
            gf_mul(m[i][1], c[1]),
            gf_mul(m[i][2], c[2]),
            gf_mul(m[i][3], c[3]),
        );
    }
    let p00 = gf_mul(k[0], gf_mul(m[0][0], c[0]));
    let p01 = gf_mul(k[0], gf_mul(m[0][1], c[1]));
    let p02 = gf_mul(k[0], gf_mul(m[0][2], c[2]));
    let p03 = gf_mul(k[0], gf_mul(m[0][3], c[3]));
    let p10 = gf_mul(k[1], gf_mul(m[1][0], c[0]));
    let p11 = gf_mul(k[1], gf_mul(m[1][1], c[1]));
    let p12 = gf_mul(k[1], gf_mul(m[1][2], c[2]));
    let p13 = gf_mul(k[1], gf_mul(m[1][3], c[3]));
    let p20 = gf_mul(k[2], gf_mul(m[2][0], c[0]));
    let p21 = gf_mul(k[2], gf_mul(m[2][1], c[1]));
    let p22 = gf_mul(k[2], gf_mul(m[2][2], c[2]));
    let p23 = gf_mul(k[2], gf_mul(m[2][3], c[3]));
    let p30 = gf_mul(k[3], gf_mul(m[3][0], c[0]));
    let p31 = gf_mul(k[3], gf_mul(m[3][1], c[1]));
    let p32 = gf_mul(k[3], gf_mul(m[3][2], c[2]));
    let p33 = gf_mul(k[3], gf_mul(m[3][3], c[3]));
    assert((p00 ^ p01 ^ p02 ^ p03) ^ (p10 ^ p11 ^ p12 ^ p13) ^ (p20 ^ p21 ^ p22 ^ p23) ^ (p30 ^ p31
        ^ p32 ^ p33) == (p00 ^ p10 ^ p20 ^ p30) ^ (p01 ^ p11 ^ p21 ^ p31) ^ (p02 ^ p12 ^ p22 ^ p32)
        ^ (p03 ^ p13 ^ p23 ^ p33)) by (bit_vector);
}

/// Under row `r` of either diffusion matrix, taken against the other
/// matrix, input byte `r` contributes itself and every other input byte
/// contributes nothing.
proof fn lemma_contribution(r: int, j: int, x: u8)
    requires
        0 <= r < 4,
        0 <= j < 4,
    ensures
        contribution(INV_MIX_MATRIX[r], MIX_MATRIX, j, x) == if j == r {
            x
        } else {
            0
        },
        contribution(MIX_MATRIX[r], INV_MIX_MATRIX, j, x) == if j == r {
            x
        } else {
            0
        },
{
    lemma_inverse_times_forward(x);
    lemma_forward_times_inverse(x);
}

/// The XOR of four bytes of which one is `x` and the others are zero is `x`.
proof fn lemma_xor_of_one(e0: u8, e1: u8, e2: u8, e3: u8, x: u8)
    by (bit_vector)
    requires
        (e0 == x && e1 == 0 && e2 == 0 && e3 == 0) || (e0 == 0 && e1 == x && e2 == 0 && e3 == 0)
            || (e0 == 0 && e1 == 0 && e2 == x && e3 == 0) || (e0 == 0 && e1 == 0 && e2 == 0 && e3
            == x),
    ensures
        e0 ^ e1 ^ e2 ^ e3 == x,
{
}

/// Entry `r` of a column that went through one diffusion matrix and then
/// through the other is the entry the column had.
proof fn lemma_dot_inverse(r: int, c: Column)
    requires
        0 <= r < 4,
    ensures
        dot(INV_MIX_MATRIX[r], mat_vec(MIX_MATRIX, c)) == c[r],
        dot(MIX_MATRIX[r], mat_vec(INV_MIX_MATRIX, c)) == c[r],
{
    lemma_contribution(r, 0, c[0]);
    lemma_contribution(r, 1, c[1]);
    lemma_contribution(r, 2, c[2]);
    lemma_contribution(r, 3, c[3]);
    let k = INV_MIX_MATRIX[r];
    lemma_dot_by_contribution(k, MIX_MATRIX, c);
    lemma_xor_of_one(
        contribution(k, MIX_MATRIX, 0, c[0]),
        contribution(k, MIX_MATRIX, 1, c[1]),
        contribution(k, MIX_MATRIX, 2, c[2]),
        contribution(k, MIX_MATRIX, 3, c[3]),
        c[r],
    );
    let k = MIX_MATRIX[r];
    lemma_dot_by_contribution(k, INV_MIX_MATRIX, c);
    lemma_xor_of_one(
        contribution(k, INV_MIX_MATRIX, 0, c[0]),
        contribution(k, INV_MIX_MATRIX, 1, c[1]),
        contribution(k, INV_MIX_MATRIX, 2, c[2]),
        contribution(k, INV_MIX_MATRIX, 3, c[3]),
        c[r],
    );
}

} // verus!
