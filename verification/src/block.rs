use crate::cipher::AESteve;
use crate::diffusion::{
    dot, entries_supported, lemma_mat_vec_inverse, lemma_partial_dot_full, mat_vec, partial_dot,
    Matrix,
};
use crate::galois::gmul;
use crate::tables::{
    inv_sbox, lemma_sbox_inverse, lookup, reverse_lookup, sbox, INV_MIX_MATRIX, MIX_MATRIX,
};
use vstd::prelude::*;

verus! {

/// One column of the state: four bytes, top row first.
pub type Column = [u8; 4];

/// The state of the cipher: sixteen bytes as four columns of four bytes, so
/// that byte `i` of a block stands at `[i / 4][i % 4]`.
pub type Block = [[u8; 4]; 4];

/// Byte `i` of a byte sequence, or zero past its end.
pub open spec fn byte_or_zero(s: Seq<u8>, i: int) -> u8 {
    if 0 <= i < s.len() {
        s[i]
    } else {
        0
    }
}

/// The block that starts at byte `at` of a byte sequence, filled up with
/// zeros where the sequence ends early.
pub open spec fn block_at(s: Seq<u8>, at: int) -> Block {
    [
        [
            byte_or_zero(s, at),
            byte_or_zero(s, at + 1),
            byte_or_zero(s, at + 2),
            byte_or_zero(s, at + 3),
        ],
        [
            byte_or_zero(s, at + 4),
            byte_or_zero(s, at + 5),
            byte_or_zero(s, at + 6),
            byte_or_zero(s, at + 7),
        ],
        [
            byte_or_zero(s, at + 8),
            byte_or_zero(s, at + 9),
            byte_or_zero(s, at + 10),
            byte_or_zero(s, at + 11),
        ],
        [
            byte_or_zero(s, at + 12),
            byte_or_zero(s, at + 13),
            byte_or_zero(s, at + 14),
            byte_or_zero(s, at + 15),
        ],
    ]
}

/// The sixteen bytes of a block, in order.
pub open spec fn block_bytes(b: Block) -> Seq<u8> {
    Seq::new(16, |i: int| b[i / 4][i % 4])
}

/// Two columns combined byte by byte with XOR.
pub open spec fn xor_column(a: Column, b: Column) -> Column {
    [a[0] ^ b[0], a[1] ^ b[1], a[2] ^ b[2], a[3] ^ b[3]]
}

/// The state combined with a round key.
#[verifier::opaque]
pub open spec fn add_round_key_spec(key: Block, block: Block) -> Block {
    [
        xor_column(key[0], block[0]),
        xor_column(key[1], block[1]),
        xor_column(key[2], block[2]),
        xor_column(key[3], block[3]),
    ]
}

/// A column with every byte substituted through the forward box.
pub open spec fn sub_column(c: Column) -> Column {
    [sbox(c[0]), sbox(c[1]), sbox(c[2]), sbox(c[3])]
}

/// The state with every byte substituted through the forward box.
#[verifier::opaque]
pub open spec fn sub_bytes_spec(block: Block) -> Block {
    [sub_column(block[0]), sub_column(block[1]), sub_column(block[2]), sub_column(block[3])]
}

/// A column with every byte substituted through the inverse box.
pub open spec fn inv_sub_column(c: Column) -> Column {
    [inv_sbox(c[0]), inv_sbox(c[1]), inv_sbox(c[2]), inv_sbox(c[3])]
}

/// The state with every byte substituted through the inverse box.
#[verifier::opaque]
pub open spec fn inv_sub_bytes_spec(block: Block) -> Block {
    [
        inv_sub_column(block[0]),
        inv_sub_column(block[1]),
        inv_sub_column(block[2]),
        inv_sub_column(block[3]),
    ]
}

/// The state with row `r` rotated left by `r` columns.
#[verifier::opaque]
pub open spec fn shift_rows_spec(b: Block) -> Block {
    [
        [b[0][0], b[1][1], b[2][2], b[3][3]],
        [b[1][0], b[2][1], b[3][2], b[0][3]],
        [b[2][0], b[3][1], b[0][2], b[1][3]],
        [b[3][0], b[0][1], b[1][2], b[2][3]],
    ]
}

/// The state with row `r` rotated right by `r` columns.
#[verifier::opaque]
pub open spec fn inv_shift_rows_spec(b: Block) -> Block {
    [
        [b[0][0], b[3][1], b[2][2], b[1][3]],
        [b[1][0], b[0][1], b[3][2], b[2][3]],
        [b[2][0], b[1][1], b[0][2], b[3][3]],
        [b[3][0], b[2][1], b[1][2], b[0][3]],
    ]
}

/// The state with rows and columns exchanged.
#[verifier::opaque]
pub open spec fn transpose_spec(b: Block) -> Block {
    [
        [b[0][0], b[1][0], b[2][0], b[3][0]],
        [b[0][1], b[1][1], b[2][1], b[3][1]],
        [b[0][2], b[1][2], b[2][2], b[3][2]],
        [b[0][3], b[1][3], b[2][3], b[3][3]],
    ]
}

/// The state with every column multiplied by the forward diffusion matrix.
#[verifier::opaque]
pub open spec fn mix_columns_spec(b: Block) -> Block {
    [
        mat_vec(MIX_MATRIX, b[0]),
        mat_vec(MIX_MATRIX, b[1]),
        mat_vec(MIX_MATRIX, b[2]),
        mat_vec(MIX_MATRIX, b[3]),
    ]
}

/// The state with every column multiplied by the inverse diffusion matrix.
#[verifier::opaque]
pub open spec fn inv_mix_columns_spec(b: Block) -> Block {
    [
        mat_vec(INV_MIX_MATRIX, b[0]),
        mat_vec(INV_MIX_MATRIX, b[1]),
        mat_vec(INV_MIX_MATRIX, b[2]),
        mat_vec(INV_MIX_MATRIX, b[3]),
    ]
}

/// Two blocks are equal as soon as their sixteen bytes are.
pub proof fn lemma_block_equal(a: Block, b: Block)
    requires
        forall|c: int, r: int| 0 <= c < 4 && 0 <= r < 4 ==> a[c][r] == b[c][r],
    ensures
        a == b,
{
    assert(a[0] =~= b[0]);
    assert(a[1] =~= b[1]);
    assert(a[2] =~= b[2]);
    assert(a[3] =~= b[3]);
    assert(a =~= b);
}

/// A block that lies inside a byte sequence holds the sixteen bytes that
/// start at its place.
pub proof fn lemma_block_bytes_at(s: Seq<u8>, at: int)
    requires
        0 <= at,
        at + 16 <= s.len(),
    ensures
        block_bytes(block_at(s, at)) == s.subrange(at, at + 16),
        block_at(s, at) == block_at(s.subrange(at, at + 16), 0),
{
    assert(block_bytes(block_at(s, at)) =~= s.subrange(at, at + 16));
    lemma_block_equal(block_at(s, at), block_at(s.subrange(at, at + 16), 0));
}

/// Combining with the same round key twice gives the state back.
pub proof fn lemma_add_round_key_inverse(key: Block, block: Block)
    ensures
        add_round_key_spec(key, add_round_key_spec(key, block)) == block,
{
    reveal(add_round_key_spec);
    assert(forall|k: u8, x: u8| #![auto] k ^ (k ^ x) == x) by (bit_vector);
    lemma_block_equal(add_round_key_spec(key, add_round_key_spec(key, block)), block);
}

/// The two substitution steps undo each other, in either order.
pub proof fn lemma_sub_bytes_inverse(block: Block)
    ensures
        inv_sub_bytes_spec(sub_bytes_spec(block)) == block,
        sub_bytes_spec(inv_sub_bytes_spec(block)) == block,
{
    reveal(sub_bytes_spec);
    reveal(inv_sub_bytes_spec);
    assert forall|c: int, r: int| 0 <= c < 4 && 0 <= r < 4 implies inv_sub_bytes_spec(
        sub_bytes_spec(block),
    )[c][r] == block[c][r] && sub_bytes_spec(inv_sub_bytes_spec(block))[c][r] == block[c][r] by {
        lemma_sbox_inverse(block[c][r]);
    }
    lemma_block_equal(inv_sub_bytes_spec(sub_bytes_spec(block)), block);
    lemma_block_equal(sub_bytes_spec(inv_sub_bytes_spec(block)), block);
}

/// Rotating the rows left and rotating them right undo each other, in
/// either order.
pub proof fn lemma_shift_rows_inverse(block: Block)
    ensures
        inv_shift_rows_spec(shift_rows_spec(block)) == block,
        shift_rows_spec(inv_shift_rows_spec(block)) == block,
{
    reveal(shift_rows_spec);
    reveal(inv_shift_rows_spec);
    lemma_block_equal(inv_shift_rows_spec(shift_rows_spec(block)), block);
    lemma_block_equal(shift_rows_spec(inv_shift_rows_spec(block)), block);
}

/// The inverse diffusion step undoes the forward one.
#[verifier::rlimit(50)]
proof fn lemma_inv_mix_after_mix(block: Block)
    ensures
        inv_mix_columns_spec(mix_columns_spec(block)) == block,
{
    reveal(mix_columns_spec);
    reveal(inv_mix_columns_spec);
    lemma_mat_vec_inverse(block[0]);
    lemma_mat_vec_inverse(block[1]);
    lemma_mat_vec_inverse(block[2]);
    lemma_mat_vec_inverse(block[3]);
    assert(inv_mix_columns_spec(mix_columns_spec(block)) =~= block);
}

/// The forward diffusion step undoes the inverse one.
#[verifier::rlimit(50)]
proof fn lemma_mix_after_inv_mix(block: Block)
    ensures
        mix_columns_spec(inv_mix_columns_spec(block)) == block,
{
    reveal(mix_columns_spec);
    reveal(inv_mix_columns_spec);
    lemma_mat_vec_inverse(block[0]);
    lemma_mat_vec_inverse(block[1]);
    lemma_mat_vec_inverse(block[2]);
    lemma_mat_vec_inverse(block[3]);
    assert(mix_columns_spec(inv_mix_columns_spec(block)) =~= block);
}

/// The two diffusion steps undo each other, in either order.
pub proof fn lemma_mix_columns_inverse(block: Block)
    ensures
        inv_mix_columns_spec(mix_columns_spec(block)) == block,
        mix_columns_spec(inv_mix_columns_spec(block)) == block,
{
    lemma_inv_mix_after_mix(block);
    lemma_mix_after_inv_mix(block);
}

impl AESteve {
    /// Combines the state with a round key, byte by byte with XOR.
    pub fn add_round_key(key: Block, block: Block) -> (out: Block)
        ensures
            out == add_round_key_spec(key, block),
    {
        let mut new_block = [[0u8; 4]; 4];
        for col_idx in 0..4usize
            invariant
                forall|c: int, r: int|
                    0 <= c < col_idx && 0 <= r < 4 ==> new_block[c][r] == key[c][r] ^ block[c][r],
        {
            for row_idx in 0..4usize
                invariant
                    col_idx < 4,
                    forall|c: int, r: int|
                        0 <= c < col_idx && 0 <= r < 4 ==> new_block[c][r] == key[c][r]
                            ^ block[c][r],
                    forall|r: int|
                        0 <= r < row_idx ==> new_block[col_idx as int][r] == key[col_idx as int][r]
                            ^ block[col_idx as int][r],
            {
                new_block[col_idx][row_idx] = key[col_idx][row_idx] ^ block[col_idx][row_idx];
            }
        }
        proof {
            reveal(add_round_key_spec);
            lemma_block_equal(new_block, add_round_key_spec(key, block));
        }
        new_block
    }

    /// Substitutes every byte of the state through the forward box.
    pub fn sub_bytes(block: Block) -> (out: Block)
        ensures
            out == sub_bytes_spec(block),
    {
        let mut new_block = [[0u8; 4]; 4];
        for col_idx in 0..4usize
            invariant
                forall|c: int, r: int|
                    0 <= c < col_idx && 0 <= r < 4 ==> new_block[c][r] == sbox(block[c][r]),
        {
            for row_idx in 0..4usize
                invariant
                    col_idx < 4,
                    forall|c: int, r: int|
                        0 <= c < col_idx && 0 <= r < 4 ==> new_block[c][r] == sbox(block[c][r]),
                    forall|r: int|
                        0 <= r < row_idx ==> new_block[col_idx as int][r] == sbox(
                            block[col_idx as int][r],
                        ),
            {
                new_block[col_idx][row_idx] = lookup(block[col_idx][row_idx]);
            }
        }
        proof {
            reveal(sub_bytes_spec);
            lemma_block_equal(new_block, sub_bytes_spec(block));
        }
        new_block
    }

    /// Substitutes every byte of the state through the inverse box.
    pub fn inv_sub_bytes(block: Block) -> (out: Block)
        ensures
            out == inv_sub_bytes_spec(block),
    {
        let mut new_block = [[0u8; 4]; 4];
        for col_idx in 0..4usize
            invariant
                forall|c: int, r: int|
                    0 <= c < col_idx && 0 <= r < 4 ==> new_block[c][r] == inv_sbox(block[c][r]),
        {
            for row_idx in 0..4usize
                invariant
                    col_idx < 4,
                    forall|c: int, r: int|
                        0 <= c < col_idx && 0 <= r < 4 ==> new_block[c][r] == inv_sbox(
                            block[c][r],
                        ),
                    forall|r: int|
                        0 <= r < row_idx ==> new_block[col_idx as int][r] == inv_sbox(
                            block[col_idx as int][r],
                        ),
            {
                new_block[col_idx][row_idx] = reverse_lookup(block[col_idx][row_idx]);
            }
        }
        proof {
            reveal(inv_sub_bytes_spec);
            lemma_block_equal(new_block, inv_sub_bytes_spec(block));
        }
        new_block
    }

    /// Rotates row `r` of the state left by `r` columns.
    pub fn shift_rows(block: Block) -> (out: Block)
        ensures
            out == shift_rows_spec(block),
    {
        let mut new_block = [[0u8; 4]; 4];
        for i in 0..4usize
            invariant
                forall|c: int, r: int|
                    0 <= c < i && 0 <= r < 4 ==> new_block[c][r] == block[(c + r) % 4][r],
        {
            new_block[i][0] = block[i][0];
            new_block[i][1] = block[(i + 1) % 4][1];
            new_block[i][2] = block[(i + 2) % 4][2];
            new_block[i][3] = block[(i + 3) % 4][3];
        }
        proof {
            reveal(shift_rows_spec);
            lemma_block_equal(new_block, shift_rows_spec(block));
        }
        new_block
    }

    /// Rotates row `r` of the state right by `r` columns.
    pub fn inv_shift_rows(block: Block) -> (out: Block)
        ensures
            out == inv_shift_rows_spec(block),
    {
        let mut new_block = [[0u8; 4]; 4];
        for i in 0..4usize
            invariant
                forall|c: int, r: int|
                    0 <= c < i && 0 <= r < 4 ==> new_block[c][r] == block[(c + 4 - r) % 4][r],
        {
            new_block[i][0] = block[i][0];
            new_block[i][1] = block[(i + 3) % 4][1];
            new_block[i][2] = block[(i + 2) % 4][2];
            new_block[i][3] = block[(i + 1) % 4][3];
        }
        proof {
            reveal(inv_shift_rows_spec);
            lemma_block_equal(new_block, inv_shift_rows_spec(block));
        }
        new_block
    }

    /// Exchanges the rows and columns of the state.
    pub fn transpose(block: Block) -> (out: Block)
        ensures
            out == transpose_spec(block),
    {
        let mut new_block = [[0u8; 4]; 4];
        for col_idx in 0..4usize
            invariant
                forall|c: int, r: int|
                    0 <= c < col_idx && 0 <= r < 4 ==> new_block[c][r] == block[r][c],
        {
            for row_idx in 0..4usize
                invariant
                    col_idx < 4,
                    forall|c: int, r: int|
                        0 <= c < col_idx && 0 <= r < 4 ==> new_block[c][r] == block[r][c],
                    forall|r: int|
                        0 <= r < row_idx ==> new_block[col_idx as int][r] == block[r][col_idx as int],
            {
                new_block[col_idx][row_idx] = block[row_idx][col_idx];
            }
        }
        proof {
            reveal(transpose_spec);
            lemma_block_equal(new_block, transpose_spec(block));
        }
        new_block
    }

    /// Multiplies every column of the state by a matrix over GF(2^8).
    fn multiply_columns(matrix: &Matrix, block: Block) -> (out: Block)
        requires
            entries_supported(*matrix),
        ensures
            forall|c: int| 0 <= c < 4 ==> out[c] == mat_vec(*matrix, #[trigger] block[c]),
    {
        let block_t = Self::transpose(block);
        proof {
            reveal(transpose_spec);
        }
        let mut new_block = [[0u8; 4]; 4];
        for i in 0..4usize
            invariant
                entries_supported(*matrix),
                forall|c: int, r: int| 0 <= c < 4 && 0 <= r < 4 ==> block_t[r][c] == block[c][r],
                forall|r: int, c: int|
                    0 <= r < i && 0 <= c < 4 ==> new_block[c][r] == dot(matrix[r], block[c]),
        {
            for j in 0..4usize
                invariant
                    i < 4,
                    entries_supported(*matrix),
                    forall|c: int, r: int|
                        0 <= c < 4 && 0 <= r < 4 ==> block_t[r][c] == block[c][r],
                    forall|r: int, c: int|
                        0 <= r < i && 0 <= c < 4 ==> new_block[c][r] == dot(matrix[r], block[c]),
                    forall|c: int|
                        0 <= c < j ==> new_block[c][i as int] == dot(matrix[i as int], block[c]),
            {
                let mut sum = 0u8;
                for k in 0..4usize
                    invariant
                        i < 4,
                        j < 4,
                        entries_supported(*matrix),
                        forall|c: int, r: int|
                            0 <= c < 4 && 0 <= r < 4 ==> block_t[r][c] == block[c][r],
                        sum == partial_dot(matrix[i as int], block[j as int], k as int),
                {
                    sum ^= gmul(matrix[i][k], block_t[k][j]);
                }
                proof {
                    lemma_partial_dot_full(matrix[i as int], block[j as int]);
                }
                new_block[j][i] = sum;
            }
        }
        assert forall|c: int| 0 <= c < 4 implies new_block[c] == mat_vec(
            *matrix,
            #[trigger] block[c],
        ) by {
            assert(new_block[c] =~= mat_vec(*matrix, block[c]));
        }
        new_block
    }

    /// Replaces every column of the state by its product with the forward
    /// diffusion matrix.
    pub fn mix_columns(block: Block) -> (out: Block)
        ensures
            out == mix_columns_spec(block),
    {
        let new_block = Self::multiply_columns(&MIX_MATRIX, block);
        proof {
            reveal(mix_columns_spec);
            assert(new_block =~= mix_columns_spec(block));
        }
        new_block
    }

    /// Replaces every column of the state by its product with the inverse
    /// diffusion matrix.
    pub fn inv_mix_columns(block: Block) -> (out: Block)
        ensures
            out == inv_mix_columns_spec(block),
    {
        let new_block = Self::multiply_columns(&INV_MIX_MATRIX, block);
        proof {
            reveal(inv_mix_columns_spec);
            assert(new_block =~= inv_mix_columns_spec(block));
        }
        new_block
    }
}

} // verus!
