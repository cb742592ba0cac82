use crate::block::{
    block_at, block_bytes, lemma_block_bytes_at, lemma_block_equal, xor_column, Block, Column,
};
use crate::cipher::{AESteve, Schedule};
use crate::galois::xtime;
use crate::tables::{lookup, rcon, round_constant, sbox};
use vstd::prelude::*;

verus! {

/// The round key that follows `prev`, made with round constant `rc`.
///
/// Its first word is the last word of `prev`, rotated by one byte and
/// substituted, with `rc` mixed into the first byte, combined with the first
/// word of `prev`. Every later word is the word before it combined with the
/// word of `prev` at the same place.
pub open spec fn next_round_key(prev: Block, rc: u8) -> Block {
    let w0: Column = [
        prev[0][0] ^ (sbox(prev[3][1]) ^ rc),
        prev[0][1] ^ sbox(prev[3][2]),
        prev[0][2] ^ sbox(prev[3][3]),
        prev[0][3] ^ sbox(prev[3][0]),
    ];
    let w1 = xor_column(w0, prev[1]);
    let w2 = xor_column(w1, prev[2]);
    let w3 = xor_column(w2, prev[3]);
    [w0, w1, w2, w3]
}

/// Round key `round` of the schedule of a 16-byte key. Round key 0 is the
/// key itself.
pub open spec fn round_key(key: Seq<u8>, round: nat) -> Block
    decreases round,
{
    if round == 0 {
        block_at(key, 0)
    } else {
        next_round_key(round_key(key, (round - 1) as nat), rcon(round - 1))
    }
}

/// The eleven round keys of a 16-byte key.
pub open spec fn expand_key_spec(key: Seq<u8>) -> Schedule {
    [
        round_key(key, 0),
        round_key(key, 1),
        round_key(key, 2),
        round_key(key, 3),
        round_key(key, 4),
        round_key(key, 5),
        round_key(key, 6),
        round_key(key, 7),
        round_key(key, 8),
        round_key(key, 9),
        round_key(key, 10),
    ]
}

/// Round key 0 of the schedule of a 16-byte key holds the bytes of the key.
pub proof fn lemma_round_key_zero(key: Seq<u8>)
    requires
        key.len() == 16,
    ensures
        expand_key_spec(key)[0] == round_key(key, 0),
        block_bytes(expand_key_spec(key)[0]) == key,
{
    lemma_block_bytes_at(key, 0);
    assert(key.subrange(0, 16) =~= key);
}

/// The ten round constants that the schedule consumes are the powers of `x`
/// in GF(2^8): the first is 1, and each later one is the one before it
/// times `x`.
pub proof fn lemma_round_constants(round: int)
    requires
        0 <= round < 9,
    ensures
        rcon(0) == 1,
        rcon(round + 1) == xtime(rcon(round)),
{
    assert(xtime(0x01) == 0x02 && xtime(0x02) == 0x04 && xtime(0x04) == 0x08 && xtime(0x08) == 0x10
        && xtime(0x10) == 0x20 && xtime(0x20) == 0x40 && xtime(0x40) == 0x80 && xtime(0x80) == 0x1b
        && xtime(0x1b) == 0x36) by (bit_vector);
}

impl AESteve {
    /// Expands a 16-byte key into its eleven round keys.
    #[verifier::rlimit(50)]
    pub fn expand_key(key: &[u8; 16]) -> (keys: Schedule)
        ensures
            keys == expand_key_spec(key@),
    {
        let mut keys: Schedule = [[[0u8; 4]; 4]; 11];
        for col_idx in 0..4usize
            invariant
                forall|c: int, r: int|
                    0 <= c < col_idx && 0 <= r < 4 ==> keys[0][c][r] == key[4 * c + r],
        {
            for row_idx in 0..4usize
                invariant
                    col_idx < 4,
                    forall|c: int, r: int|
                        0 <= c < col_idx && 0 <= r < 4 ==> keys[0][c][r] == key[4 * c + r],
                    forall|r: int|
                        0 <= r < row_idx ==> keys[0][col_idx as int][r] == key[4 * col_idx + r],
            {
                keys[0][col_idx][row_idx] = key[col_idx * 4 + row_idx];
            }
        }
        proof {
            lemma_block_equal(keys[0], round_key(key@, 0));
        }
        for round_idx in 0..10usize
            invariant
                forall|r: int| 0 <= r <= round_idx ==> keys[r] == round_key(key@, r as nat),
        {
            let ghost next = next_round_key(keys[round_idx as int], rcon(round_idx as int));
            for col_idx in 0..4usize
                invariant
                    round_idx < 10,
                    next == next_round_key(keys[round_idx as int], rcon(round_idx as int)),
                    forall|r: int| 0 <= r <= round_idx ==> keys[r] == round_key(key@, r as nat),
                    forall|c: int| 0 <= c < col_idx ==> keys[round_idx + 1][c] == next[c],
            {
                if col_idx == 0 {
                    let last_col = keys[round_idx][3];
                    let rotated_col = [last_col[1], last_col[2], last_col[3], last_col[0]];
                    let t1 = keys[round_idx][0][0] ^ (lookup(rotated_col[0]) ^ round_constant(
                        round_idx as u8,
                    ));
                    let t2 = keys[round_idx][0][1] ^ lookup(rotated_col[1]);
                    let t3 = keys[round_idx][0][2] ^ lookup(rotated_col[2]);
                    let t4 = keys[round_idx][0][3] ^ lookup(rotated_col[3]);
                    keys[round_idx + 1][0] = [t1, t2, t3, t4];
                    assert(keys[round_idx + 1][0] =~= next[0]);
                } else {
                    let t1 = keys[round_idx + 1][col_idx - 1][0] ^ keys[round_idx][col_idx][0];
                    let t2 = keys[round_idx + 1][col_idx - 1][1] ^ keys[round_idx][col_idx][1];
                    let t3 = keys[round_idx + 1][col_idx - 1][2] ^ keys[round_idx][col_idx][2];
                    let t4 = keys[round_idx + 1][col_idx - 1][3] ^ keys[round_idx][col_idx][3];
                    keys[round_idx + 1][col_idx] = [t1, t2, t3, t4];
                    assert(keys[round_idx + 1][col_idx as int] =~= next[col_idx as int]);
                }
            }
            assert(keys[round_idx + 1] =~= next);
        }
        assert(keys =~= expand_key_spec(key@));
        keys
    }
}

} // verus!
