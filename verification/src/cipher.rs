use crate::block::{
    add_round_key_spec, block_bytes, inv_mix_columns_spec, inv_shift_rows_spec, inv_sub_bytes_spec,
    lemma_add_round_key_inverse, lemma_mix_columns_inverse, lemma_shift_rows_inverse,
    lemma_sub_bytes_inverse, mix_columns_spec, shift_rows_spec, sub_bytes_spec, Block,
};
use crate::error::AESError;
use crate::schedule::{expand_key_spec, lemma_round_key_zero};
use vstd::prelude::*;

verus! {

/// The eleven round keys of AES-128, round 0 first.
pub type Schedule = [Block; 11];

/// An AES-128 cipher instance: the round keys expanded from one 16-byte key.
#[derive(Debug)]
pub struct AESteve {
    keys: Schedule,
}

/// One full round of encryption: substitute, rotate rows, diffuse columns,
/// mix in the round key.
#[verifier::opaque]
pub open spec fn full_round(key: Block, state: Block) -> Block {
    add_round_key_spec(key, mix_columns_spec(shift_rows_spec(sub_bytes_spec(state))))
}

/// The last round of encryption, which leaves the diffusion out.
#[verifier::opaque]
pub open spec fn final_round(key: Block, state: Block) -> Block {
    add_round_key_spec(key, shift_rows_spec(sub_bytes_spec(state)))
}

/// What undoes `full_round`.
#[verifier::opaque]
pub open spec fn inv_full_round(key: Block, state: Block) -> Block {
    inv_sub_bytes_spec(inv_shift_rows_spec(inv_mix_columns_spec(add_round_key_spec(key, state))))
}

/// What undoes `final_round`.
#[verifier::opaque]
pub open spec fn inv_final_round(key: Block, state: Block) -> Block {
    inv_sub_bytes_spec(inv_shift_rows_spec(add_round_key_spec(key, state)))
}

/// The state of an encryption after round key 0 was mixed in and the first
/// `n` full rounds were applied.
pub open spec fn encrypt_rounds(keys: Schedule, block: Block, n: nat) -> Block
    decreases n,
{
    if n == 0 {
        add_round_key_spec(keys[0], block)
    } else {
        full_round(keys[n as int], encrypt_rounds(keys, block, (n - 1) as nat))
    }
}

/// The ciphertext block of a plaintext block: key mixing, nine full rounds
/// and the final round.
pub open spec fn encrypt_block_spec(keys: Schedule, block: Block) -> Block {
    final_round(keys[10], encrypt_rounds(keys, block, 9))
}

/// The state of a decryption after the final round and the `n` full rounds
/// before it were undone.
pub open spec fn decrypt_rounds(keys: Schedule, block: Block, n: nat) -> Block
    decreases n,
{
    if n == 0 {
        inv_final_round(keys[10], block)
    } else {
        inv_full_round(keys[10 - n], decrypt_rounds(keys, block, (n - 1) as nat))
    }
}

/// The plaintext block of a ciphertext block: the rounds of encryption
/// undone from the last to the first.
pub open spec fn decrypt_block_spec(keys: Schedule, block: Block) -> Block {
    add_round_key_spec(keys[0], decrypt_rounds(keys, block, 9))
}

/// `full_round` and `inv_full_round` undo each other under the same round
/// key, in either order.
pub proof fn lemma_full_round_inverse(key: Block, state: Block)
    ensures
        inv_full_round(key, full_round(key, state)) == state,
        full_round(key, inv_full_round(key, state)) == state,
{
    reveal(full_round);
    reveal(inv_full_round);
    let substituted = sub_bytes_spec(state);
    let shifted = shift_rows_spec(substituted);
    let mixed = mix_columns_spec(shifted);
    lemma_add_round_key_inverse(key, mixed);
    lemma_mix_columns_inverse(shifted);
    lemma_shift_rows_inverse(substituted);
    lemma_sub_bytes_inverse(state);
    let unmixed = inv_mix_columns_spec(add_round_key_spec(key, state));
    let unshifted = inv_shift_rows_spec(unmixed);
    lemma_sub_bytes_inverse(unshifted);
    lemma_shift_rows_inverse(unmixed);
    lemma_mix_columns_inverse(add_round_key_spec(key, state));
    lemma_add_round_key_inverse(key, state);
}

/// `final_round` and `inv_final_round` undo each other under the same round
/// key, in either order.
pub proof fn lemma_final_round_inverse(key: Block, state: Block)
    ensures
        inv_final_round(key, final_round(key, state)) == state,
        final_round(key, inv_final_round(key, state)) == state,
{
    reveal(final_round);
    reveal(inv_final_round);
    let substituted = sub_bytes_spec(state);
    let shifted = shift_rows_spec(substituted);
    lemma_add_round_key_inverse(key, shifted);
    lemma_shift_rows_inverse(substituted);
    lemma_sub_bytes_inverse(state);
    let unshifted = inv_shift_rows_spec(add_round_key_spec(key, state));
    lemma_sub_bytes_inverse(unshifted);
    lemma_shift_rows_inverse(add_round_key_spec(key, state));
    lemma_add_round_key_inverse(key, state);
}

/// Undoing the final round and `n` full rounds of an encryption leaves the
/// state that the encryption had before those rounds.
proof fn lemma_rounds_undone(keys: Schedule, block: Block, n: nat)
    requires
        n <= 9,
    ensures
        decrypt_rounds(keys, encrypt_block_spec(keys, block), n) == encrypt_rounds(
            keys,
            block,
            (9 - n) as nat,
        ),
    decreases n,
{
    if n == 0 {
        lemma_final_round_inverse(keys[10], encrypt_rounds(keys, block, 9));
    } else {
        lemma_rounds_undone(keys, block, (n - 1) as nat);
        lemma_full_round_inverse(keys[10 - n], encrypt_rounds(keys, block, (9 - n) as nat));
    }
}

/// Redoing the first `n` rounds on the decryption of a block leaves the
/// state that the decryption had before it undid those rounds.
proof fn lemma_rounds_redone(keys: Schedule, block: Block, n: nat)
    requires
        n <= 9,
    ensures
        encrypt_rounds(keys, decrypt_block_spec(keys, block), n) == decrypt_rounds(
            keys,
            block,
            (9 - n) as nat,
        ),
    decreases n,
{
    if n == 0 {
        lemma_add_round_key_inverse(keys[0], decrypt_rounds(keys, block, 9));
    } else {
        lemma_rounds_redone(keys, block, (n - 1) as nat);
        lemma_full_round_inverse(keys[n as int], decrypt_rounds(keys, block, (9 - n) as nat));
    }
}

/// Decrypting the encryption of a block gives the block back, whatever the
/// round keys are.
pub proof fn lemma_decrypt_block_inverts_encrypt_block(keys: Schedule, block: Block)
    ensures
        decrypt_block_spec(keys, encrypt_block_spec(keys, block)) == block,
{
    lemma_rounds_undone(keys, block, 9);
    lemma_add_round_key_inverse(keys[0], block);
}

/// Encrypting the decryption of a block gives the block back, whatever the
/// round keys are.
pub proof fn lemma_encrypt_block_inverts_decrypt_block(keys: Schedule, block: Block)
    ensures
        encrypt_block_spec(keys, decrypt_block_spec(keys, block)) == block,
{
    lemma_rounds_redone(keys, block, 9);
    lemma_final_round_inverse(keys[10], block);
}

impl AESteve {
    /// The round keys are the expansion of the 16-byte key that round key 0
    /// holds.
    #[verifier::type_invariant]
    closed spec fn expanded_from_key(&self) -> bool {
        self.keys == expand_key_spec(block_bytes(self.keys[0]))
    }

    /// The round keys this instance encrypts and decrypts with.
    pub closed spec fn schedule(&self) -> Schedule {
        self.keys
    }

    /// Makes a cipher instance from a key, which must be exactly 16 bytes long.
    pub fn new(key: &[u8]) -> (made: Result<Self, AESError>)
        ensures
            match made {
                Ok(cipher) => key@.len() == 16 && cipher.schedule() == expand_key_spec(key@),
                Err(error) => key@.len() != 16 && error is InvalidKeyLength,
            },
    {
        if key.len() != 16 {
            return Err(AESError::InvalidKeyLength);
        }
        let mut key_array = [0u8; 16];
        for i in 0..16usize
            invariant
                key@.len() == 16,
                forall|j: int| 0 <= j < i ==> key_array[j] == key[j],
        {
            key_array[i] = key[i];
        }
        assert(key_array@ =~= key@);
        let keys = Self::expand_key(&key_array);
        proof {
            lemma_round_key_zero(key@);
        }
        Ok(AESteve { keys })
    }

    /// Returns the eleven round keys, round 0 first. Round key 0 holds the
    /// key that the others were expanded from.
    pub fn round_keys(&self) -> (keys: Schedule)
        ensures
            keys == self.schedule(),
            keys == expand_key_spec(block_bytes(keys[0])),
    {
        proof {
            use_type_invariant(self);
        }
        self.keys
    }

    /// Encrypts one block.
    pub fn encrypt_block(&self, block: Block) -> (out: Block)
        ensures
            out == encrypt_block_spec(self.schedule(), block),
    {
        let mut new_block = Self::add_round_key(self.keys[0], block);
        for i in 0..9usize
            invariant
                new_block == encrypt_rounds(self.keys, block, i as nat),
        {
            new_block = Self::sub_bytes(new_block);
            new_block = Self::shift_rows(new_block);
            new_block = Self::mix_columns(new_block);
            new_block = Self::add_round_key(self.keys[i + 1], new_block);
            proof {
                reveal(full_round);
            }
        }
        new_block = Self::sub_bytes(new_block);
        new_block = Self::shift_rows(new_block);
        new_block = Self::add_round_key(self.keys[10], new_block);
        proof {
            reveal(final_round);
        }

        new_block
    }

    /// Decrypts one block.
    pub fn decrypt_block(&self, block: Block) -> (out: Block)
        ensures
            out == decrypt_block_spec(self.schedule(), block),
    {
        let mut new_block = Self::add_round_key(self.keys[10], block);
        new_block = Self::inv_shift_rows(new_block);
        new_block = Self::inv_sub_bytes(new_block);
        proof {
            reveal(inv_final_round);
        }
        for i in 0..9usize
            invariant
                new_block == decrypt_rounds(self.keys, block, i as nat),
        {
            new_block = Self::add_round_key(self.keys[9 - i], new_block);
            new_block = Self::inv_mix_columns(new_block);
            new_block = Self::inv_shift_rows(new_block);
            new_block = Self::inv_sub_bytes(new_block);
            proof {
                reveal(inv_full_round);
            }
        }
        new_block = Self::add_round_key(self.keys[0], new_block);

        new_block
    }
}

} // verus!
