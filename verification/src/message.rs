use crate::block::{block_at, block_bytes, lemma_block_bytes_at, Block};
use crate::cipher::{
    decrypt_block_spec, encrypt_block_spec, lemma_decrypt_block_inverts_encrypt_block, AESteve,
    Schedule,
};
use crate::error::{AESError, AESErrorKind};
use crate::framing::{
    blocks_spec, depad_spec, join_spec, lemma_blocks_of_join, lemma_depad_inverts_pad,
    lemma_join_of_blocks, lemma_marker_pos, lemma_pad_length, marker_pos, pad_spec, MARKER,
};
use crate::trusted::{
    base64_bytes, base64_decode, base64_encode, base64_len_fits, base64_text, par_map,
    string_from_utf8,
};
use vstd::prelude::*;
use vstd::string::StrSliceExecFns;
use vstd::utf8::{decode_utf8, encode_utf8, valid_utf8};

verus! {

/// Every block of a sequence encrypted on its own.
pub open spec fn encrypt_blocks_spec(keys: Schedule, blocks: Seq<Block>) -> Seq<Block> {
    Seq::new(blocks.len(), |k: int| encrypt_block_spec(keys, blocks[k]))
}

/// Every block of a sequence decrypted on its own.
pub open spec fn decrypt_blocks_spec(keys: Schedule, blocks: Seq<Block>) -> Seq<Block> {
    Seq::new(blocks.len(), |k: int| decrypt_block_spec(keys, blocks[k]))
}

/// The ciphertext of a plaintext: the plaintext padded, cut into blocks,
/// each block encrypted on its own, the blocks joined in their order.
pub open spec fn cipher_bytes(keys: Schedule, plaintext: Seq<u8>) -> Seq<u8> {
    join_spec(encrypt_blocks_spec(keys, blocks_spec(pad_spec(plaintext))))
}

/// The plaintext of a ciphertext: the ciphertext cut into blocks, each block
/// decrypted on its own, the blocks joined in their order, the padding taken
/// off.
pub open spec fn plain_bytes(keys: Schedule, ciphertext: Seq<u8>) -> Seq<u8> {
    depad_spec(join_spec(decrypt_blocks_spec(keys, blocks_spec(ciphertext))))
}

/// The encrypted message of a message: the Base64 text of the ciphertext of
/// its UTF-8 bytes.
pub open spec fn encrypt_spec(keys: Schedule, message: Seq<char>) -> Seq<char> {
    base64_text(cipher_bytes(keys, encode_utf8(message)))
}

/// Whether `text` is what encrypting `message` under `keys` returns: the
/// Base64 text of the ciphertext, which decodes back to the ciphertext.
pub open spec fn is_encryption_of(keys: Schedule, message: Seq<char>, text: Seq<char>) -> bool {
    text == encrypt_spec(keys, message) && base64_bytes(text) == Some(
        cipher_bytes(keys, encode_utf8(message)),
    )
}

/// What decrypting an encrypted message gives: an error where the text is
/// not valid Base64 or the decrypted bytes are not valid UTF-8, and else the
/// text that the decrypted bytes encode.
pub open spec fn decrypt_spec(keys: Schedule, text: Seq<char>) -> Result<Seq<char>, AESErrorKind> {
    match base64_bytes(text) {
        None => Err(AESErrorKind::InvalidBase64),
        Some(ciphertext) => {
            let plaintext = plain_bytes(keys, ciphertext);
            if valid_utf8(plaintext) {
                Ok(decode_utf8(plaintext))
            } else {
                Err(AESErrorKind::InvalidUTF8)
            }
        },
    }
}

impl AESteve {
    /// Encrypts every block on its own and keeps the order of the blocks.
    pub fn encrypt_blocks(&self, blocks: Vec<Block>) -> (encrypted: Vec<Block>)
        ensures
            encrypted@ == encrypt_blocks_spec(self.schedule(), blocks@),
    {
        let encrypt_one = |block: Block| -> (out: Block)
            ensures
                out == encrypt_block_spec(self.schedule(), block),
            { self.encrypt_block(block) };
        let encrypted = par_map(blocks, encrypt_one);
        assert(encrypted@ =~= encrypt_blocks_spec(self.schedule(), blocks@));
        encrypted
    }

    /// Decrypts every block on its own and keeps the order of the blocks.
    pub fn decrypt_blocks(&self, blocks: Vec<Block>) -> (decrypted: Vec<Block>)
        ensures
            decrypted@ == decrypt_blocks_spec(self.schedule(), blocks@),
    {
        let decrypt_one = |block: Block| -> (out: Block)
            ensures
                out == decrypt_block_spec(self.schedule(), block),
            { self.decrypt_block(block) };
        let decrypted = par_map(blocks, decrypt_one);
        assert(decrypted@ =~= decrypt_blocks_spec(self.schedule(), blocks@));
        decrypted
    }

    /// Encrypts a plaintext of any length.
    pub fn encrypt_bytes(&self, plaintext: Vec<u8>) -> (ciphertext: Vec<u8>)
        ensures
            ciphertext@ == cipher_bytes(self.schedule(), plaintext@),
    {
        let padded_message = Self::pad(plaintext);
        let blocks = Self::make_blocks(padded_message);
        let encrypted_blocks = self.encrypt_blocks(blocks);
        Self::join_blocks(encrypted_blocks)
    }

    /// Decrypts a ciphertext and takes the padding off. A ciphertext that
    /// does not fill its last block is filled up with zeros first.
    pub fn decrypt_bytes(&self, ciphertext: Vec<u8>) -> (plaintext: Vec<u8>)
        ensures
            plaintext@ == plain_bytes(self.schedule(), ciphertext@),
    {
        let blocks = Self::make_blocks(ciphertext);
        let decrypted_blocks = self.decrypt_blocks(blocks);
        let flattened = Self::join_blocks(decrypted_blocks);
        Self::depad(flattened)
    }

    /// Encrypts a message and returns the ciphertext as Base64 text.
    pub fn encrypt(&self, message: String) -> (encrypted: Result<String, AESError>)
        requires
            base64_len_fits(pad_spec(encode_utf8(message@)).len()),
        ensures
            match encrypted {
                Ok(text) => is_encryption_of(self.schedule(), message@, text@),
                Err(_) => false,
            },
    {
        let plaintext = message.as_str().as_bytes_vec();
        let ciphertext = self.encrypt_bytes(plaintext);
        proof {
            lemma_cipher_length(self.schedule(), encode_utf8(message@));
        }
        Ok(base64_encode(&ciphertext))
    }

    /// Decrypts a message that was encrypted to Base64 text.
    pub fn decrypt(&self, encrypted_message: String) -> (decrypted: Result<String, AESError>)
        ensures
            match decrypted {
                Ok(message) => decrypt_spec(self.schedule(), encrypted_message@) == Ok::<
                    Seq<char>,
                    AESErrorKind,
                >(message@),
                Err(error) => decrypt_spec(self.schedule(), encrypted_message@) == Err::<
                    Seq<char>,
                    AESErrorKind,
                >(error.kind_spec()),
            },
    {
        let decoded_message = match base64_decode(encrypted_message.as_str()) {
            Ok(bytes) => bytes,
            Err(error) => {
                return Err(AESError::InvalidBase64(error));
            },
        };
        let depadded_message = self.decrypt_bytes(decoded_message);
        match string_from_utf8(depadded_message) {
            Ok(message) => {
                proof {
                    vstd::utf8::encode_utf8_decode_utf8(message@);
                }
                Ok(message)
            },
            Err(error) => Err(AESError::InvalidUTF8(error)),
        }
    }
}

/// A ciphertext is as long as the padded plaintext.
pub proof fn lemma_cipher_length(keys: Schedule, plaintext: Seq<u8>)
    ensures
        cipher_bytes(keys, plaintext).len() == pad_spec(plaintext).len(),
{
    lemma_pad_length(plaintext);
}

/// Block `k` of a ciphertext is the encryption of block `k` of the padded
/// plaintext, and of nothing else.
pub proof fn lemma_cipher_block(keys: Schedule, plaintext: Seq<u8>, k: int)
    requires
        0 <= k < pad_spec(plaintext).len() / 16,
    ensures
        block_at(cipher_bytes(keys, plaintext), 16 * k) == encrypt_block_spec(
            keys,
            block_at(pad_spec(plaintext), 16 * k),
        ),
{
    lemma_pad_length(plaintext);
    let encrypted = encrypt_blocks_spec(keys, blocks_spec(pad_spec(plaintext)));
    lemma_blocks_of_join(encrypted);
    assert(blocks_spec(join_spec(encrypted))[k] == encrypted[k]);
}

/// A block that lies inside the plaintext is the same block of the padded
/// plaintext: padding only adds bytes behind the plaintext.
proof fn lemma_padded_block(plaintext: Seq<u8>, k: int)
    requires
        0 <= k,
        16 * k + 16 <= plaintext.len(),
    ensures
        block_at(pad_spec(plaintext), 16 * k) == block_at(
            plaintext.subrange(16 * k, 16 * k + 16),
            0,
        ),
{
    let padded = pad_spec(plaintext);
    lemma_pad_length(plaintext);
    lemma_block_bytes_at(padded, 16 * k);
    assert(padded.subrange(16 * k, 16 * k + 16) =~= plaintext.subrange(16 * k, 16 * k + 16));
}

/// The sixteen bytes of a ciphertext at block `k` are the encryption of the
/// sixteen bytes of the plaintext at block `k`, where that block lies inside
/// the plaintext.
proof fn lemma_cipher_block_bytes(keys: Schedule, plaintext: Seq<u8>, k: int)
    requires
        0 <= k,
        16 * k + 16 <= plaintext.len(),
    ensures
        cipher_bytes(keys, plaintext).subrange(16 * k, 16 * k + 16) == block_bytes(
            encrypt_block_spec(keys, block_at(plaintext.subrange(16 * k, 16 * k + 16), 0)),
        ),
{
    lemma_pad_length(plaintext);
    lemma_cipher_length(keys, plaintext);
    lemma_cipher_block(keys, plaintext, k);
    lemma_padded_block(plaintext, k);
    lemma_block_bytes_at(cipher_bytes(keys, plaintext), 16 * k);
}

/// Two equal 16-byte blocks of one plaintext, each at a multiple of 16, have
/// equal ciphertext blocks at their places.
pub proof fn lemma_block_independence(keys: Schedule, plaintext: Seq<u8>, i: int, j: int)
    requires
        0 <= i,
        0 <= j,
        16 * i + 16 <= plaintext.len(),
        16 * j + 16 <= plaintext.len(),
        plaintext.subrange(16 * i, 16 * i + 16) == plaintext.subrange(16 * j, 16 * j + 16),
    ensures
        cipher_bytes(keys, plaintext).subrange(16 * i, 16 * i + 16) == cipher_bytes(
            keys,
            plaintext,
        ).subrange(16 * j, 16 * j + 16),
{
    lemma_cipher_block_bytes(keys, plaintext, i);
    lemma_cipher_block_bytes(keys, plaintext, j);
}

/// Decrypting the ciphertext of a plaintext gives the plaintext up to its
/// first marker byte: the whole plaintext if it holds no marker byte, and
/// less than the plaintext if it holds one.
pub proof fn lemma_decrypt_bytes_inverts_encrypt_bytes(keys: Schedule, plaintext: Seq<u8>)
    ensures
        plain_bytes(keys, cipher_bytes(keys, plaintext)) == plaintext.take(marker_pos(plaintext)),
        !plaintext.contains(MARKER) ==> plain_bytes(keys, cipher_bytes(keys, plaintext))
            == plaintext,
        plaintext.contains(MARKER) ==> plain_bytes(keys, cipher_bytes(keys, plaintext)).len()
            < plaintext.len(),
{
    let padded = pad_spec(plaintext);
    let blocks = blocks_spec(padded);
    let encrypted = encrypt_blocks_spec(keys, blocks);
    lemma_pad_length(plaintext);
    lemma_blocks_of_join(encrypted);
    assert forall|k: int| 0 <= k < blocks.len() implies decrypt_block_spec(keys, encrypted[k])
        == blocks[k] by {
        lemma_decrypt_block_inverts_encrypt_block(keys, blocks[k]);
    }
    assert(decrypt_blocks_spec(keys, encrypted) =~= blocks);
    lemma_join_of_blocks(padded);
    lemma_depad_inverts_pad(plaintext);
    lemma_marker_pos(plaintext);
    if plaintext.contains(MARKER) {
        let at = choose|at: int| 0 <= at < plaintext.len() && plaintext[at] == MARKER;
        assert(marker_pos(plaintext) <= at);
    }
}

/// Decrypting what encryption returned, under the same round keys, gives the
/// message back, if the UTF-8 bytes of the message hold no marker byte.
pub proof fn lemma_decrypt_inverts_encrypt(keys: Schedule, message: Seq<char>, text: Seq<char>)
    requires
        is_encryption_of(keys, message, text),
        !encode_utf8(message).contains(MARKER),
    ensures
        decrypt_spec(keys, text) == Ok::<Seq<char>, AESErrorKind>(message),
{
    let plaintext = encode_utf8(message);
    lemma_decrypt_bytes_inverts_encrypt_bytes(keys, plaintext);
    vstd::utf8::encode_utf8_valid_utf8(message);
    vstd::utf8::encode_utf8_decode_utf8(message);
}

/// Encrypting one message under the same round keys gives the same text
/// every time.
pub proof fn lemma_encryption_deterministic(
    keys: Schedule,
    message: Seq<char>,
    first: Seq<char>,
    second: Seq<char>,
)
    requires
        is_encryption_of(keys, message, first),
        is_encryption_of(keys, message, second),
    ensures
        first == second,
{
}

} // verus!
