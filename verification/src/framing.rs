use crate::block::{block_at, byte_or_zero, lemma_block_equal, Block};
use crate::cipher::AESteve;
use vstd::prelude::*;

verus! {

/// The byte that marks the end of a message inside its padding.
pub const MARKER: u8 = 0x80;

/// A message with the marker byte appended and zeros after it, up to the
/// next multiple of 16 bytes.
pub open spec fn pad_spec(message: Seq<u8>) -> Seq<u8> {
    message.push(MARKER) + Seq::new((15 - message.len() % 16) as nat, |i: int| 0u8)
}

/// The place of the first marker byte in a byte sequence, or the length of
/// the sequence if it holds none.
pub open spec fn marker_pos(bytes: Seq<u8>) -> int
    decreases bytes.len(),
{
    if bytes.len() == 0 {
        0
    } else if bytes[0] == MARKER {
        0
    } else {
        1 + marker_pos(bytes.drop_first())
    }
}

/// A byte sequence cut off at its first marker byte, or whole if it holds none.
pub open spec fn depad_spec(bytes: Seq<u8>) -> Seq<u8> {
    bytes.take(marker_pos(bytes))
}

/// The blocks of a byte sequence: 16 bytes each, the last one filled up with
/// zeros where the sequence ends early.
pub open spec fn blocks_spec(bytes: Seq<u8>) -> Seq<Block> {
    Seq::new(((bytes.len() + 15) / 16) as nat, |k: int| block_at(bytes, 16 * k))
}

/// The bytes of a sequence of blocks, block after block.
pub open spec fn join_spec(blocks: Seq<Block>) -> Seq<u8> {
    Seq::new(16 * blocks.len(), |i: int| blocks[i / 16][(i % 16) / 4][i % 4])
}

/// A padded message is longer than the message by 1 to 16 bytes and fills
/// whole blocks.
pub proof fn lemma_pad_length(message: Seq<u8>)
    ensures
        pad_spec(message).len() == 16 * (message.len() / 16 + 1),
        pad_spec(message).len() % 16 == 0,
        message.len() < pad_spec(message).len() <= message.len() + 16,
{
}

/// `marker_pos` is in range, no marker stands before it, and one stands at
/// it unless it is the length.
pub proof fn lemma_marker_pos(bytes: Seq<u8>)
    ensures
        0 <= marker_pos(bytes) <= bytes.len(),
        forall|i: int| 0 <= i < marker_pos(bytes) ==> bytes[i] != MARKER,
        marker_pos(bytes) < bytes.len() ==> bytes[marker_pos(bytes)] == MARKER,
    decreases bytes.len(),
{
    if bytes.len() > 0 && bytes[0] != MARKER {
        let rest = bytes.drop_first();
        lemma_marker_pos(rest);
        assert forall|i: int| 0 <= i < marker_pos(bytes) implies bytes[i] != MARKER by {
            if i > 0 {
                assert(bytes[i] == rest[i - 1]);
            }
        }
    }
}

/// Only one place has no marker before it and a marker, or the end, at it.
pub proof fn lemma_marker_pos_unique(bytes: Seq<u8>, pos: int)
    requires
        0 <= pos <= bytes.len(),
        forall|i: int| 0 <= i < pos ==> bytes[i] != MARKER,
        pos < bytes.len() ==> bytes[pos] == MARKER,
    ensures
        marker_pos(bytes) == pos,
{
    lemma_marker_pos(bytes);
}

/// Taking the padding off a padded message gives the message up to its
/// first marker byte: the whole message if it holds none.
pub proof fn lemma_depad_inverts_pad(message: Seq<u8>)
    ensures
        depad_spec(pad_spec(message)) == message.take(marker_pos(message)),
        !message.contains(MARKER) ==> depad_spec(pad_spec(message)) == message,
{
    let padded = pad_spec(message);
    let pos = marker_pos(message);
    lemma_marker_pos(message);
    lemma_marker_pos_unique(padded, pos);
    assert(padded.take(pos) =~= message.take(pos));
    if !message.contains(MARKER) {
        if pos < message.len() {
            assert(message.contains(message[pos]));
        }
        assert(message.take(pos) =~= message);
    }
}

/// Cutting the joined bytes of blocks into blocks gives the blocks back.
pub proof fn lemma_blocks_of_join(blocks: Seq<Block>)
    ensures
        blocks_spec(join_spec(blocks)) == blocks,
{
    let bytes = join_spec(blocks);
    assert forall|k: int| 0 <= k < blocks.len() implies block_at(bytes, 16 * k) == blocks[k] by {
        lemma_block_equal(block_at(bytes, 16 * k), blocks[k]);
    }
    assert(blocks_spec(bytes) =~= blocks);
}

/// Joining the blocks of a byte sequence that fills whole blocks gives the
/// sequence back.
pub proof fn lemma_join_of_blocks(bytes: Seq<u8>)
    requires
        bytes.len() % 16 == 0,
    ensures
        join_spec(blocks_spec(bytes)) == bytes,
{
    assert(join_spec(blocks_spec(bytes)) =~= bytes);
}

impl AESteve {
    /// Appends the marker byte to a message and then zeros, until the length
    /// is a multiple of 16.
    pub fn pad(message: Vec<u8>) -> (padded: Vec<u8>)
        ensures
            padded@ == pad_spec(message@),
    {
        let ghost unpadded = message@;
        let mut message = message;
        message.push(MARKER);
        let ghost mut zeros: nat = 0;
        while message.len() % 16 != 0
            invariant
                zeros + unpadded.len() % 16 <= 15,
                message@ == unpadded.push(MARKER) + Seq::new(zeros, |i: int| 0u8),
            decreases 15 - unpadded.len() % 16 - zeros,
        {
            message.push(0x00);
            proof {
                assert(message@ =~= unpadded.push(MARKER) + Seq::new(zeros + 1, |i: int| 0u8));
                zeros = zeros + 1;
            }
        }
        assert(zeros == 15 - unpadded.len() % 16);
        message
    }

    /// Cuts a byte sequence off at its first marker byte. Without a marker
    /// the sequence comes back whole.
    pub fn depad(message: Vec<u8>) -> (bare: Vec<u8>)
        ensures
            bare@ == depad_spec(message@),
    {
        let mut message = message;
        let mut pos: usize = 0;
        while pos < message.len() && message[pos] != MARKER
            invariant
                pos <= message.len(),
                forall|i: int| 0 <= i < pos ==> message@[i] != MARKER,
            decreases message.len() - pos,
        {
            pos += 1;
        }
        proof {
            lemma_marker_pos_unique(message@, pos as int);
        }
        message.truncate(pos);
        message
    }

    /// Cuts a byte sequence into blocks of 16 bytes, filling the last block
    /// up with zeros where the sequence ends early.
    pub fn make_blocks(padded_message: Vec<u8>) -> (blocks: Vec<Block>)
        ensures
            blocks@ == blocks_spec(padded_message@),
    {
        let len = padded_message.len();
        let count = if len % 16 == 0 {
            len / 16
        } else {
            len / 16 + 1
        };
        let mut blocks: Vec<Block> = Vec::new();
        for k in 0..count
            invariant
                len == padded_message@.len(),
                count == (len + 15) / 16,
                blocks@.len() == k,
                forall|j: int| 0 <= j < k ==> blocks@[j] == block_at(padded_message@, 16 * j),
        {
            let start = 16 * k;
            let mut block = [[0u8; 4]; 4];
            for i in 0..16usize
                invariant
                    len == padded_message@.len(),
                    start == 16 * k,
                    start <= len,
                    forall|c: int, r: int|
                        0 <= c < 4 && 0 <= r < 4 && 4 * c + r < i ==> block[c][r] == byte_or_zero(
                            padded_message@,
                            start + 4 * c + r,
                        ),
                    forall|c: int, r: int|
                        0 <= c < 4 && 0 <= r < 4 && 4 * c + r >= i ==> block[c][r] == 0,
            {
                if i < len - start {
                    block[i / 4][i % 4] = padded_message[start + i];
                }
            }
            proof {
                lemma_block_equal(block, block_at(padded_message@, 16 * k));
            }
            blocks.push(block);
        }
        assert(blocks@ =~= blocks_spec(padded_message@));
        blocks
    }

    /// Writes the bytes of a sequence of blocks out, block after block.
    pub fn join_blocks(blocks: Vec<Block>) -> (bytes: Vec<u8>)
        ensures
            bytes@ == join_spec(blocks@),
    {
        let mut bytes: Vec<u8> = Vec::new();
        for k in 0..blocks.len()
            invariant
                bytes@.len() == 16 * k,
                forall|i: int|
                    0 <= i < 16 * k ==> bytes@[i] == blocks@[i / 16][(i % 16) / 4][i % 4],
        {
            for j in 0..16usize
                invariant
                    k < blocks@.len(),
                    bytes@.len() == 16 * k + j,
                    forall|i: int|
                        0 <= i < 16 * k + j ==> bytes@[i] == blocks@[i / 16][(i % 16) / 4][i % 4],
            {
                bytes.push(blocks[k][j / 4][j % 4]);
            }
        }
        assert(bytes@ =~= join_spec(blocks@));
        bytes
    }
}

} // verus!
