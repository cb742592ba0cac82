use crate::block::Block;
use base64::Engine;
use rayon::iter::{IntoParallelIterator, ParallelIterator};
use vstd::prelude::*;
use vstd::utf8::{encode_utf8, valid_utf8};

verus! {

/// The error of `base64`'s decoder, carried through as an opaque value.
#[verifier::external_type_specification]
#[verifier::external_body]
pub struct ExDecodeError(base64::DecodeError);

/// The error of `String::from_utf8`, carried through as an opaque value.
#[verifier::external_type_specification]
#[verifier::external_body]
pub struct ExFromUtf8Error(std::string::FromUtf8Error);

/// The text that `base64`'s standard engine encodes a byte sequence to.
pub uninterp spec fn base64_text(bytes: Seq<u8>) -> Seq<char>;

/// The bytes that `base64`'s standard engine decodes a text to, or `None`
/// where it rejects the text.
pub uninterp spec fn base64_bytes(text: Seq<char>) -> Option<Seq<u8>>;

/// The length of the Base64 text of `len` bytes: four characters for every
/// three bytes, and four more for what is left over.
pub open spec fn base64_len(len: nat) -> nat {
    if len % 3 > 0 {
        len / 3 * 4 + 4
    } else {
        len / 3 * 4
    }
}

/// Whether the Base64 text of `len` bytes can be held in memory: no buffer
/// is longer than `isize::MAX` bytes.
pub open spec fn base64_len_fits(len: nat) -> bool {
    base64_len(len) <= isize::MAX
}

/// Calls `Engine::encode` of `base64` on its `STANDARD` engine.
///
/// Trusted: the result is the engine's encoding of the bytes, and the same
/// engine decodes that text back to the bytes. The engine writes symbols of
/// its alphabet with canonical padding, which is what its decoder accepts and
/// maps back through the inverse table; the crate's documentation of
/// `Engine::encode_slice` shows the round trip. The engine panics where it
/// cannot compute the length of the text or make a buffer of that length,
/// which the precondition excludes.
#[verifier::external_body]
pub(crate) fn base64_encode(bytes: &Vec<u8>) -> (text: String)
    requires
        base64_len_fits(bytes@.len()),
    ensures
        text@ == base64_text(bytes@),
        base64_bytes(text@) == Some(bytes@),
{
    base64::engine::general_purpose::STANDARD.encode(bytes)
}

/// Calls `Engine::decode` of `base64` on its `STANDARD` engine.
///
/// Trusted: the result is the engine's decoding of the text, an error
/// exactly where the engine rejects the text. Nothing is claimed of which
/// texts it rejects, nor of the error it gives.
#[verifier::external_body]
pub(crate) fn base64_decode(text: &str) -> (decoded: Result<Vec<u8>, base64::DecodeError>)
    ensures
        match decoded {
            Ok(bytes) => base64_bytes(text@) == Some(bytes@),
            Err(_) => base64_bytes(text@) is None,
        },
{
    base64::engine::general_purpose::STANDARD.decode(text)
}

/// Calls `String::from_utf8`.
///
/// Trusted: bytes that are valid UTF-8 give the string whose UTF-8 bytes
/// they are, any other bytes give an error. Nothing is claimed of the error.
#[verifier::external_body]
pub(crate) fn string_from_utf8(bytes: Vec<u8>) -> (text: Result<String, std::string::FromUtf8Error>)
    ensures
        match text {
            Ok(s) => valid_utf8(bytes@) && encode_utf8(s@) == bytes@,
            Err(_) => !valid_utf8(bytes@),
        },
{
    String::from_utf8(bytes)
}

/// Maps `f` over the blocks on `rayon`'s thread pool, with
/// `into_par_iter`, `map` and `collect`.
///
/// Trusted: the result holds, at every index, what `f` returns for the
/// block at that index, whichever thread computed it. A `Vec` is an indexed
/// parallel iterator, and `rayon` collects an indexed iterator in its order.
#[verifier::external_body]
pub(crate) fn par_map<F: Fn(Block) -> Block + Sync + Send>(blocks: Vec<Block>, f: F) -> (mapped:
    Vec<Block>)
    requires
        forall|i: int| 0 <= i < blocks@.len() ==> f.requires((#[trigger] blocks@[i],)),
    ensures
        mapped@.len() == blocks@.len(),
        forall|i: int| 0 <= i < blocks@.len() ==> f.ensures((blocks@[i],), #[trigger] mapped@[i]),
{
    blocks.into_par_iter().map(f).collect()
}

} // verus!
