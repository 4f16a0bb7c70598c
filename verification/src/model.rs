//! The mathematical model of the hasher: the construction modes, and the
//! conceptually infinite output stream that each (mode, input) pair
//! determines. The fixed digest and every extendable-output read are windows
//! into that one stream.

use vstd::prelude::*;

verus! {

/// The construction mode of a hasher, fixed for the lifetime of an instance.
///
/// `Keyed` carries the 32-byte key and `DeriveKey` the context string, so the
/// model distinguishes hashers built with different parameters.
pub enum Mode {
    /// The regular hash function, with no secret material.
    Standard,
    /// The keyed hash function; the key is exactly 32 bytes.
    Keyed(Seq<u8>),
    /// The key-derivation function, parameterized by a context string.
    DeriveKey(Seq<char>),
}

/// Byte `pos` of the conceptually infinite output stream that the hash
/// primitive assigns to a mode and an ordered input. The stream is a function
/// of the mode and the input alone; what its bytes are is the primitive's
/// business and is not stated here.
pub uninterp spec fn stream_byte(m: Mode, input: Seq<u8>, pos: int) -> u8;

/// The characters that lossy UTF-8 decoding yields for `bytes`: invalid
/// sequences are substituted, never rejected, and the result is a function of
/// the bytes alone.
pub uninterp spec fn utf8_lossy(bytes: Seq<u8>) -> Seq<char>;

/// The first `len` bytes of the output stream for a mode and an input.
pub open spec fn xof_prefix(m: Mode, input: Seq<u8>, len: int) -> Seq<u8> {
    Seq::new(len as nat, |i: int| stream_byte(m, input, i))
}

/// `len` bytes of the output stream starting at absolute position `offset`.
pub open spec fn xof_window(m: Mode, input: Seq<u8>, offset: int, len: int) -> Seq<u8> {
    Seq::new(len as nat, |i: int| stream_byte(m, input, offset + i))
}

/// The fixed 32-byte digest: the first 32 bytes of the output stream.
pub open spec fn digest_of(m: Mode, input: Seq<u8>) -> Seq<u8> {
    xof_prefix(m, input, 32)
}

/// The concatenation of an ordered sequence of chunks.
pub open spec fn concat_chunks(chunks: Seq<Seq<u8>>) -> Seq<u8>
    decreases chunks.len(),
{
    if chunks.len() == 0 {
        Seq::empty()
    } else {
        chunks.first() + concat_chunks(chunks.drop_first())
    }
}

/// The input a hasher has absorbed after starting from `prior` and being
/// updated once with each chunk, in order.
pub open spec fn absorb_all(prior: Seq<u8>, chunks: Seq<Seq<u8>>) -> Seq<u8>
    decreases chunks.len(),
{
    if chunks.len() == 0 {
        prior
    } else {
        absorb_all(prior + chunks.first(), chunks.drop_first())
    }
}

} // verus!
