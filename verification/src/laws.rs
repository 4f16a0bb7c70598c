//! The laws of the hasher engine, stated over the model and proved once and
//! for all: chunking invariance, determinism, extendable-output prefix
//! consistency, seek correctness, reset equivalence, and one-shot
//! equivalence.

use vstd::prelude::*;

use crate::model::{
    absorb_all, concat_chunks, digest_of, stream_byte, xof_prefix, xof_window, Mode,
};

verus! {

/// Absorbing chunks one update at a time appends exactly their concatenation
/// to the input already absorbed.
pub proof fn lemma_absorb_all_is_concat(prior: Seq<u8>, chunks: Seq<Seq<u8>>)
    ensures
        absorb_all(prior, chunks) == prior + concat_chunks(chunks),
    decreases chunks.len(),
{
    if chunks.len() == 0 {
        assert(prior + concat_chunks(chunks) =~= prior);
    } else {
        lemma_absorb_all_is_concat(prior + chunks.first(), chunks.drop_first());
        assert((prior + chunks.first()) + concat_chunks(chunks.drop_first()) =~= prior + (
        chunks.first() + concat_chunks(chunks.drop_first())));
    }
}

/// Chunking invariance: updating a fresh hasher once with each chunk in order
/// and then finalizing yields the same digest, and the same output stream, as
/// one update over the full concatenation.
pub proof fn lemma_chunking_invariance(m: Mode, chunks: Seq<Seq<u8>>)
    ensures
        digest_of(m, absorb_all(Seq::empty(), chunks)) == digest_of(m, concat_chunks(chunks)),
        forall|pos: int|
            stream_byte(m, absorb_all(Seq::empty(), chunks), pos) == stream_byte(
                m,
                concat_chunks(chunks),
                pos,
            ),
{
    lemma_absorb_all_is_concat(Seq::empty(), chunks);
    assert(Seq::<u8>::empty() + concat_chunks(chunks) =~= concat_chunks(chunks));
}

/// Determinism: the digest and every extendable-output window are functions
/// of the mode and of the absorbed bytes alone; equal modes and equal inputs
/// give byte-identical results.
pub proof fn lemma_determinism(m1: Mode, input1: Seq<u8>, m2: Mode, input2: Seq<u8>)
    requires
        m1 == m2,
        input1 == input2,
    ensures
        digest_of(m1, input1) == digest_of(m2, input2),
        forall|len: int| xof_prefix(m1, input1, len) == xof_prefix(m2, input2, len),
        forall|offset: int, len: int|
            xof_window(m1, input1, offset, len) == xof_window(m2, input2, offset, len),
{
}

/// Prefix consistency: for any two requested lengths, the shorter extendable
/// output is a prefix of the longer one; the stream is genuinely extendable,
/// not re-derived per length.
pub proof fn lemma_xof_prefix_consistency(m: Mode, input: Seq<u8>, short: int, long: int)
    requires
        0 <= short <= long,
    ensures
        xof_prefix(m, input, short) == xof_prefix(m, input, long).take(short),
{
    assert(xof_prefix(m, input, short) =~= xof_prefix(m, input, long).take(short));
}

/// The fixed digest is itself a window into the stream: the 32-byte prefix of
/// every extendable output of at least 32 bytes.
pub proof fn lemma_digest_is_xof_prefix(m: Mode, input: Seq<u8>, len: int)
    requires
        32 <= len,
    ensures
        digest_of(m, input) == xof_prefix(m, input, len).take(32),
{
    lemma_xof_prefix_consistency(m, input, 32, len);
}

/// Seek correctness: reading `len` bytes at absolute position `offset` equals
/// generating the stream from the start through `offset + len` and slicing;
/// seeking changes the access pattern, never the values.
pub proof fn lemma_seek_correctness(m: Mode, input: Seq<u8>, offset: int, len: int)
    requires
        0 <= offset,
        0 <= len,
    ensures
        xof_window(m, input, offset, len) == xof_prefix(m, input, offset + len).subrange(
            offset,
            offset + len,
        ),
{
    assert(xof_window(m, input, offset, len) =~= xof_prefix(m, input, offset + len).subrange(
        offset,
        offset + len,
    ));
}

/// Reset equivalence: a reset hasher has the same mode and the same (empty)
/// absorbed input as a freshly constructed hasher with the same parameters,
/// so any later update and finalize sequence yields identical results.
pub proof fn lemma_reset_equivalence(m: Mode, later: Seq<u8>)
    ensures
        digest_of(m, Seq::empty() + later) == digest_of(m, later),
        forall|len: int|
            xof_prefix(m, Seq::empty() + later, len) == xof_prefix(m, later, len),
{
    assert(Seq::<u8>::empty() + later =~= later);
}

/// One-shot equivalence: the stateless hash of `input` equals constructing a
/// standard hasher, absorbing `input` once, and finalizing.
pub proof fn lemma_one_shot_equivalence(input: Seq<u8>)
    ensures
        digest_of(Mode::Standard, Seq::empty() + input) == digest_of(Mode::Standard, input),
{
    assert(Seq::<u8>::empty() + input =~= input);
}

} // verus!
