//! The hasher engine: an incremental, keyable, extendable-output hasher over
//! the BLAKE3 primitive. The primitive's own mathematics is an opaque
//! collaborator; this layer states and verifies the lifecycle: mode selection
//! at construction, order-preserving incremental update, non-destructive
//! finalize, seekable extendable output, and reset.

use vstd::prelude::*;

use crate::model::{digest_of, stream_byte, utf8_lossy, xof_prefix, xof_window, Mode};

verus! {

/// Declares the primitive's hasher type so that it can stand in a field; a
/// value of it is opaque here, and the ghost state beside it tracks what it
/// holds.
#[verifier::external_type_specification]
#[verifier::external_body]
pub struct ExBlake3(blake3::Hasher);

/// An incremental hasher over one construction mode.
///
/// The ghost state records the mode chosen at construction and the ordered
/// concatenation of all bytes absorbed since construction or the last reset;
/// every digest and extendable-output read is a pure function of those two.
pub struct Engine {
    inner: blake3::Hasher,
    m: Ghost<Mode>,
    bytes: Ghost<Seq<u8>>,
}

impl Engine {
    /// The construction mode of this hasher; never changes after construction.
    pub closed spec fn mode(self) -> Mode {
        self.m@
    }

    /// The ordered concatenation of all bytes absorbed so far.
    pub closed spec fn absorbed(self) -> Seq<u8> {
        self.bytes@
    }

    /// Constructs a hasher for the regular hash function.
    pub fn new() -> (h: Engine)
        ensures
            h.mode() == Mode::Standard,
            h.absorbed() == Seq::<u8>::empty(),
    {
        Engine { inner: raw_new(), m: Ghost(Mode::Standard), bytes: Ghost(Seq::empty()) }
    }

    /// Constructs a hasher for the keyed hash function; the key is exactly 32
    /// bytes, and the same key is fully reproducible.
    pub fn new_keyed(key: &[u8; 32]) -> (h: Engine)
        ensures
            h.mode() == Mode::Keyed(key@),
            h.absorbed() == Seq::<u8>::empty(),
    {
        Engine { inner: raw_new_keyed(key), m: Ghost(Mode::Keyed(key@)), bytes: Ghost(Seq::empty()) }
    }

    /// Constructs a hasher for the key-derivation function. The context bytes
    /// are interpreted as UTF-8; invalid sequences are lossily substituted,
    /// never rejected, so construction cannot fail.
    pub fn new_derive_key(context: &[u8]) -> (h: Engine)
        ensures
            h.mode() == Mode::DeriveKey(utf8_lossy(context@)),
            h.absorbed() == Seq::<u8>::empty(),
    {
        let repaired = lossy_string(context);
        Engine {
            inner: raw_new_derive_key(repaired.as_str()),
            m: Ghost(Mode::DeriveKey(repaired@)),
            bytes: Ghost(Seq::empty()),
        }
    }

    /// Appends `input` to the logical input stream. A zero-length input is a
    /// no-op, and only the concatenation of all updates matters: chunking is
    /// never observable in any later digest or extendable output.
    pub fn update(&mut self, input: &[u8])
        ensures
            final(self).mode() == old(self).mode(),
            final(self).absorbed() == old(self).absorbed() + input@,
    {
        raw_update(self, input)
    }

    /// As `update`, through the primitive's internally parallelized path: a
    /// performance variant that is observably indistinguishable from it.
    pub fn update_parallel(&mut self, input: &[u8])
        ensures
            final(self).mode() == old(self).mode(),
            final(self).absorbed() == old(self).absorbed() + input@,
    {
        raw_update_parallel(self, input)
    }

    /// Produces the fixed 32-byte digest of the input absorbed so far: a pure
    /// projection of the current state. It neither consumes nor perturbs the
    /// hasher, so finalizing twice yields byte-identical digests, and further
    /// updates remain well-defined afterward.
    pub fn finalize(&self) -> (digest: [u8; 32])
        ensures
            digest@ == digest_of(self.mode(), self.absorbed()),
    {
        raw_finalize(self)
    }

    /// Produces the first `len` bytes of the extendable output stream. Like
    /// `finalize`, a non-destructive projection of the current state.
    pub fn finalize_xof(&self, len: usize) -> (out: Vec<u8>)
        ensures
            out@ == xof_prefix(self.mode(), self.absorbed(), len as int),
    {
        let out = raw_xof_at(self, 0, len);
        proof {
            assert(out@ =~= xof_prefix(self.mode(), self.absorbed(), len as int));
        }
        out
    }

    /// Produces `len` bytes of the extendable output stream starting at
    /// absolute position `offset`, without materializing the bytes before it.
    /// The stream ends at position 2^64 - 1, which bounds `offset + len`.
    pub fn finalize_seek_xof(&self, offset: u64, len: usize) -> (out: Vec<u8>)
        requires
            offset as int + len as int <= u64::MAX,
        ensures
            out@ == xof_window(self.mode(), self.absorbed(), offset as int, len as int),
    {
        let out = raw_xof_at(self, offset, len);
        proof {
            assert(out@ =~= xof_window(self.mode(), self.absorbed(), offset as int, len as int));
        }
        out
    }

    /// Restores the hasher to the state immediately following its original
    /// construction: same mode, same key or context, all absorbed input
    /// discarded.
    pub fn reset(&mut self)
        ensures
            final(self).mode() == old(self).mode(),
            final(self).absorbed() == Seq::<u8>::empty(),
    {
        raw_reset(self)
    }
}

/// Computes the regular-mode digest of `input` in one shot, equivalently to
/// constructing a standard hasher, absorbing `input` once, and finalizing.
pub fn hash(input: &[u8]) -> (digest: [u8; 32])
    ensures
        digest@ == digest_of(Mode::Standard, input@),
{
    raw_hash(input)
}

/// Relies on blake3::Hasher::new: a fresh hasher for the regular hash
/// function, with nothing absorbed; the verified constructor records that
/// mode and that empty input beside it.
#[verifier::external_body]
fn raw_new() -> blake3::Hasher {
    blake3::Hasher::new()
}

/// Relies on blake3::Hasher::new_keyed: a fresh hasher for the keyed hash
/// function under the given 32-byte key, with nothing absorbed; the verified
/// constructor records that mode and that empty input beside it.
#[verifier::external_body]
fn raw_new_keyed(key: &[u8; 32]) -> blake3::Hasher {
    blake3::Hasher::new_keyed(key)
}

/// Relies on blake3::Hasher::new_derive_key: a fresh hasher for the
/// key-derivation function under the given context string, with nothing
/// absorbed; the verified constructor records that mode and that empty input
/// beside it.
#[verifier::external_body]
fn raw_new_derive_key(context: &str) -> blake3::Hasher {
    blake3::Hasher::new_derive_key(context)
}

/// Relies on String::from_utf8_lossy: decodes the bytes as UTF-8,
/// substituting invalid sequences; the result depends on the bytes alone.
#[verifier::external_body]
fn lossy_string(bytes: &[u8]) -> (s: String)
    ensures
        s@ == utf8_lossy(bytes@),
{
    String::from_utf8_lossy(bytes).into_owned()
}

/// Relies on blake3::Hasher::update: appends the bytes to the hashed input
/// stream and changes nothing else.
#[verifier::external_body]
fn raw_update(h: &mut Engine, input: &[u8])
    ensures
        final(h).mode() == old(h).mode(),
        final(h).absorbed() == old(h).absorbed() + input@,
{
    h.inner.update(input);
}

/// Relies on blake3::Hasher::update_rayon: as update, but internally
/// multithreaded, with identical observable effect on the hash state.
#[verifier::external_body]
fn raw_update_parallel(h: &mut Engine, input: &[u8])
    ensures
        final(h).mode() == old(h).mode(),
        final(h).absorbed() == old(h).absorbed() + input@,
{
    h.inner.update_rayon(input);
}

/// Relies on blake3::Hasher::reset: restores the initial state while keeping
/// the key or context the hasher was constructed with.
#[verifier::external_body]
fn raw_reset(h: &mut Engine)
    ensures
        final(h).mode() == old(h).mode(),
        final(h).absorbed() == Seq::<u8>::empty(),
{
    h.inner.reset();
}

/// Relies on blake3::Hasher::finalize: the fixed 32-byte digest, which equals
/// the first 32 bytes of the extendable output stream; idempotent, and leaves
/// the state untouched.
#[verifier::external_body]
fn raw_finalize(h: &Engine) -> (digest: [u8; 32])
    ensures
        digest@ == digest_of(h.mode(), h.absorbed()),
{
    *h.inner.finalize().as_bytes()
}

/// Relies on blake3::Hasher::finalize_xof, OutputReader::set_position and
/// OutputReader::fill: fill copies successive bytes of the one output stream
/// from the position sought, shorter outputs being prefixes of longer ones;
/// the stream's last position is 2^64 - 1, which the precondition respects.
#[verifier::external_body]
fn raw_xof_at(h: &Engine, offset: u64, len: usize) -> (out: Vec<u8>)
    requires
        offset as int + len as int <= u64::MAX,
    ensures
        out@.len() == len,
        forall|i: int|
            0 <= i < len ==> out@[i] == stream_byte(h.mode(), h.absorbed(), offset + i),
{
    let mut out = vec![0u8; len];
    let mut reader = h.inner.finalize_xof();
    reader.set_position(offset);
    reader.fill(&mut out);
    out
}

/// Relies on blake3::hash: documented to equal
/// blake3::Hasher::new().update(input).finalize().
#[verifier::external_body]
fn raw_hash(input: &[u8]) -> (digest: [u8; 32])
    ensures
        digest@ == digest_of(Mode::Standard, input@),
{
    *blake3::hash(input).as_bytes()
}

} // verus!
