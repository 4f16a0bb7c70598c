use blake3_engine::engine::hash;
use blake3_engine::engine::Engine;

fn hex(bytes: &[u8]) -> String {
    let mut s = String::new();
    for b in bytes {
        s.push_str(&format!("{:02x}", b));
    }
    s
}

// The primitive's known digest of the empty input, in the regular mode.
const EMPTY_DIGEST_HEX: &str = "af1349b9f5f9a1a6a0404dea36dcc9499bcb25c9adc112b7cc9a93cae41f3262";

#[test]
fn empty_input_known_digest() {
    let h = Engine::new();
    let digest = h.finalize();
    assert_eq!(hex(&digest), EMPTY_DIGEST_HEX);
    let one_shot = hash(&[]);
    assert_eq!(hex(&one_shot), EMPTY_DIGEST_HEX);
}

#[test]
fn chunking_is_invisible() {
    let mut whole = Engine::new();
    whole.update(b"abc");

    let mut pieces = Engine::new();
    pieces.update(b"a");
    pieces.update(b"b");
    pieces.update(b"c");

    assert_eq!(whole.finalize(), pieces.finalize());

    let mut empty_chunks = Engine::new();
    empty_chunks.update(b"");
    empty_chunks.update(b"abc");
    empty_chunks.update(b"");
    assert_eq!(whole.finalize(), empty_chunks.finalize());
}

#[test]
fn one_shot_equals_incremental() {
    let mut h = Engine::new();
    h.update(b"abc");
    assert_eq!(hash(b"abc"), h.finalize());
}

#[test]
fn determinism_across_instances() {
    let key = [7u8; 32];
    let mut a = Engine::new_keyed(&key);
    a.update(b"first");
    a.update(b"second");
    let mut b = Engine::new_keyed(&key);
    b.update(b"first");
    b.update(b"second");
    assert_eq!(a.finalize(), b.finalize());
    assert_eq!(a.finalize_xof(48), b.finalize_xof(48));
}

#[test]
fn keyed_zero_key_empty_input() {
    let zero_key = [0u8; 32];
    let first = Engine::new_keyed(&zero_key).finalize();
    let second = Engine::new_keyed(&zero_key).finalize();
    assert_eq!(first, second);
    assert_ne!(hex(&first), EMPTY_DIGEST_HEX);
}

#[test]
fn key_sensitivity() {
    let mut with_zeros = Engine::new_keyed(&[0u8; 32]);
    let mut with_ones = Engine::new_keyed(&[1u8; 32]);
    with_zeros.update(b"sample input");
    with_ones.update(b"sample input");
    assert_ne!(with_zeros.finalize(), with_ones.finalize());
}

#[test]
fn xof_prefix_consistency() {
    let mut h = Engine::new();
    h.update(b"stream me");
    let short = h.finalize_xof(32);
    let long = h.finalize_xof(96);
    assert_eq!(long.len(), 96);
    assert_eq!(&long[..32], &short[..]);
    assert_eq!(&long[..32], &h.finalize()[..]);
    assert!(h.finalize_xof(0).is_empty());
}

#[test]
fn seek_equals_sliced_stream() {
    let mut h = Engine::new();
    h.update(b"seek me");
    let long = h.finalize_xof(96);
    let window = h.finalize_seek_xof(32, 32);
    assert_eq!(&window[..], &long[32..64]);
    let tail = h.finalize_seek_xof(90, 6);
    assert_eq!(&tail[..], &long[90..96]);
    assert!(h.finalize_seek_xof(5, 0).is_empty());
}

#[test]
fn reset_equals_fresh_construction() {
    let mut recycled = Engine::new();
    recycled.update(b"stale bytes");
    recycled.reset();
    recycled.update(b"xyz");

    let mut fresh = Engine::new();
    fresh.update(b"xyz");
    assert_eq!(recycled.finalize(), fresh.finalize());
}

#[test]
fn reset_keeps_key_and_context() {
    let key = [9u8; 32];
    let mut keyed = Engine::new_keyed(&key);
    keyed.update(b"discard");
    keyed.reset();
    assert_eq!(keyed.finalize(), Engine::new_keyed(&key).finalize());

    let mut derive = Engine::new_derive_key(b"app v1 context");
    derive.update(b"discard");
    derive.reset();
    assert_eq!(derive.finalize(), Engine::new_derive_key(b"app v1 context").finalize());
}

#[test]
fn modes_are_distinct() {
    let mut standard = Engine::new();
    let mut keyed = Engine::new_keyed(&[0u8; 32]);
    let mut derive = Engine::new_derive_key(b"app v1 context");
    standard.update(b"material");
    keyed.update(b"material");
    derive.update(b"material");
    let d_standard = standard.finalize();
    let d_keyed = keyed.finalize();
    let d_derive = derive.finalize();
    assert_ne!(d_standard, d_keyed);
    assert_ne!(d_standard, d_derive);
    assert_ne!(d_keyed, d_derive);
}

#[test]
fn derive_key_context_is_lossily_repaired() {
    let malformed: [u8; 3] = [0x66, 0xff, 0x6f];
    let repaired = "f\u{fffd}o";
    let mut from_bytes = Engine::new_derive_key(&malformed);
    let mut from_repaired = Engine::new_derive_key(repaired.as_bytes());
    from_bytes.update(b"material");
    from_repaired.update(b"material");
    assert_eq!(from_bytes.finalize(), from_repaired.finalize());
}

#[test]
fn finalize_is_a_snapshot() {
    let mut h = Engine::new();
    h.update(b"ab");
    let first = h.finalize();
    let again = h.finalize();
    assert_eq!(first, again);

    h.update(b"c");
    assert_eq!(h.finalize(), hash(b"abc"));
    assert_ne!(h.finalize(), first);

    let xof = h.finalize_xof(32);
    assert_eq!(&xof[..], &h.finalize()[..]);
}

#[test]
fn parallel_update_matches_sequential() {
    let mut big = Vec::new();
    for i in 0..200_000usize {
        big.push((i % 251) as u8);
    }
    let mut sequential = Engine::new();
    sequential.update(&big);
    let mut parallel = Engine::new();
    parallel.update_parallel(&big);
    assert_eq!(sequential.finalize(), parallel.finalize());

    let mut small = Engine::new();
    small.update_parallel(b"abc");
    assert_eq!(small.finalize(), hash(b"abc"));
}
