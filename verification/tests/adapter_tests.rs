use blake3_adapter::Blake3;

fn finalize(a: Blake3, n: usize) -> Vec<u8> {
    let mut out = vec![0u8; n];
    a.finalize_into(&mut out);
    out
}

fn hash_once(message: &[u8], n: usize) -> Vec<u8> {
    let mut a = Blake3::new();
    a.update(message);
    finalize(a, n)
}

#[test]
fn determinism_same_message_same_output() {
    let message = b"some message, hashed twice with fresh adapters";
    for n in [1usize, 16, 32, 33, 64, 100] {
        assert_eq!(hash_once(message, n), hash_once(message, n));
    }
}

#[test]
fn chunk_invariance_any_split() {
    let message: Vec<u8> = (0u8..=255).collect();
    let whole = hash_once(&message, 32);
    for split in [0usize, 1, 7, 128, 255, 256] {
        let mut a = Blake3::new();
        a.update(&message[..split]);
        a.update(&message[split..]);
        assert_eq!(finalize(a, 32), whole);
    }
}

#[test]
fn output_length_prefix_property() {
    let message = b"prefix property";
    let short = hash_once(message, 10);
    let long = hash_once(message, 100);
    assert_eq!(short, long[..10]);
}

#[test]
fn wrap_unwrap_round_trip_preserves_state() {
    let mut native = blake3::Hasher::new();
    native.update(b"partial ");
    let control = native.clone();

    let wrapped = Blake3::from_hasher(native);
    let mut back = wrapped.into_hasher();

    back.update(b"message");
    let mut expected = control;
    expected.update(b"message");
    assert_eq!(back.finalize(), expected.finalize());
}

#[test]
fn wrapping_in_progress_engine_resumes_hashing() {
    let mut native = blake3::Hasher::new();
    native.update(b"foo");
    let mut a = Blake3::from_hasher(native);
    a.update(b"bar");
    assert_eq!(finalize(a, 32).as_slice(), blake3::hash(b"foobar").as_bytes());
}

#[test]
fn byte_sink_conformance() {
    let parts: [&[u8]; 4] = [b"writing", b" through", b" the", b" sink"];
    let mut a = Blake3::new();
    for part in parts {
        let consumed = a.write(part);
        assert_eq!(consumed, part.len());
        a.flush();
    }
    let direct = hash_once(b"writing through the sink", 32);
    assert_eq!(finalize(a, 32), direct);
}

#[test]
fn write_consumes_all_bytes_even_empty() {
    let mut a = Blake3::new();
    assert_eq!(a.write(b""), 0);
    assert_eq!(a.write(b"xy"), 2);
    a.flush();
    assert_eq!(finalize(a, 32), hash_once(b"xy", 32));
}

#[test]
fn empty_input_32_bytes_known_vector() {
    let out = hash_once(b"", 32);
    assert_eq!(
        hex::encode(&out),
        "af1349b9f5f9a1a6a0404dea36dcc9499bcb25c9adc112b7cc9a93cae41f3262"
    );
}

#[test]
fn single_zero_byte_16_and_64_known_vectors() {
    let long = hash_once(&[0x00], 64);
    assert_eq!(
        hex::encode(&long),
        "2d3adedff11b61f14c886e35afa036736dcd87a74d27b5c1510225d0f592e213\
         c3a6cb8bf623e20cdb535f8d1a5ffb86342d9c0b64aca3bce1d31f60adfa137b"
    );
    let short = hash_once(&[0x00], 16);
    assert_eq!(short, long[..16]);
}

#[test]
fn default_is_a_fresh_adapter() {
    let fresh = finalize(Blake3::default(), 32);
    assert_eq!(fresh, hash_once(b"", 32));
    assert_eq!(fresh.as_slice(), blake3::hash(b"").as_bytes());
}

#[test]
fn engine_gives_native_read_access() {
    let mut a = Blake3::new();
    a.update(b"abcde");
    assert_eq!(a.engine().count(), 5);
}

#[test]
fn engine_mut_gives_native_write_access() {
    let mut a = Blake3::new();
    a.engine_mut().update(b"native update");
    assert_eq!(
        finalize(a, 32).as_slice(),
        blake3::hash(b"native update").as_bytes()
    );
}

#[test]
fn engine_mut_reset_starts_over() {
    let mut a = Blake3::new();
    a.update(b"to be discarded");
    a.engine_mut().reset();
    a.update(b"kept");
    assert_eq!(finalize(a, 32), hash_once(b"kept", 32));
}

#[test]
fn large_input_and_large_output() {
    let message = vec![0xabu8; 10_000];
    let out = hash_once(&message, 1000);
    let mut native = blake3::Hasher::new();
    native.update(&message);
    let mut expected = vec![0u8; 1000];
    native.finalize_xof().fill(&mut expected);
    assert_eq!(out, expected);
}
