use varenizer::hasher::{digest_bytes, hex_string_u64, StreamingHasher};

#[test]
fn digest_of_empty_input() {
    assert_eq!(digest_bytes(&[]), "fnv1a64:cbf29ce484222325");
}

#[test]
fn digest_known_vectors() {
    assert_eq!(digest_bytes(b"a"), "fnv1a64:af63dc4c8601ec8c");
    assert_eq!(digest_bytes(b"abc"), "fnv1a64:e71fa2190541574b");
    assert_eq!(digest_bytes(b"hello world"), "fnv1a64:779a65e7023cd2e7");
}

#[test]
fn digest_has_algorithm_prefix() {
    let d = digest_bytes(b"abc");
    assert!(d.starts_with("fnv1a64:"));
    assert_eq!(d.len(), "fnv1a64:".len() + 16);
}

#[test]
fn hashing_same_content_twice_is_identical() {
    let content = b"some file content".to_vec();
    let first = digest_bytes(&content);
    let second = digest_bytes(&content);
    assert_eq!(first, second);
}

#[test]
fn chunking_does_not_change_the_digest() {
    let mut streamed = StreamingHasher::new();
    streamed.update(b"hello ");
    streamed.update(b"wor");
    streamed.update(b"");
    streamed.update(b"ld");
    assert_eq!(streamed.finalize(), digest_bytes(b"hello world"));
}

#[test]
fn hex_rendering_is_padded_lower_case() {
    assert_eq!(hex_string_u64(0), "0000000000000000");
    assert_eq!(hex_string_u64(0x0123456789abcdef), "0123456789abcdef");
    assert_eq!(hex_string_u64(u64::MAX), "ffffffffffffffff");
}
