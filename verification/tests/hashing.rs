use dtriage::triage::{hash_bytes, FileHasher};
use dtriage::triage::hasher::encode_hex;

#[test]
fn test_compute_file_hash() {
    let hash = hash_bytes(b"test content");

    // SHA-256 hash should be 64 hex characters
    assert_eq!(hash.len(), 64);
    assert_eq!(hash, "6ae8a75555209fd6c44157c0aed8016e763ff435a19cf186f76863140143ff72");
}

#[test]
fn test_hasher_computes_hash() {
    let hash = hash_bytes(b"test content for hashing");

    // SHA-256 hash should be 64 hex characters
    assert_eq!(hash.len(), 64);

    // Same content should produce same hash
    let hash2 = hash_bytes(b"test content for hashing");
    assert_eq!(hash, hash2);
    assert_eq!(hash, "e25dd806d495b413931f4eea50b677a7a5c02d00460924661283f211a37f7e7f");
}

#[test]
fn empty_input_hash() {
    assert_eq!(
        hash_bytes(b""),
        "e3b0c44298fc1c149afbf4c8996fb92427ae41e4649b934ca495991b7852b855"
    );
}

#[test]
fn hex_is_lowercase_two_digits_per_byte() {
    assert_eq!(encode_hex(&[]), "");
    assert_eq!(encode_hex(&[0x00, 0x0f, 0xa5, 0xff]), "000fa5ff");
    assert_eq!(encode_hex(&[0xbe, 0xef]), "beef");
}

#[test]
fn hashing_in_pieces_matches_hashing_at_once() {
    let mut hasher = FileHasher::new();
    hasher.update(b"test ");
    hasher.update(b"");
    hasher.update(b"content");
    let hash = hasher.finish();
    assert_eq!(hash, "6ae8a75555209fd6c44157c0aed8016e763ff435a19cf186f76863140143ff72");
    assert_eq!(hash, hash_bytes(b"test content"));
}

#[test]
fn hasher_fed_nothing_gives_the_empty_fingerprint() {
    assert_eq!(
        FileHasher::new().finish(),
        "e3b0c44298fc1c149afbf4c8996fb92427ae41e4649b934ca495991b7852b855"
    );
}
