use remote_backup::digest::{sha256_hex_of, StreamDigest};
use sha2::{Digest, Sha256};

#[test]
fn sha256_of_known_inputs() {
    assert_eq!(
        sha256_hex_of(b""),
        "e3b0c44298fc1c149afbf4c8996fb92427ae41e4649b934ca495991b7852b855"
    );
    assert_eq!(
        sha256_hex_of(b"abc"),
        "ba7816bf8f01cfea414140de5dae2223b00361a396177a9cb410ff61f20015ad"
    );
}

#[test]
fn digest_is_64_lower_hex_digits() {
    let hex = sha256_hex_of(b"The quick brown fox jumps over the lazy dog");
    assert_eq!(hex.len(), 64);
    assert!(hex.chars().all(|c| c.is_ascii_digit() || ('a'..='f').contains(&c)));
    assert_eq!(hex, hex::encode(Sha256::digest(b"The quick brown fox jumps over the lazy dog")));
}

#[test]
fn chunked_digest_equals_one_shot() {
    let data: Vec<u8> = (0..10_000u32).map(|i| (i % 251) as u8).collect();
    let mut d = StreamDigest::new();
    d.update(&data[..1]);
    d.update(&data[1..4096]);
    d.update(&data[4096..4096]);
    d.update(&data[4096..]);
    assert_eq!(d.finish(), sha256_hex_of(&data));
}

#[test]
fn chunk_order_matters() {
    let mut ab = StreamDigest::new();
    ab.update(b"a");
    ab.update(b"b");
    let mut ba = StreamDigest::new();
    ba.update(b"b");
    ba.update(b"a");
    let ab = ab.finish();
    assert_eq!(ab, sha256_hex_of(b"ab"));
    assert_ne!(ab, ba.finish());
}

#[test]
fn digest_agrees_with_the_hash_and_hex_crates() {
    let data = b"remote block device contents";
    let mut h = Sha256::new();
    h.update(data);
    assert_eq!(sha256_hex_of(data), hex::encode(h.finalize()));
    assert_eq!(StreamDigest::new().finish(), hex::encode(Sha256::digest(b"")));
}
