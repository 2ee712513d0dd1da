use release_packer::digest::{
    is_fingerprint_text, sha256_digest, Digester, CHUNK_LEN, MAX_MESSAGE_LEN,
};

fn is_lower_hex(text: &str) -> bool {
    text.chars().all(|c| matches!(c, '0'..='9' | 'a'..='f'))
}

#[test]
fn digest_of_empty_input() {
    assert_eq!(
        sha256_digest(b"").unwrap(),
        "e3b0c44298fc1c149afbf4c8996fb92427ae41e4649b934ca495991b7852b855"
    );
}

#[test]
fn digest_of_hello_world() {
    assert_eq!(
        sha256_digest(b"hello world").unwrap(),
        "b94d27b9934d3e08a52e52d7da7dabfac484efe37a5380ee9088f7ace2efcde9"
    );
}

#[test]
fn digest_of_abc() {
    assert_eq!(
        sha256_digest(b"abc").unwrap(),
        "ba7816bf8f01cfea414140de5dae2223b00361a396177a9cb410ff61f20015ad"
    );
}

#[test]
fn digest_is_deterministic() {
    let data: Vec<u8> = (0..5000u32).map(|i| (i % 251) as u8).collect();
    let first = sha256_digest(&data).unwrap();
    let second = sha256_digest(&data).unwrap();
    assert_eq!(first, second);
}

#[test]
fn digest_changes_when_one_byte_changes() {
    assert_eq!(
        sha256_digest(b"abd").unwrap(),
        "a52d159f262b2c6ddb724a61840befc36eb30c88877a4030b65cbe86298449c9"
    );
    assert_ne!(sha256_digest(b"abc").unwrap(), sha256_digest(b"abd").unwrap());
    let mut data = vec![0u8; 2048];
    let before = sha256_digest(&data).unwrap();
    data[1500] = 1;
    let after = sha256_digest(&data).unwrap();
    assert_ne!(before, after);
}

#[test]
fn digest_is_64_lowercase_hex_characters() {
    let text = sha256_digest(b"ocp binary contents").unwrap();
    assert_eq!(text.len(), 64);
    assert!(is_lower_hex(&text));
    assert_eq!(text, "f1d1ba46f567eea9e8012ecfeef2c5e48b70fa4df72449d90e880f52185daea7");
}

#[test]
fn digest_of_exactly_one_chunk() {
    assert_eq!(CHUNK_LEN, 1024);
    assert_eq!(
        sha256_digest(&vec![b'a'; 1024]).unwrap(),
        "2edc986847e209b4016e141a6dc8716d3207350f416969382d431539bf292e4a"
    );
}

#[test]
fn digest_of_one_chunk_and_one_byte() {
    assert_eq!(
        sha256_digest(&vec![b'a'; 1025]).unwrap(),
        "4a82297889eb505cf6b5cbdf69977afab4632d6557539782f657bd7dc78091a5"
    );
}

#[test]
fn digest_of_several_chunks() {
    assert_eq!(
        sha256_digest(&vec![b'a'; 3000]).unwrap(),
        "556ac82f23f64d2f41b3fb3b9a171791364021aa95c0af6df9e2b5e1d88c8038"
    );
    let pattern: Vec<u8> = (0..9).flat_map(|_| 0..=255u8).collect();
    assert_eq!(
        sha256_digest(&pattern).unwrap(),
        "a8b2beedb2cb53792d92eb492452bf399e8ba7fa5659c1c916b0ec7410e06cc5"
    );
}

#[test]
fn digest_streamed_equals_one_shot() {
    let mut d = Digester::new();
    assert!(d.update(b"hello "));
    assert!(d.update(b"world"));
    assert_eq!(d.len(), 11);
    assert_eq!(d.finish(), sha256_digest(b"hello world").unwrap());
}

#[test]
fn digest_does_not_depend_on_the_cut() {
    let data: Vec<u8> = (0..3000u32).map(|i| (i * 7 % 256) as u8).collect();
    let whole = sha256_digest(&data).unwrap();
    for cut in [0usize, 1, 63, 64, 65, 1023, 1024, 1025, 2999, 3000] {
        let mut d = Digester::new();
        assert!(d.update(&data[..cut]));
        assert!(d.update(&data[cut..]));
        assert_eq!(d.len(), 3000);
        assert_eq!(d.finish(), whole);
    }
}

#[test]
fn digester_starts_empty() {
    let d = Digester::new();
    assert_eq!(d.len(), 0);
    assert_eq!(
        d.finish(),
        "e3b0c44298fc1c149afbf4c8996fb92427ae41e4649b934ca495991b7852b855"
    );
}

#[test]
fn digester_accepts_an_empty_chunk() {
    let mut d = Digester::new();
    assert!(d.update(b"abc"));
    assert!(d.update(b""));
    assert_eq!(d.len(), 3);
    assert_eq!(
        d.finish(),
        "ba7816bf8f01cfea414140de5dae2223b00361a396177a9cb410ff61f20015ad"
    );
}

#[test]
fn message_length_limit_is_two_to_the_61_minus_one() {
    assert_eq!(MAX_MESSAGE_LEN, (1u64 << 61) - 1);
}

#[test]
fn fingerprint_is_64_lowercase_hex_characters() {
    assert!(is_fingerprint_text(
        "e3b0c44298fc1c149afbf4c8996fb92427ae41e4649b934ca495991b7852b855"
    ));
    assert!(is_fingerprint_text(&sha256_digest(b"abc").unwrap()));
    assert!(is_fingerprint_text(&"0123456789abcdef".repeat(4)));
    assert!(!is_fingerprint_text(""));
    assert!(!is_fingerprint_text(&"0".repeat(63)));
    assert!(!is_fingerprint_text(&"0".repeat(65)));
    assert!(!is_fingerprint_text(
        "E3B0C44298FC1C149AFBF4C8996FB92427AE41E4649B934CA495991B7852B855"
    ));
    assert!(!is_fingerprint_text(&"g".repeat(64)));
    assert!(!is_fingerprint_text(&"/".repeat(64)));
    assert!(!is_fingerprint_text(&":".repeat(64)));
    assert!(!is_fingerprint_text(&"`".repeat(64)));
    assert!(!is_fingerprint_text(&"é".repeat(64)));
}
