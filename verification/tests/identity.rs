use bdrive::fs::hash::{Hasher, DIGEST_LEN, HASH_BUFFER_LEN, MAX_CONTENT_LEN};
use bdrive::fs::state::{Identity, LocalHashed};

const ABC: &str = "ba7816bf8f01cfea414140de5dae2223b00361a396177a9cb410ff61f20015ad";
const EMPTY: &str = "e3b0c44298fc1c149afbf4c8996fb92427ae41e4649b934ca495991b7852b855";

fn identity_in_chunks(content: &[u8], chunk: usize) -> Identity {
    let mut hasher = Hasher::new();
    for piece in content.chunks(chunk) {
        assert!(hasher.update(piece));
    }
    hasher.finish()
}

#[test]
fn identity_of_known_content() {
    let mut hasher = Hasher::new();
    assert!(hasher.update(b"abc"));
    let id = hasher.finish();
    assert_eq!(id.hash(), ABC);
    assert_eq!(id.size(), 3);
}

#[test]
fn identity_of_empty_content() {
    let id = Hasher::new().finish();
    assert_eq!(id.hash(), EMPTY);
    assert_eq!(id.size(), 0);
}

#[test]
fn identity_is_deterministic() {
    let content: Vec<u8> = (0..5000u32).map(|i| (i % 251) as u8).collect();
    let first = identity_in_chunks(&content, content.len());
    let second = identity_in_chunks(&content, content.len());
    assert_eq!(first.hash(), second.hash());
    assert_eq!(first.size(), second.size());
    assert!(first == second);
}

#[test]
fn identity_does_not_depend_on_chunking() {
    let content: Vec<u8> = (0..5000u32).map(|i| (i * 7 % 256) as u8).collect();
    let whole = identity_in_chunks(&content, content.len());
    for chunk in [1usize, 2, 63, 64, 65, 1000, HASH_BUFFER_LEN] {
        let pieces = identity_in_chunks(&content, chunk);
        assert!(pieces == whole, "chunks of {}", chunk);
        assert_eq!(pieces.size(), 5000);
    }
}

#[test]
fn identity_covers_the_whole_content() {
    let whole = identity_in_chunks(b"hello, world", 5);
    let prefix = identity_in_chunks(b"hello", 5);
    assert!(whole != prefix);
    assert_eq!(whole.hash(), "09ca7e4eaa6e8ae9c7d261167129184883644d07dfba7cbfbc4c8a2e08360d5b");
    assert_eq!(whole.size(), 12);
}

#[test]
fn digest_is_lowercase_hex_of_every_byte() {
    let id = identity_in_chunks(b"abc", 3);
    let text = id.hash();
    assert_eq!(text.len(), 64);
    assert!(text.chars().all(|c| c.is_ascii_digit() || ('a'..='f').contains(&c)));
}

#[test]
fn only_the_filled_part_of_a_buffer_is_absorbed() {
    let mut buffer = [0u8; HASH_BUFFER_LEN];
    buffer[..3].copy_from_slice(b"abc");
    buffer[3] = 0xff;
    let mut hasher = Hasher::new();
    assert!(hasher.absorb(&buffer, 3));
    let id = hasher.finish();
    assert_eq!(id.hash(), ABC);
    assert_eq!(id.size(), 3);
    let mut whole = Hasher::new();
    assert!(whole.absorb(b"abc", 3));
    assert!(whole.absorb(b"xyz", 0));
    assert_eq!(whole.finish().hash(), ABC);
}

#[test]
fn buffers_absorbed_in_turn_add_up() {
    let mut pieces = Hasher::new();
    assert!(pieces.absorb(b"hello, ??", 7));
    assert!(pieces.absorb(b"world!!!", 5));
    let id = pieces.finish();
    assert_eq!(id.size(), 12);
    assert!(id == identity_in_chunks(b"hello, world", 12));
}

#[test]
fn digest_is_thirty_two_bytes_in_hex() {
    assert_eq!(DIGEST_LEN, 32);
    for content in [&b""[..], &b"a"[..], &[0u8; 200][..]] {
        assert_eq!(identity_in_chunks(content, 64).hash().len(), 2 * DIGEST_LEN);
    }
}

#[test]
fn empty_chunks_change_nothing() {
    let mut hasher = Hasher::new();
    assert!(hasher.update(b""));
    assert!(hasher.update(b"abc"));
    assert!(hasher.update(b""));
    assert_eq!(hasher.finish().hash(), ABC);
}

#[test]
fn content_limit_is_the_largest_bit_count() {
    assert_eq!(MAX_CONTENT_LEN, u64::MAX / 8);
}

#[test]
fn identities_are_equal_when_both_parts_match() {
    let a = Identity::new(ABC.to_string(), 3);
    let b = Identity::new(ABC.to_string(), 3);
    let other_size = Identity::new(ABC.to_string(), 4);
    let other_hash = Identity::new(EMPTY.to_string(), 3);
    assert!(a == b);
    assert!(a != other_size);
    assert!(a != other_hash);
    assert!(a.clone() == a);
    assert_eq!(a.size(), 3);
    assert_eq!(a.hash(), ABC);
}

#[test]
fn local_hashed_wraps_an_identity() {
    let stage = LocalHashed::new(Identity::new(ABC.to_string(), 3));
    assert!(stage.local == Identity::new(ABC.to_string(), 3));
    assert!(stage == LocalHashed::new(Identity::new(ABC.to_string(), 3)));
}
