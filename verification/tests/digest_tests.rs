use doppelganger::digest::HashState;
use doppelganger::entry::FileEntry;
use std::path::PathBuf;

fn hex(bytes: &[u8]) -> String {
    bytes.iter().map(|b| format!("{:02x}", b)).collect()
}

fn digest_of_reads(reads: &[&[u8]]) -> [u8; 32] {
    let mut state = HashState::new();
    let mut buffer = [0u8; 8];
    for chunk in reads {
        buffer[..chunk.len()].copy_from_slice(chunk);
        assert!(state.absorb_read(&buffer, chunk.len()));
    }
    assert!(!state.absorb_read(&buffer, 0));
    state.finish()
}

#[test]
fn empty_input_digest() {
    let d = HashState::new().finish();
    assert_eq!(
        hex(&d),
        "e3b0c44298fc1c149afbf4c8996fb92427ae41e4649b934ca495991b7852b855"
    );
}

#[test]
fn abc_digest() {
    let d = digest_of_reads(&[b"abc"]);
    assert_eq!(
        hex(&d),
        "ba7816bf8f01cfea414140de5dae2223b00361a396177a9cb410ff61f20015ad"
    );
}

#[test]
fn chunking_does_not_change_digest() {
    let whole = digest_of_reads(&[b"abcdefgh", b"ijklmnop"]);
    let split = digest_of_reads(&[b"abc", b"defghij", b"k", b"lmnop"]);
    assert_eq!(whole, split);
}

#[test]
fn only_bytes_read_are_consumed() {
    let mut state = HashState::new();
    // the tail of the buffer holds stale bytes that must not be hashed
    let buffer = *b"abcXXXXX";
    assert!(state.absorb_read(&buffer, 3));
    assert!(!state.absorb_read(&buffer, 0));
    assert_eq!(state.finish(), digest_of_reads(&[b"abc"]));
}

#[test]
fn hash_str_is_lower_hex() {
    let mut hash = [0u8; 32];
    hash[0] = 0xab;
    hash[1] = 0x0f;
    hash[31] = 0xf0;
    let e = FileEntry::new(PathBuf::from("a"), 1, hash);
    let s = e.hash_str();
    assert_eq!(s.len(), 64);
    assert!(s.starts_with("ab0f00"));
    assert!(s.ends_with("00f0"));
    assert_eq!(s, hex(&hash));
}

#[test]
fn hash_str_of_digest() {
    let e = FileEntry::new(PathBuf::from("abc.txt"), 3, digest_of_reads(&[b"abc"]));
    assert_eq!(
        e.hash_str(),
        "ba7816bf8f01cfea414140de5dae2223b00361a396177a9cb410ff61f20015ad"
    );
}
