use doppelganger::store::{file_row, has_valid_hash, hash_row, StoredHash, SCHEMA_SQL, UPSERT_FILE_SQL};

#[test]
fn file_row_small_size() {
    let r = file_row("a/b".to_string(), 123, 456);
    assert_eq!(r.path, "a/b");
    assert_eq!(r.size, 123);
    assert_eq!(r.mtime, 456);
}

#[test]
fn file_row_huge_size_wraps() {
    assert_eq!(file_row(String::new(), u64::MAX, 0).size, -1);
    assert_eq!(file_row(String::new(), 1u64 << 63, 0).size, i64::MIN);
    assert_eq!(file_row(String::new(), i64::MAX as u64, 0).size, i64::MAX);
}

#[test]
fn file_row_size_reads_back() {
    for s in [0u64, 1, 1 << 40, (1 << 63) + 5, u64::MAX] {
        assert_eq!(file_row(String::new(), s, 0).size as u64, s);
    }
}

#[test]
fn hash_row_fields() {
    let r = hash_row("p".to_string(), [9u8; 32], 1_700_000_000, Some(12));
    assert_eq!(r.path, "p");
    assert_eq!(r.hash, [9u8; 32]);
    assert_eq!(r.scanned_at, 1_700_000_000);
    assert_eq!(r.mtime, Some(12));
    assert_eq!(hash_row("p".to_string(), [0u8; 32], u64::MAX, None).scanned_at, -1);
}

#[test]
fn valid_hash_cases() {
    let full = |t| Some(StoredHash { hash: Some(vec![0u8; 32]), scanned_at: Some(t) });
    assert!(has_valid_hash(&full(100), 100));
    assert!(has_valid_hash(&full(101), 100));
    assert!(!has_valid_hash(&full(99), 100));
    assert!(!has_valid_hash(&None, 0));
    assert!(!has_valid_hash(&Some(StoredHash { hash: None, scanned_at: Some(5) }), 0));
    assert!(!has_valid_hash(&Some(StoredHash { hash: Some(vec![0u8; 32]), scanned_at: None }), 0));
    assert!(!has_valid_hash(&Some(StoredHash { hash: Some(vec![0u8; 31]), scanned_at: Some(5) }), 0));
}

#[test]
fn statements_name_the_table() {
    assert!(SCHEMA_SQL.contains("CREATE TABLE IF NOT EXISTS files"));
    assert!(UPSERT_FILE_SQL.contains("ON CONFLICT(path)"));
}
