//! The index database: its statements, the values bound into them, and when a
//! stored digest still describes a file.
use vstd::prelude::*;

verus! {

/// Creates the `files` table and its indexes where they do not exist yet.
pub const SCHEMA_SQL: &'static str = "
    CREATE TABLE IF NOT EXISTS files (
        path        TEXT PRIMARY KEY,
        size        INTEGER NOT NULL,
        mtime       INTEGER NOT NULL,
        hash        BLOB,
        scanned_at  INTEGER
    );

    CREATE INDEX IF NOT EXISTS idx_files_size
        ON files(size);

    CREATE INDEX IF NOT EXISTS idx_files_hash
        ON files(hash);

    CREATE INDEX IF NOT EXISTS idx_files_size_hash
        ON files(size, hash);
";

/// Records a file's size and modification time (?1 path, ?2 size, ?3 mtime);
/// a file already recorded keeps its digest.
pub const UPSERT_FILE_SQL: &'static str = "INSERT INTO files (path, size, mtime)
    VALUES (?1, ?2, ?3)
    ON CONFLICT(path) DO UPDATE SET
        size = excluded.size,
        mtime = excluded.mtime";

/// Records a file's digest (?1 hash, ?2 scanned_at, ?3 path).
pub const UPDATE_HASH_SQL: &'static str = "UPDATE files
    SET hash = ?1,
        scanned_at = ?2
    WHERE path = ?3";

/// Records a file's digest with the modification time read after hashing
/// (?1 hash, ?2 scanned_at, ?3 mtime, ?4 path).
pub const UPDATE_HASH_MTIME_SQL: &'static str = "UPDATE files
    SET hash = ?1,
        scanned_at = ?2,
        mtime = ?3
    WHERE path = ?4";

/// Reads what is stored of a file's digest (?1 path).
pub const SELECT_HASH_SQL: &'static str = "SELECT hash, scanned_at FROM files WHERE path = ?1";

/// The integer that a `u64` becomes as SQLite's signed 64-bit INTEGER: its
/// bits read in two's complement.
pub open spec fn as_signed(v: u64) -> int {
    if v <= i64::MAX {
        v as int
    } else {
        v as int - 0x1_0000_0000_0000_0000
    }
}

fn to_signed(v: u64) -> (r: i64)
    ensures
        r as int == as_signed(v),
        r as u64 == v,
{
    let r = v as i64;
    assert(v > 0x7fff_ffff_ffff_ffff ==> (v as i64) as int == v as int - 0x1_0000_0000_0000_0000)
        by (bit_vector);
    assert(((v as i64) as u64) == v) by (bit_vector);
    r
}

/// The values bound into [`UPSERT_FILE_SQL`].
#[derive(Debug)]
pub struct FileRow {
    pub path: String,
    pub size: i64,
    pub mtime: i64,
}

/// The row for a file: its path as text, its size as a signed integer (bit for
/// bit, so that it reads back as the same `u64`) and its modification time.
pub fn file_row(path: String, size: u64, mtime: i64) -> (r: FileRow)
    ensures
        r.path@ == path@,
        r.size as int == as_signed(size),
        r.size as u64 == size,
        r.mtime == mtime,
{
    FileRow { path, size: to_signed(size), mtime }
}

/// The values bound into [`UPDATE_HASH_SQL`] (without `mtime`) or
/// [`UPDATE_HASH_MTIME_SQL`] (with it).
#[derive(Debug)]
pub struct HashRow {
    pub path: String,
    pub hash: [u8; 32],
    pub scanned_at: i64,
    pub mtime: Option<i64>,
}

/// The row that records a file's digest, scanned at `now_secs` seconds after
/// the epoch, with the modification time read after hashing where there is one.
pub fn hash_row(path: String, hash: [u8; 32], now_secs: u64, mtime: Option<i64>) -> (r: HashRow)
    ensures
        r.path@ == path@,
        r.hash == hash,
        r.scanned_at as int == as_signed(now_secs),
        r.mtime == mtime,
{
    HashRow { path, hash, scanned_at: to_signed(now_secs), mtime }
}

/// What the database holds of a file's digest.
#[derive(Debug)]
pub struct StoredHash {
    pub hash: Option<Vec<u8>>,
    pub scanned_at: Option<i64>,
}

/// A stored digest describes the file as it is when it is a full SHA-256
/// digest taken no earlier than the file's last modification.
pub open spec fn spec_has_valid_hash(stored: Option<StoredHash>, mtime: i64) -> bool {
    match stored {
        Some(s) => match (s.hash, s.scanned_at) {
            (Some(h), Some(t)) => h@.len() == 32 && t >= mtime,
            _ => false,
        },
        None => false,
    }
}

/// Whether the database already holds a digest of the file as it is now,
/// given what it holds for the file's path and the file's modification time.
pub fn has_valid_hash(stored: &Option<StoredHash>, mtime: i64) -> (r: bool)
    ensures
        r == spec_has_valid_hash(*stored, mtime),
{
    match stored {
        Some(s) => match (&s.hash, &s.scanned_at) {
            (Some(h), Some(t)) => h.len() == 32 && *t >= mtime,
            _ => false,
        },
        None => false,
    }
}

/// What is recorded by a digest row reads back as a current digest: a stored
/// full digest with the row's scan time counts as valid for a modification
/// time exactly when the scan time is not earlier than it.
pub proof fn lemma_recorded_hash_is_valid(stored: Vec<u8>, hash: [u8; 32], now_secs: u64, scanned_at: i64, mtime: i64)
    requires
        stored@ == hash@,
        scanned_at as int == as_signed(now_secs),
    ensures
        spec_has_valid_hash(Some((StoredHash { hash: Some(stored), scanned_at: Some(scanned_at) })), mtime)
            <==> as_signed(now_secs) >= mtime,
{
}

/// A row without a digest (a file just recorded, or never hashed) never
/// counts as holding a current digest, whatever its scan time; neither does a
/// file with no row at all.
pub proof fn lemma_no_digest_never_valid(scanned_at: Option<i64>, mtime: i64)
    ensures
        !spec_has_valid_hash(Some((StoredHash { hash: None, scanned_at })), mtime),
        !spec_has_valid_hash(None, mtime),
{
}

/// A digest counts as current only if it is a full 32-byte digest whose scan
/// time is known and not earlier than the file's modification time; every
/// such digest counts.
pub proof fn lemma_valid_hash_exactly(stored: Option<StoredHash>, mtime: i64)
    ensures
        spec_has_valid_hash(stored, mtime) <==> ({
            &&& stored is Some
            &&& stored->0.hash is Some
            &&& stored->0.hash->0@.len() == 32
            &&& stored->0.scanned_at is Some
            &&& stored->0.scanned_at->0 >= mtime
        }),
{
}

} // verus!
