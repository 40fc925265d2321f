//! A hashed file: its path, size and SHA-256 digest.
use crate::digest::{digest_hex, hex_lower};
use std::io;
use std::path::PathBuf;
use vstd::prelude::*;

verus! {

/// A file with its size in bytes and the SHA-256 digest of its contents.
#[derive(Debug)]
pub struct FileEntry {
    pub path: PathBuf,
    pub size: u64,
    pub hash: [u8; 32],
}

impl FileEntry {
    /// The entry for `path` with the given size and digest.
    pub fn new(path: PathBuf, size: u64, hash: [u8; 32]) -> (e: Self)
        ensures
            e.path == path,
            e.size == size,
            e.hash == hash,
    {
        FileEntry { path, size, hash }
    }

    /// The digest as 64 lower-case hexadecimal digits.
    pub fn hash_str(&self) -> (s: String)
        ensures
            s@ == hex_lower(self.hash@),
            s@.len() == 64,
    {
        digest_hex(&self.hash)
    }
}

/// The entry of a visited file, from the outcome of reading its size and the
/// outcome of hashing it. A failure to read the size is reported first; then a
/// failure to hash; otherwise the file's entry.
pub fn visit_file(
    path: PathBuf,
    size: Result<u64, io::Error>,
    hash: Result<[u8; 32], io::Error>,
) -> (r: Result<FileEntry, io::Error>)
    ensures
        r == (match size {
            Err(e) => Err(e),
            Ok(s) => match hash {
                Err(e) => Err(e),
                Ok(h) => Ok(FileEntry { path, size: s, hash: h }),
            },
        }),
{
    let size = size?;
    let hash = hash?;
    Ok(FileEntry::new(path, size, hash))
}

/// The entries of the visits that succeeded, in order.
pub open spec fn visited_entries(results: Seq<Result<FileEntry, io::Error>>) -> Seq<FileEntry>
    decreases results.len(),
{
    if results.len() == 0 {
        Seq::empty()
    } else {
        let rest = visited_entries(results.drop_last());
        match results.last() {
            Ok(e) => rest.push(e),
            Err(_) => rest,
        }
    }
}

/// Keeps the entries of the visits that succeeded, in their order, and drops
/// the failures.
pub fn keep_visited(results: Vec<Result<FileEntry, io::Error>>) -> (r: Vec<FileEntry>)
    ensures
        r@ == visited_entries(results@),
{
    let ghost all = results@;
    let mut kept: Vec<FileEntry> = Vec::new();
    for res in it: results.into_iter()
        invariant
            it.seq() == all,
            kept@ == visited_entries(all.take(it.index() as int)),
    {
        let ghost i = it.index() as int;
        proof {
            assert(all.take(i + 1).drop_last() =~= all.take(i));
        }
        match res {
            Ok(e) => kept.push(e),
            Err(_) => {},
        }
    }
    proof {
        assert(all.take(all.len() as int) =~= all);
    }
    kept
}

/// Every successful visit is kept, each once, in order, whatever its digest
/// or size: the kept entries are exactly the successful results.
pub proof fn lemma_every_visit_kept(results: Seq<Result<FileEntry, io::Error>>)
    ensures
        visited_entries(results) == results.filter(|r: Result<FileEntry, io::Error>| r is Ok).map_values(
            |r: Result<FileEntry, io::Error>| r->Ok_0,
        ),
    decreases results.len(),
{
    reveal_with_fuel(Seq::filter, 1);
    let pred = |r: Result<FileEntry, io::Error>| r is Ok;
    let get = |r: Result<FileEntry, io::Error>| r->Ok_0;
    if results.len() > 0 {
        lemma_every_visit_kept(results.drop_last());
        let sub = results.drop_last().filter(pred);
        if pred(results.last()) {
            assert(sub.push(results.last()).map_values(get) =~= sub.map_values(get).push(
                results.last()->Ok_0,
            ));
        }
    } else {
        assert(results.filter(pred).map_values(get) =~= Seq::<FileEntry>::empty());
    }
}

/// One more successful visit adds its entry at the end of the kept ones; one
/// more failure changes nothing.
pub proof fn lemma_visit_appends(results: Seq<Result<FileEntry, io::Error>>, e: FileEntry, err: io::Error)
    ensures
        visited_entries(results.push(Ok(e))) == visited_entries(results).push(e),
        visited_entries(results.push(Err(err))) == visited_entries(results),
{
    assert(results.push(Ok(e)).drop_last() =~= results);
    assert(results.push(Err(err)).drop_last() =~= results);
}

} // verus!
