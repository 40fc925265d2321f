use doppelganger::entry::{keep_visited, visit_file, FileEntry};
use doppelganger::walk::{collect_files, found_file, FileStat, WalkItem};
use std::io;
use std::path::PathBuf;

fn err(msg: &str) -> io::Error {
    io::Error::new(io::ErrorKind::Other, msg.to_string())
}

#[test]
fn new_keeps_fields() {
    let e = FileEntry::new(PathBuf::from("/x/y"), 42, [7u8; 32]);
    assert_eq!(e.path, PathBuf::from("/x/y"));
    assert_eq!(e.size, 42);
    assert_eq!(e.hash, [7u8; 32]);
}

#[test]
fn visit_file_ok() {
    let e = visit_file(PathBuf::from("f"), Ok(10), Ok([1u8; 32])).unwrap();
    assert_eq!(e.path, PathBuf::from("f"));
    assert_eq!(e.size, 10);
    assert_eq!(e.hash, [1u8; 32]);
}

#[test]
fn visit_file_size_error_first() {
    let r = visit_file(PathBuf::from("f"), Err(err("size")), Err(err("hash")));
    assert_eq!(r.unwrap_err().to_string(), "size");
}

#[test]
fn visit_file_hash_error() {
    let r = visit_file(PathBuf::from("f"), Ok(3), Err(err("hash")));
    assert_eq!(r.unwrap_err().to_string(), "hash");
}

#[test]
fn keep_visited_drops_failures_in_order() {
    let results = vec![
        Ok(FileEntry::new(PathBuf::from("a"), 1, [1u8; 32])),
        Err(err("x")),
        Ok(FileEntry::new(PathBuf::from("b"), 2, [2u8; 32])),
        Err(err("y")),
    ];
    let kept = keep_visited(results);
    assert_eq!(kept.len(), 2);
    assert_eq!(kept[0].path, PathBuf::from("a"));
    assert_eq!(kept[1].path, PathBuf::from("b"));
    assert_eq!(kept[1].size, 2);
}

#[test]
fn keep_visited_empty() {
    assert!(keep_visited(Vec::new()).is_empty());
}

fn entry(p: &str, is_file: bool, stat: Option<FileStat>) -> WalkItem {
    WalkItem::Entry { path: PathBuf::from(p), is_file, stat }
}

#[test]
fn collect_files_keeps_files_in_order() {
    let items = vec![
        entry("d", false, None),
        entry("d/a", true, Some(FileStat { size: 1, mtime: 2 })),
        WalkItem::Unreadable,
        entry("d/b", true, None),
        entry("d/e", false, Some(FileStat { size: 0, mtime: 0 })),
    ];
    let files = collect_files(items);
    assert_eq!(files, vec![PathBuf::from("d/a"), PathBuf::from("d/b")]);
}

#[test]
fn found_file_with_stat() {
    let f = found_file(entry("a", true, Some(FileStat { size: 5, mtime: -3 }))).unwrap();
    assert_eq!(f.path, PathBuf::from("a"));
    assert_eq!(f.size, 5);
    assert_eq!(f.mtime, -3);
}

#[test]
fn found_file_without_stat_is_zero() {
    let f = found_file(entry("a", true, None)).unwrap();
    assert_eq!((f.size, f.mtime), (0, 0));
}

#[test]
fn found_file_skips_others() {
    assert!(found_file(entry("a", false, Some(FileStat { size: 5, mtime: 1 }))).is_none());
    assert!(found_file(WalkItem::Unreadable).is_none());
}
