use doppelganger::cli::{run, Cli};
use doppelganger::parallel::{visit_files, DbMessage};
use doppelganger::shared_channel::{
    hash_job, hash_reply, FileIndexEvent, IndexCommand, IndexEvent, IndexWorker,
};
use std::io;
use std::path::PathBuf;

#[test]
fn insert_then_request_when_valid() {
    let (mut w, c) = IndexWorker::start();
    assert!(matches!(c, IndexCommand::Receive));
    let c = w.next(IndexEvent::Received(Some(FileIndexEvent::InsertFile {
        path: PathBuf::from("a"),
        size: 3,
        mtime: 4,
    })));
    match c {
        IndexCommand::StoreFile { path, size, mtime } => {
            assert_eq!(path, PathBuf::from("a"));
            assert_eq!((size, mtime), (3, 4));
        }
        other => panic!("{:?}", other),
    }
    match w.next(IndexEvent::FileStored { has_valid_hash: true }) {
        IndexCommand::RequestHash { path } => assert_eq!(path, PathBuf::from("a")),
        other => panic!("{:?}", other),
    }
    assert!(matches!(w.next(IndexEvent::HashRequested), IndexCommand::Receive));
}

#[test]
fn insert_without_valid_hash_requests_nothing() {
    let (mut w, _) = IndexWorker::start();
    w.next(IndexEvent::Received(Some(FileIndexEvent::InsertFile {
        path: PathBuf::from("a"),
        size: 3,
        mtime: 4,
    })));
    let c = w.next(IndexEvent::FileStored { has_valid_hash: false });
    assert!(matches!(c, IndexCommand::Receive));
}

#[test]
fn update_hash_is_stored_and_requests_ignored() {
    let (mut w, _) = IndexWorker::start();
    match w.next(IndexEvent::Received(Some(FileIndexEvent::UpdateHash {
        path: PathBuf::from("b"),
        hash: [5u8; 32],
    }))) {
        IndexCommand::StoreHash { path, hash } => {
            assert_eq!(path, PathBuf::from("b"));
            assert_eq!(hash, [5u8; 32]);
        }
        other => panic!("{:?}", other),
    }
    assert!(matches!(w.next(IndexEvent::HashStored), IndexCommand::Receive));
    let c = w.next(IndexEvent::Received(Some(FileIndexEvent::NeedsHash { path: PathBuf::from("b") })));
    assert!(matches!(c, IndexCommand::Receive));
}

#[test]
fn closed_channel_finishes_for_good() {
    let (mut w, _) = IndexWorker::start();
    assert!(matches!(w.next(IndexEvent::Received(None)), IndexCommand::Finish));
    assert!(matches!(w.next(IndexEvent::HashStored), IndexCommand::Finish));
}

#[test]
fn hash_job_only_for_requests() {
    assert_eq!(hash_job(FileIndexEvent::NeedsHash { path: PathBuf::from("n") }), Some(PathBuf::from("n")));
    assert_eq!(hash_job(FileIndexEvent::UpdateHash { path: PathBuf::from("n"), hash: [0u8; 32] }), None);
    assert_eq!(hash_job(FileIndexEvent::InsertFile { path: PathBuf::from("n"), size: 0, mtime: 0 }), None);
}

#[test]
fn hash_reply_cases() {
    match hash_reply(PathBuf::from("h"), Ok([8u8; 32])) {
        Some(FileIndexEvent::UpdateHash { path, hash }) => {
            assert_eq!(path, PathBuf::from("h"));
            assert_eq!(hash, [8u8; 32]);
        }
        other => panic!("{:?}", other),
    }
    assert!(hash_reply(PathBuf::from("h"), Err(io::Error::new(io::ErrorKind::Other, "e"))).is_none());
}

#[test]
fn visit_files_gives_closed_channel() {
    let (tx, rx) = std::sync::mpsc::channel::<DbMessage>();
    let out = visit_files(rx);
    assert!(out.recv().is_err());
    drop(tx);
}

#[test]
fn run_succeeds() {
    let cli = Cli { verbose: 0, dst: PathBuf::from("."), database: PathBuf::from("doppelganger.db") };
    assert!(run(cli).is_ok());
}
