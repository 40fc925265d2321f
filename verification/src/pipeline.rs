//! The three-channel indexing pipeline: a walker reports files, the database
//! worker records them and asks for digests, hash workers answer with digests.
//! Digests waiting to be recorded always go before newly found files.
use crate::platform::copy_path;
use std::io;
use std::path::PathBuf;
use vstd::prelude::*;

verus! {

/// Sent by the walker for each regular file it finds.
#[derive(Debug)]
pub enum FileWalkerEvent {
    FileFound { path: PathBuf, mtime: i64, size: u64 },
}

/// Sent by the database worker to the hash workers.
#[derive(Debug)]
pub enum HashRequestMessage {
    NeedsHash { path: PathBuf },
}

/// Sent by a hash worker once a file is hashed, with the modification time
/// read after hashing.
#[derive(Debug)]
pub enum HashResultMessage {
    HashCalculated { path: PathBuf, mtime: i64, hash: [u8; 32] },
}

/// What the database worker waits for.
#[derive(Debug, Clone, Copy, PartialEq, Eq, Structural)]
pub enum DbPhase {
    /// The outcome of polling the digest channel.
    AwaitHashResult,
    /// A digest being written.
    AwaitHashStored,
    /// The outcome of polling the file channel.
    AwaitFileEvent,
    /// A file being recorded and checked for a current digest.
    AwaitFileStored,
    /// A digest request being sent.
    AwaitHashRequested,
}

/// What the database worker asks its driver to do next.
#[derive(Debug)]
pub enum DbCommand {
    /// Take a digest from the digest channel without waiting.
    ReceiveHashResult,
    /// Take a file from the file channel without waiting.
    ReceiveFileEvent,
    /// Write a digest for a file.
    StoreHash { path: PathBuf, mtime: i64, hash: [u8; 32] },
    /// Record a file, then tell whether it already has a current digest.
    StoreFile { path: PathBuf, size: u64, mtime: i64 },
    /// Ask the hash workers for a file's digest.
    RequestHash { path: PathBuf },
}

/// What the driver reports back after carrying out a command.
#[derive(Debug)]
pub enum DbEvent {
    /// The digest taken from the digest channel, if one was waiting.
    HashResultReceived(Option<HashResultMessage>),
    /// The file taken from the file channel, if one was waiting.
    FileEventReceived(Option<FileWalkerEvent>),
    /// The digest was written.
    HashStored,
    /// The file of the pending `StoreFile` was recorded; whether the database
    /// already holds a current digest of it.
    FileStored { has_valid_hash: bool },
    /// The digest request was sent.
    HashRequested,
}

/// The state of the database worker: what it waits for, and the path of the
/// file being recorded while it waits for that.
#[derive(Debug)]
pub struct DbState {
    pub phase: DbPhase,
    pub pending: Option<PathBuf>,
}

/// The state in which the worker starts: polling the digest channel.
pub open spec fn db_start() -> DbState {
    DbState { phase: DbPhase::AwaitHashResult, pending: None }
}

/// One step of the database worker: from its state and what came back, its
/// next state and what it asks for. A report that does not answer the pending
/// command starts over at polling the digest channel.
pub open spec fn db_transition(s: DbState, event: DbEvent) -> (DbState, DbCommand) {
    match event {
        DbEvent::HashResultReceived(Some(HashResultMessage::HashCalculated { path, mtime, hash })) => {
            if s.phase == DbPhase::AwaitHashResult {
                (
                    DbState { phase: DbPhase::AwaitHashStored, pending: None },
                    DbCommand::StoreHash { path, mtime, hash },
                )
            } else {
                (db_start(), DbCommand::ReceiveHashResult)
            }
        },
        DbEvent::HashResultReceived(None) => {
            if s.phase == DbPhase::AwaitHashResult {
                (DbState { phase: DbPhase::AwaitFileEvent, pending: None }, DbCommand::ReceiveFileEvent)
            } else {
                (db_start(), DbCommand::ReceiveHashResult)
            }
        },
        DbEvent::FileEventReceived(Some(FileWalkerEvent::FileFound { path, mtime, size })) => {
            if s.phase == DbPhase::AwaitFileEvent {
                (
                    DbState { phase: DbPhase::AwaitFileStored, pending: Some(path) },
                    DbCommand::StoreFile { path, size, mtime },
                )
            } else {
                (db_start(), DbCommand::ReceiveHashResult)
            }
        },
        DbEvent::FileStored { has_valid_hash } => {
            if s.phase == DbPhase::AwaitFileStored && s.pending is Some && !has_valid_hash {
                (
                    DbState { phase: DbPhase::AwaitHashRequested, pending: None },
                    DbCommand::RequestHash { path: s.pending->0 },
                )
            } else {
                (db_start(), DbCommand::ReceiveHashResult)
            }
        },
        _ => (db_start(), DbCommand::ReceiveHashResult),
    }
}

/// The state that waits for the answer to `command`: for a file being
/// recorded, it holds that file's path.
pub open spec fn awaits(s: DbState, command: DbCommand) -> bool {
    match command {
        DbCommand::ReceiveHashResult => s.phase == DbPhase::AwaitHashResult,
        DbCommand::ReceiveFileEvent => s.phase == DbPhase::AwaitFileEvent,
        DbCommand::StoreHash { .. } => s.phase == DbPhase::AwaitHashStored,
        DbCommand::StoreFile { path, .. } => s.phase == DbPhase::AwaitFileStored && s.pending
            == Some(path),
        DbCommand::RequestHash { .. } => s.phase == DbPhase::AwaitHashRequested,
    }
}

/// The decisions of the database worker, driven by a loop that carries out
/// its commands and reports their outcomes.
pub struct DbWorker {
    phase: DbPhase,
    pending: Option<PathBuf>,
}

impl View for DbWorker {
    type V = DbState;

    closed spec fn view(&self) -> DbState {
        DbState { phase: self.phase, pending: self.pending }
    }
}

impl DbWorker {
    /// A worker that starts by polling the digest channel.
    pub fn start() -> (r: (DbWorker, DbCommand))
        ensures
            r.0@ == db_start(),
            r.1 == DbCommand::ReceiveHashResult,
    {
        (DbWorker { phase: DbPhase::AwaitHashResult, pending: None }, DbCommand::ReceiveHashResult)
    }

    /// Takes the outcome of the pending command and gives the next one.
    pub fn next(&mut self, event: DbEvent) -> (command: DbCommand)
        ensures
            (final(self)@, command) == db_transition(old(self)@, event),
    {
        let phase = self.phase;
        let pending = self.pending.take();
        match event {
            DbEvent::HashResultReceived(Some(HashResultMessage::HashCalculated { path, mtime, hash })) => {
                if phase == DbPhase::AwaitHashResult {
                    self.phase = DbPhase::AwaitHashStored;
                    return DbCommand::StoreHash { path, mtime, hash };
                }
            },
            DbEvent::HashResultReceived(None) => {
                if phase == DbPhase::AwaitHashResult {
                    self.phase = DbPhase::AwaitFileEvent;
                    return DbCommand::ReceiveFileEvent;
                }
            },
            DbEvent::FileEventReceived(Some(FileWalkerEvent::FileFound { path, mtime, size })) => {
                if phase == DbPhase::AwaitFileEvent {
                    self.phase = DbPhase::AwaitFileStored;
                    self.pending = Some(copy_path(&path));
                    return DbCommand::StoreFile { path, size, mtime };
                }
            },
            DbEvent::FileStored { has_valid_hash } => {
                if phase == DbPhase::AwaitFileStored && !has_valid_hash {
                    if let Some(path) = pending {
                        self.phase = DbPhase::AwaitHashRequested;
                        return DbCommand::RequestHash { path };
                    }
                }
            },
            _ => {},
        }
        self.phase = DbPhase::AwaitHashResult;
        DbCommand::ReceiveHashResult
    }
}

/// What a hash worker sends for a requested file, given the outcome of
/// hashing it: the digest with the modification time, or nothing when the
/// file could not be hashed.
pub fn hash_result(path: PathBuf, outcome: Result<(i64, [u8; 32]), io::Error>) -> (r: Option<HashResultMessage>)
    ensures
        r == (match outcome {
            Ok((mtime, hash)) => Some(HashResultMessage::HashCalculated { path, mtime, hash }),
            Err(_) => None,
        }),
{
    match outcome {
        Ok((mtime, hash)) => Some(HashResultMessage::HashCalculated { path, mtime, hash }),
        Err(_) => None,
    }
}

/// The run of the worker from its start over a sequence of reports: its
/// final state and the commands it gave, one per report.
pub open spec fn db_run(events: Seq<DbEvent>) -> (DbState, Seq<DbCommand>)
    decreases events.len(),
{
    if events.len() == 0 {
        (db_start(), Seq::empty())
    } else {
        let (s, commands) = db_run(events.drop_last());
        let (s2, c) = db_transition(s, events.last());
        (s2, commands.push(c))
    }
}

/// The command waiting for an answer after `commands` were given.
pub open spec fn pending_command(commands: Seq<DbCommand>) -> DbCommand {
    if commands.len() == 0 {
        DbCommand::ReceiveHashResult
    } else {
        commands.last()
    }
}

/// Whether a report is the kind of answer that a command waits for.
pub open spec fn answers(command: DbCommand, event: DbEvent) -> bool {
    match command {
        DbCommand::ReceiveHashResult => event is HashResultReceived,
        DbCommand::ReceiveFileEvent => event is FileEventReceived,
        DbCommand::StoreHash { .. } => event is HashStored,
        DbCommand::StoreFile { .. } => event is FileStored,
        DbCommand::RequestHash { .. } => event is HashRequested,
    }
}

/// Every report of the sequence answers the command pending when it came.
pub open spec fn answered(events: Seq<DbEvent>) -> bool
    decreases events.len(),
{
    events.len() == 0 || (answered(events.drop_last()) && answers(
        pending_command(db_run(events.drop_last()).1),
        events.last(),
    ))
}

/// The digests taken from the digest channel, in the order they came.
pub open spec fn received_hashes(events: Seq<DbEvent>) -> Seq<HashResultMessage>
    decreases events.len(),
{
    if events.len() == 0 {
        Seq::empty()
    } else {
        let rest = received_hashes(events.drop_last());
        match events.last() {
            DbEvent::HashResultReceived(Some(m)) => rest.push(m),
            _ => rest,
        }
    }
}

/// The digests written, in the order they were written.
pub open spec fn stored_hashes(commands: Seq<DbCommand>) -> Seq<HashResultMessage>
    decreases commands.len(),
{
    if commands.len() == 0 {
        Seq::empty()
    } else {
        let rest = stored_hashes(commands.drop_last());
        match commands.last() {
            DbCommand::StoreHash { path, mtime, hash } => rest.push(
                HashResultMessage::HashCalculated { path, mtime, hash },
            ),
            _ => rest,
        }
    }
}

/// The files taken from the file channel, in the order they came.
pub open spec fn received_files(events: Seq<DbEvent>) -> Seq<FileWalkerEvent>
    decreases events.len(),
{
    if events.len() == 0 {
        Seq::empty()
    } else {
        let rest = received_files(events.drop_last());
        match events.last() {
            DbEvent::FileEventReceived(Some(f)) => rest.push(f),
            _ => rest,
        }
    }
}

/// The files recorded, in the order they were recorded.
pub open spec fn stored_files(commands: Seq<DbCommand>) -> Seq<FileWalkerEvent>
    decreases commands.len(),
{
    if commands.len() == 0 {
        Seq::empty()
    } else {
        let rest = stored_files(commands.drop_last());
        match commands.last() {
            DbCommand::StoreFile { path, size, mtime } => rest.push(
                FileWalkerEvent::FileFound { path, mtime, size },
            ),
            _ => rest,
        }
    }
}

/// A digest request at position `i` is for the file recorded just before,
/// and comes from the report that the database held no current digest of it.
pub open spec fn request_follows_store(events: Seq<DbEvent>, commands: Seq<DbCommand>, i: int) -> bool {
    commands[i] is RequestHash ==> {
        &&& 1 <= i
        &&& commands[i - 1] is StoreFile
        &&& commands[i - 1]->StoreFile_path == commands[i]->RequestHash_path
        &&& events[i] == (DbEvent::FileStored { has_valid_hash: false })
    }
}

/// Over a whole run in which the driver answers every command: each digest
/// taken from the digest channel is written once, in the order they came;
/// each file taken from the file channel is recorded once, in the order they
/// came; and each digest request is for the file recorded just before it,
/// made because the database held no current digest of that file.
pub proof fn lemma_run_handles_each_message_once_in_order(events: Seq<DbEvent>)
    requires
        answered(events),
    ensures
        db_run(events).1.len() == events.len(),
        stored_hashes(db_run(events).1) == received_hashes(events),
        stored_files(db_run(events).1) == received_files(events),
        forall|i: int|
            0 <= i < events.len() ==> #[trigger] request_follows_store(events, db_run(events).1, i),
        awaits(db_run(events).0, pending_command(db_run(events).1)),
        db_run(events).0.phase != DbPhase::AwaitFileStored ==> db_run(events).0.pending is None,
    decreases events.len(),
{
    if events.len() > 0 {
        let pre = events.drop_last();
        lemma_run_handles_each_message_once_in_order(pre);
        let (s, cs) = db_run(pre);
        let c = pending_command(cs);
        let e = events.last();
        let (s2, c2) = db_transition(s, e);
        let cmds = cs.push(c2);
        assert(db_run(events) == (s2, cmds));
        assert(cmds.drop_last() =~= cs);
        assert forall|i: int| 0 <= i < events.len() implies #[trigger] request_follows_store(
            events,
            cmds,
            i,
        ) by {
            if i < pre.len() {
                assert(request_follows_store(pre, cs, i));
                assert(cmds[i] == cs[i]);
                assert(events[i] == pre[i]);
                if i >= 1 {
                    assert(cmds[i - 1] == cs[i - 1]);
                }
            } else {
                if c2 is RequestHash {
                    assert(cs.len() >= 1);
                    assert(cmds[i - 1] == cs.last());
                }
            }
        }
    }
}

/// Every command that the worker gives is the one its new state waits for.
pub proof fn lemma_command_matches_state(s: DbState, event: DbEvent)
    ensures
        awaits(db_transition(s, event).0, db_transition(s, event).1),
{
}

/// Digests go first: the worker takes a file from the file channel only right
/// after it polled the digest channel and found it empty.
pub proof fn lemma_hash_results_first(s: DbState, event: DbEvent)
    requires
        db_transition(s, event).1 is ReceiveFileEvent,
    ensures
        s.phase == DbPhase::AwaitHashResult,
        event == DbEvent::HashResultReceived(None),
{
}

/// A recorded file's digest is requested exactly when the database holds no
/// current digest of it, and the request is for that same file.
pub proof fn lemma_request_iff_no_valid_hash(path: PathBuf, has_valid_hash: bool)
    ensures
        db_transition(
            (DbState { phase: DbPhase::AwaitFileStored, pending: Some(path) }),
            (DbEvent::FileStored { has_valid_hash }),
        ).1 == (if has_valid_hash {
            DbCommand::ReceiveHashResult
        } else {
            (DbCommand::RequestHash { path })
        }),
{
}

/// Whenever the worker polls the digest channel and finds it empty, it goes
/// on to take a file from the file channel, whatever it did before.
pub proof fn lemma_empty_digest_poll_takes_file(s: DbState)
    requires
        s.phase == DbPhase::AwaitHashResult,
    ensures
        db_transition(s, DbEvent::HashResultReceived(None)).1 is ReceiveFileEvent,
        db_transition(s, DbEvent::HashResultReceived(None)).0.phase == DbPhase::AwaitFileEvent,
{
}

/// In every state reached by a run in which the driver answers every command,
/// an empty digest channel makes the worker take the next file: the file
/// channel is never left unpolled once the digests are drained.
pub proof fn lemma_files_keep_coming(events: Seq<DbEvent>)
    requires
        answered(events),
        db_run(events).0.phase == DbPhase::AwaitHashResult,
    ensures
        db_transition(db_run(events).0, DbEvent::HashResultReceived(None)).1 is ReceiveFileEvent,
        answered(events.push(DbEvent::HashResultReceived(None))),
        db_run(events.push(DbEvent::HashResultReceived(None))).1.last() is ReceiveFileEvent,
{
    lemma_run_handles_each_message_once_in_order(events);
    let ev = events.push(DbEvent::HashResultReceived(None));
    assert(ev.drop_last() =~= events);
}

} // verus!
