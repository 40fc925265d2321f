//! The single-channel indexing pipeline: the walker, the database worker and
//! the hash workers all send and receive `FileIndexEvent`s on one channel.
use crate::platform::copy_path;
use std::io;
use std::path::PathBuf;
use vstd::prelude::*;

verus! {

/// A message on the shared channel.
#[derive(Debug)]
pub enum FileIndexEvent {
    /// A regular file found by the walker.
    InsertFile { path: PathBuf, size: u64, mtime: i64 },
    /// A digest computed by a hash worker.
    UpdateHash { path: PathBuf, hash: [u8; 32] },
    /// A file whose digest the database worker asks for.
    NeedsHash { path: PathBuf },
}

/// What the database worker waits for.
#[derive(Debug, Clone, Copy, PartialEq, Eq, Structural)]
pub enum IndexPhase {
    /// The next message of the channel.
    AwaitMessage,
    /// A file being recorded and checked for a current digest.
    AwaitFileStored,
    /// A digest being written.
    AwaitHashStored,
    /// A digest request being sent.
    AwaitHashRequested,
    /// Nothing: the channel is closed and the worker is done.
    Finished,
}

/// What the database worker asks its driver to do next.
#[derive(Debug)]
pub enum IndexCommand {
    /// Wait for the next message of the channel.
    Receive,
    /// Record a file, then tell whether it already has a current digest.
    StoreFile { path: PathBuf, size: u64, mtime: i64 },
    /// Write a digest for a file.
    StoreHash { path: PathBuf, hash: [u8; 32] },
    /// Send a digest request for a file on the channel.
    RequestHash { path: PathBuf },
    /// Stop: the worker has finished without error.
    Finish,
}

/// What the driver reports back after carrying out a command.
#[derive(Debug)]
pub enum IndexEvent {
    /// The next message, or nothing when the channel is closed.
    Received(Option<FileIndexEvent>),
    /// The file of the pending `StoreFile` was recorded; whether the database
    /// already holds a current digest of it.
    FileStored { has_valid_hash: bool },
    /// The digest was written.
    HashStored,
    /// The digest request was sent.
    HashRequested,
}

/// The state of the database worker: what it waits for, and the path of the
/// file being recorded while it waits for that.
#[derive(Debug)]
pub struct IndexState {
    pub phase: IndexPhase,
    pub pending: Option<PathBuf>,
}

/// The state that waits for the next message.
pub open spec fn index_waiting() -> IndexState {
    IndexState { phase: IndexPhase::AwaitMessage, pending: None }
}

/// One step of the database worker. A recorded file's digest is requested
/// when the database already holds a current digest of it; digest requests
/// that reach the database worker are passed over. A report that does not
/// answer the pending command goes back to waiting for a message; a finished
/// worker stays finished.
pub open spec fn index_transition(s: IndexState, event: IndexEvent) -> (IndexState, IndexCommand) {
    if s.phase == IndexPhase::Finished {
        (s, IndexCommand::Finish)
    } else {
        match event {
            IndexEvent::Received(None) => {
                if s.phase == IndexPhase::AwaitMessage {
                    (IndexState { phase: IndexPhase::Finished, pending: None }, IndexCommand::Finish)
                } else {
                    (index_waiting(), IndexCommand::Receive)
                }
            },
            IndexEvent::Received(Some(FileIndexEvent::InsertFile { path, size, mtime })) => {
                if s.phase == IndexPhase::AwaitMessage {
                    (
                        IndexState { phase: IndexPhase::AwaitFileStored, pending: Some(path) },
                        IndexCommand::StoreFile { path, size, mtime },
                    )
                } else {
                    (index_waiting(), IndexCommand::Receive)
                }
            },
            IndexEvent::Received(Some(FileIndexEvent::UpdateHash { path, hash })) => {
                if s.phase == IndexPhase::AwaitMessage {
                    (
                        IndexState { phase: IndexPhase::AwaitHashStored, pending: None },
                        IndexCommand::StoreHash { path, hash },
                    )
                } else {
                    (index_waiting(), IndexCommand::Receive)
                }
            },
            IndexEvent::FileStored { has_valid_hash } => {
                if s.phase == IndexPhase::AwaitFileStored && s.pending is Some && has_valid_hash {
                    (
                        IndexState { phase: IndexPhase::AwaitHashRequested, pending: None },
                        IndexCommand::RequestHash { path: s.pending->0 },
                    )
                } else {
                    (index_waiting(), IndexCommand::Receive)
                }
            },
            _ => (index_waiting(), IndexCommand::Receive),
        }
    }
}

/// The state that waits for the answer to `command`: for a file being
/// recorded, it holds that file's path.
pub open spec fn index_awaits(s: IndexState, command: IndexCommand) -> bool {
    match command {
        IndexCommand::Receive => s.phase == IndexPhase::AwaitMessage,
        IndexCommand::StoreFile { path, .. } => s.phase == IndexPhase::AwaitFileStored && s.pending
            == Some(path),
        IndexCommand::StoreHash { .. } => s.phase == IndexPhase::AwaitHashStored,
        IndexCommand::RequestHash { .. } => s.phase == IndexPhase::AwaitHashRequested,
        IndexCommand::Finish => s.phase == IndexPhase::Finished,
    }
}

/// The decisions of the database worker of the shared channel.
pub struct IndexWorker {
    phase: IndexPhase,
    pending: Option<PathBuf>,
}

impl View for IndexWorker {
    type V = IndexState;

    closed spec fn view(&self) -> IndexState {
        IndexState { phase: self.phase, pending: self.pending }
    }
}

impl IndexWorker {
    /// A worker that starts by waiting for a message.
    pub fn start() -> (r: (IndexWorker, IndexCommand))
        ensures
            r.0@ == index_waiting(),
            r.1 == IndexCommand::Receive,
    {
        (IndexWorker { phase: IndexPhase::AwaitMessage, pending: None }, IndexCommand::Receive)
    }

    /// Takes the outcome of the pending command and gives the next one.
    pub fn next(&mut self, event: IndexEvent) -> (command: IndexCommand)
        ensures
            (final(self)@, command) == index_transition(old(self)@, event),
    {
        let phase = self.phase;
        if phase == IndexPhase::Finished {
            return IndexCommand::Finish;
        }
        let pending = self.pending.take();
        match event {
            IndexEvent::Received(None) => {
                if phase == IndexPhase::AwaitMessage {
                    self.phase = IndexPhase::Finished;
                    return IndexCommand::Finish;
                }
            },
            IndexEvent::Received(Some(FileIndexEvent::InsertFile { path, size, mtime })) => {
                if phase == IndexPhase::AwaitMessage {
                    self.phase = IndexPhase::AwaitFileStored;
                    self.pending = Some(copy_path(&path));
                    return IndexCommand::StoreFile { path, size, mtime };
                }
            },
            IndexEvent::Received(Some(FileIndexEvent::UpdateHash { path, hash })) => {
                if phase == IndexPhase::AwaitMessage {
                    self.phase = IndexPhase::AwaitHashStored;
                    return IndexCommand::StoreHash { path, hash };
                }
            },
            IndexEvent::FileStored { has_valid_hash } => {
                if phase == IndexPhase::AwaitFileStored && has_valid_hash {
                    if let Some(path) = pending {
                        self.phase = IndexPhase::AwaitHashRequested;
                        return IndexCommand::RequestHash { path };
                    }
                }
            },
            _ => {},
        }
        self.phase = IndexPhase::AwaitMessage;
        IndexCommand::Receive
    }
}

/// The file that a hash worker hashes for a message: only digest requests
/// are answered; every other message is passed over.
pub fn hash_job(msg: FileIndexEvent) -> (r: Option<PathBuf>)
    ensures
        r == (match msg {
            FileIndexEvent::NeedsHash { path } => Some(path),
            _ => None,
        }),
{
    match msg {
        FileIndexEvent::NeedsHash { path } => Some(path),
        _ => None,
    }
}

/// What a hash worker sends for a requested file, given the outcome of hashing
/// it: the digest, or nothing when the file could not be hashed.
pub fn hash_reply(path: PathBuf, outcome: Result<[u8; 32], io::Error>) -> (r: Option<FileIndexEvent>)
    ensures
        r == (match outcome {
            Ok(hash) => Some(FileIndexEvent::UpdateHash { path, hash }),
            Err(_) => None,
        }),
{
    match outcome {
        Ok(hash) => Some(FileIndexEvent::UpdateHash { path, hash }),
        Err(_) => None,
    }
}

/// Every command that the worker gives is the one its new state waits for.
pub proof fn lemma_command_matches_state(s: IndexState, event: IndexEvent)
    requires
        s.phase == IndexPhase::Finished ==> s.pending is None,
    ensures
        index_awaits(index_transition(s, event).0, index_transition(s, event).1),
{
}

/// Digest requests that reach the database worker are passed over: it goes
/// on waiting for the next message.
pub proof fn lemma_requests_passed_over(path: PathBuf)
    ensures
        index_transition(
            index_waiting(),
            IndexEvent::Received(Some((FileIndexEvent::NeedsHash { path }))),
        ) == (index_waiting(), IndexCommand::Receive),
{
}

/// Every file and every digest taken from the channel is written, as it came.
pub proof fn lemma_messages_stored(path: PathBuf, size: u64, mtime: i64, hash: [u8; 32])
    ensures
        index_transition(
            index_waiting(),
            IndexEvent::Received(Some((FileIndexEvent::InsertFile { path, size, mtime }))),
        ).1 == (IndexCommand::StoreFile { path, size, mtime }),
        index_transition(
            index_waiting(),
            IndexEvent::Received(Some((FileIndexEvent::UpdateHash { path, hash }))),
        ).1 == (IndexCommand::StoreHash { path, hash }),
{
}

/// A recorded file's digest is requested exactly when the database already
/// holds a current digest of it, and the request is for that same file.
pub proof fn lemma_request_iff_valid_hash(path: PathBuf, has_valid_hash: bool)
    ensures
        index_transition(
            (IndexState { phase: IndexPhase::AwaitFileStored, pending: Some(path) }),
            (IndexEvent::FileStored { has_valid_hash }),
        ).1 == (if has_valid_hash {
            (IndexCommand::RequestHash { path })
        } else {
            IndexCommand::Receive
        }),
{
}

/// The worker finishes exactly when it finds the channel closed, and once
/// finished it stays finished.
pub proof fn lemma_finish(s: IndexState, event: IndexEvent)
    ensures
        (index_transition(s, event).0.phase == IndexPhase::Finished) <==> (s.phase
            == IndexPhase::Finished || (s.phase == IndexPhase::AwaitMessage && event
            == IndexEvent::Received(None))),
{
}

/// The run of the worker from its start over a sequence of reports: its
/// final state and the commands it gave, one per report.
pub open spec fn index_run(events: Seq<IndexEvent>) -> (IndexState, Seq<IndexCommand>)
    decreases events.len(),
{
    if events.len() == 0 {
        (index_waiting(), Seq::empty())
    } else {
        let (s, commands) = index_run(events.drop_last());
        let (s2, c) = index_transition(s, events.last());
        (s2, commands.push(c))
    }
}

/// The command waiting for an answer after `commands` were given.
pub open spec fn index_pending_command(commands: Seq<IndexCommand>) -> IndexCommand {
    if commands.len() == 0 {
        IndexCommand::Receive
    } else {
        commands.last()
    }
}

/// Whether a report is the kind of answer that a command waits for.
pub open spec fn index_answers(command: IndexCommand, event: IndexEvent) -> bool {
    match command {
        IndexCommand::Receive => event is Received,
        IndexCommand::StoreFile { .. } => event is FileStored,
        IndexCommand::StoreHash { .. } => event is HashStored,
        IndexCommand::RequestHash { .. } => event is HashRequested,
        IndexCommand::Finish => true,
    }
}

/// Every report of the sequence answers the command pending when it came.
pub open spec fn index_answered(events: Seq<IndexEvent>) -> bool
    decreases events.len(),
{
    events.len() == 0 || (index_answered(events.drop_last()) && index_answers(
        index_pending_command(index_run(events.drop_last()).1),
        events.last(),
    ))
}

/// The files and digests taken from the channel, in the order they came
/// (digest requests are left out).
pub open spec fn received_changes(events: Seq<IndexEvent>) -> Seq<FileIndexEvent>
    decreases events.len(),
{
    if events.len() == 0 {
        Seq::empty()
    } else {
        let rest = received_changes(events.drop_last());
        match events.last() {
            IndexEvent::Received(Some(FileIndexEvent::InsertFile { path, size, mtime })) => rest.push(
                FileIndexEvent::InsertFile { path, size, mtime },
            ),
            IndexEvent::Received(Some(FileIndexEvent::UpdateHash { path, hash })) => rest.push(
                FileIndexEvent::UpdateHash { path, hash },
            ),
            _ => rest,
        }
    }
}

/// The files recorded and digests written, in the order they were done.
pub open spec fn stored_changes(commands: Seq<IndexCommand>) -> Seq<FileIndexEvent>
    decreases commands.len(),
{
    if commands.len() == 0 {
        Seq::empty()
    } else {
        let rest = stored_changes(commands.drop_last());
        match commands.last() {
            IndexCommand::StoreFile { path, size, mtime } => rest.push(
                FileIndexEvent::InsertFile { path, size, mtime },
            ),
            IndexCommand::StoreHash { path, hash } => rest.push(
                FileIndexEvent::UpdateHash { path, hash },
            ),
            _ => rest,
        }
    }
}

/// A digest request at position `i` is for the file recorded just before,
/// and comes from the report that the database held a current digest of it.
pub open spec fn index_request_follows_store(
    events: Seq<IndexEvent>,
    commands: Seq<IndexCommand>,
    i: int,
) -> bool {
    commands[i] is RequestHash ==> {
        &&& 1 <= i
        &&& commands[i - 1] is StoreFile
        &&& commands[i - 1]->StoreFile_path == commands[i]->RequestHash_path
        &&& events[i] == (IndexEvent::FileStored { has_valid_hash: true })
    }
}

/// Over a whole run in which the driver answers every command: each file and
/// each digest taken from the channel, up to the channel's close, is written
/// once, in the order they came; and each digest request is for the file
/// recorded just before it.
pub proof fn lemma_index_run_handles_each_message_once_in_order(events: Seq<IndexEvent>)
    requires
        index_answered(events),
    ensures
        index_run(events).1.len() == events.len(),
        stored_changes(index_run(events).1) == received_changes(
            events.take(first_finish(index_run(events).1)),
        ),
        forall|i: int|
            0 <= i < events.len() ==> #[trigger] index_request_follows_store(
                events,
                index_run(events).1,
                i,
            ),
        index_awaits(index_run(events).0, index_pending_command(index_run(events).1)),
        index_run(events).0.phase == IndexPhase::Finished ==> index_run(events).0.pending is None,
        index_run(events).0.phase != IndexPhase::Finished ==> first_finish(index_run(events).1)
            == events.len(),
    decreases events.len(),
{
    if events.len() > 0 {
        let pre = events.drop_last();
        lemma_index_run_handles_each_message_once_in_order(pre);
        let (s, cs) = index_run(pre);
        let e = events.last();
        let (s2, c2) = index_transition(s, e);
        let cmds = cs.push(c2);
        assert(index_run(events) == (s2, cmds));
        assert(cmds.drop_last() =~= cs);
        lemma_first_finish_push(cs, c2);
        lemma_command_matches_state(s, e);
        if s.phase == IndexPhase::Finished {
            assert(events.take(first_finish(cmds)) =~= pre.take(first_finish(cs)));
        } else {
            assert(first_finish(cs) == cs.len());
            assert(pre.take(first_finish(cs)) =~= pre);
            if c2 is Finish {
                assert(events.take(first_finish(cmds)) =~= pre);
                assert(e == IndexEvent::Received(None));
            } else {
                assert(events.take(first_finish(cmds)) =~= events);
                assert(events.drop_last() =~= pre);
            }
        }
        assert forall|i: int| 0 <= i < events.len() implies #[trigger] index_request_follows_store(
            events,
            cmds,
            i,
        ) by {
            if i < pre.len() {
                assert(index_request_follows_store(pre, cs, i));
                assert(cmds[i] == cs[i]);
                assert(events[i] == pre[i]);
                if i >= 1 {
                    assert(cmds[i - 1] == cs[i - 1]);
                }
            } else {
                if c2 is RequestHash {
                    assert(cs.len() >= 1);
                    assert(cmds[i - 1] == cs.last());
                }
            }
        }
    }
}

/// The number of commands before the first `Finish`; all of them when there
/// is none.
pub open spec fn first_finish(commands: Seq<IndexCommand>) -> int
    decreases commands.len(),
{
    if commands.len() == 0 {
        0
    } else if first_finish(commands.drop_last()) < commands.len() - 1 {
        first_finish(commands.drop_last())
    } else if commands.last() is Finish {
        commands.len() - 1
    } else {
        commands.len() as int
    }
}

proof fn lemma_first_finish_push(commands: Seq<IndexCommand>, c: IndexCommand)
    ensures
        0 <= first_finish(commands) <= commands.len(),
        first_finish(commands.push(c)) == if first_finish(commands) < commands.len() {
            first_finish(commands)
        } else if c is Finish {
            commands.len() as int
        } else {
            commands.len() + 1int
        },
    decreases commands.len(),
{
    assert(commands.push(c).drop_last() =~= commands);
    if commands.len() > 0 {
        lemma_first_finish_push(commands.drop_last(), commands.last());
        assert(commands.drop_last().push(commands.last()) =~= commands);
    }
}

} // verus!
