//! The message type of the channel-based walker, and the stage that turns a
//! stream of such messages into the stream of the visited files.
use std::path::PathBuf;
use std::sync::mpsc::Receiver;
use vstd::prelude::*;

verus! {

/// The receiving end of a std channel.
#[verifier::external_type_specification]
#[verifier::external_body]
#[verifier::reject_recursive_types(T)]
pub struct ExReceiver<T>(Receiver<T>);

/// A change for the index database.
#[derive(Debug)]
pub enum DbMessage {
    /// Record a regular file found by the walk.
    InsertFile { path: PathBuf, size: u64, mtime: i64 },
    /// Record the digest of a file.
    UpdateHash { path: PathBuf, hash: [u8; 32] },
}

/// The messages waiting in the channel of a receiver, oldest first.
pub uninterp spec fn queued_messages(r: Receiver<DbMessage>) -> Seq<DbMessage>;

/// Whether some sending end of the channel of a receiver is still alive, so
/// that more messages may come.
pub uninterp spec fn has_sender(r: Receiver<DbMessage>) -> bool;

/// Calls `std::sync::mpsc::channel` and keeps only the receiving end: the
/// sending end is dropped on return. Claimed, as std documents for a channel
/// whose senders are all dropped: no message is waiting and no sender is left,
/// so receiving from it fails at once.
#[verifier::external_body]
fn receiver_of_new_channel() -> (r: Receiver<DbMessage>)
    ensures
        queued_messages(r) == Seq::<DbMessage>::empty(),
        !has_sender(r),
{
    let (_sender, receiver) = std::sync::mpsc::channel();
    receiver
}

/// The stage that visits the files announced on `receiver`: it opens a new
/// channel and hands back its receiving end. No file is visited yet: the
/// sending end is dropped at once, so the returned channel is closed and
/// yields no message.
pub fn visit_files(receiver: Receiver<DbMessage>) -> (r: Receiver<DbMessage>)
    ensures
        queued_messages(r) == Seq::<DbMessage>::empty(),
        !has_sender(r),
{
    let result_receiver = receiver_of_new_channel();
    result_receiver
}

} // verus!
