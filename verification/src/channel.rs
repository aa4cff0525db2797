//! Trusted boundary to the process-internal message queues.  Endpoints and
//! byte sinks are crossbeam channels: opaque, cloneable handles that can
//! enqueue a value for asynchronous delivery to their owner, with no
//! guarantee that the owner is still there to take it.

use vstd::prelude::*;
use crossbeam_channel::Sender;

verus! {

/// Declares crossbeam_channel's sending handle so that it can stand in
/// fields and signatures.  Its contents stay opaque; nothing is assumed of a
/// value of it.
#[verifier::external_type_specification]
#[verifier::external_body]
#[verifier::reject_recursive_types(T)]
pub struct ExSender<T>(Sender<T>);

/// Relies on crossbeam_channel::Sender::try_send: the call never blocks, and
/// the message is accepted exactly when the channel is neither disconnected
/// nor full.  Whether it is accepted depends on the receiving side, so
/// nothing is promised of the outcome.
#[verifier::external_body]
pub(crate) fn channel_deliver<T>(tx: &Sender<T>, message: T) -> (accepted: bool) {
    tx.try_send(message).is_ok()
}

/// Relies on crossbeam_channel's Clone for Sender: the clone is a handle to
/// the same channel.
#[verifier::external_body]
pub(crate) fn channel_duplicate<T>(tx: &Sender<T>) -> Sender<T> {
    tx.clone()
}

/// Relies on std::mem::drop: releasing the handle closes this half of the
/// channel, so the byte-stream resource behind it can be reclaimed.
#[verifier::external_body]
pub(crate) fn channel_release<T>(tx: Sender<T>) {
    std::mem::drop(tx);
}

} // verus!
