//! Trusted adapters around the message-passing channels.
//!
//! The shared request queue and the per-client reply channels come from the
//! crossbeam channel library. Its channel endpoints are declared here as
//! opaque types, and every operation the crate performs on them goes through
//! a small trusted adapter. Nothing is assumed of a channel's contents: what
//! a receive hands back is handled by verified code that accounts for every
//! possible message.

use vstd::prelude::*;

verus! {

#[verifier::external_type_specification]
#[verifier::external_body]
#[verifier::reject_recursive_types(T)]
pub struct ExSender<T>(crossbeam::channel::Sender<T>);

#[verifier::external_type_specification]
#[verifier::external_body]
#[verifier::reject_recursive_types(T)]
pub struct ExReceiver<T>(crossbeam::channel::Receiver<T>);

/// Outcome of a non-blocking receive.
pub enum PollOutcome<T> {
    /// One queued message was consumed.
    Message(T),
    /// No message was queued; nothing happened.
    Empty,
    /// Every sending end is gone; no message can ever arrive.
    Disconnected,
}

/// Relies on crossbeam_channel::unbounded: an unbounded queue on which any
/// number of cloned senders may send without blocking, delivered in send
/// order per sender.
#[verifier::external_body]
pub fn channel_unbounded<T>() -> (crossbeam::channel::Sender<T>, crossbeam::channel::Receiver<T>) {
    crossbeam::channel::unbounded()
}

/// Relies on crossbeam_channel::bounded: a queue holding at most `cap`
/// undelivered messages; a send on a full queue blocks until a slot frees.
#[verifier::external_body]
pub fn channel_bounded<T>(cap: usize) -> (crossbeam::channel::Sender<T>, crossbeam::channel::Receiver<T>) {
    crossbeam::channel::bounded(cap)
}

/// Relies on Sender::send: delivers the message, blocking while a bounded
/// queue is full, unless every receiving end has been dropped; returns
/// whether it was accepted.
#[verifier::external_body]
pub fn send_message<T>(tx: &crossbeam::channel::Sender<T>, message: T) -> (accepted: bool) {
    tx.send(message).is_ok()
}

/// Relies on Receiver::try_recv: consumes one queued message without
/// blocking, or reports the queue momentarily empty or disconnected.
#[verifier::external_body]
pub fn try_receive<T>(rx: &crossbeam::channel::Receiver<T>) -> (r: PollOutcome<T>) {
    match rx.try_recv() {
        Ok(message) => PollOutcome::Message(message),
        Err(crossbeam::channel::TryRecvError::Empty) => PollOutcome::Empty,
        Err(crossbeam::channel::TryRecvError::Disconnected) => PollOutcome::Disconnected,
    }
}

/// Relies on Receiver::recv: blocks until a message arrives, or reports
/// disconnection once every sending end is gone.
#[verifier::external_body]
pub fn receive_blocking<T>(rx: &crossbeam::channel::Receiver<T>) -> (r: Option<T>) {
    rx.recv().ok()
}

/// Relies on Receiver::is_empty: whether no message is queued right now.
#[verifier::external_body]
pub fn receiver_is_empty<T>(rx: &crossbeam::channel::Receiver<T>) -> (r: bool) {
    rx.is_empty()
}

/// Relies on Sender::clone: another handle sending into the same queue.
#[verifier::external_body]
pub fn clone_sender<T>(tx: &crossbeam::channel::Sender<T>) -> (r: crossbeam::channel::Sender<T>) {
    tx.clone()
}

} // verus!
