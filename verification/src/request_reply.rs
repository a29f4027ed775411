//! The ask pattern: a generic request/reply capability.
//!
//! A client sends each request paired with its own private reply channel,
//! letting one server multiplex any number of independent callers and
//! answer exactly the one that asked. The capability is an interface
//! parameterized over the request and response types; the channel plumbing
//! is shared by every implementor.

use vstd::prelude::*;

verus! {

use crate::channel::{receive_blocking, receiver_is_empty, send_message, try_receive, PollOutcome};

/// A request/reply client bound to a shared request queue and a private
/// reply channel with which the server answers it.
pub trait Client<Request, Response>: Sized {
    /// What applying one drained response to this client means: the
    /// implementor's transition relation from the client before the
    /// response to the client after it. Every successful handling is held
    /// to it, so `poll_mut` advances a client only as this relation allows.
    spec fn handled_spec(pre: Self, post: Self, response: Response) -> bool;

    /// The producing end of the shared request queue.
    fn server_tx(&self) -> (t: crossbeam::channel::Sender<
        (Request, crossbeam::channel::Sender<Response>),
    >);

    /// The sending end of this client's private reply channel, handed to
    /// the server with each request so it can reply.
    fn response_channel(&self) -> (t: crossbeam::channel::Sender<Response>);

    /// The receiving end of this client's private reply channel.
    fn response_receiver(&self) -> (r: &crossbeam::channel::Receiver<Response>);

    /// Apply one drained response without advancing the client: succeeds
    /// only where the unchanged client already satisfies the transition
    /// the response asks for.
    fn handle_response(&self, response: Response) -> (r: Result<(), ()>)
        ensures
            r is Ok ==> Self::handled_spec(*self, *self, response),
    ;

    /// Apply one drained response, advancing the client along its
    /// transition relation.
    fn handle_response_mut(&mut self, response: Response) -> (r: Result<(), ()>)
        ensures
            r is Ok ==> Self::handled_spec(*old(self), *final(self), response),
    ;

    /// Enqueue the request paired with this client's reply channel. Fails
    /// only if the queue's consuming end is gone.
    fn send(&self, message: Request) -> (r: Result<(), ()>) {
        if send_message(&self.server_tx(), (message, self.response_channel())) {
            Ok(())
        } else {
            Err(())
        }
    }

    /// Drain at most one queued response into `handle_response`; never
    /// blocks, and an empty reply channel is no event. The receiver is
    /// shared, so there is no changed state to relate here: what a
    /// successfully handled response means is `handle_response`'s own
    /// contract. Fails once no response can ever arrive again, or where
    /// the handler declines one.
    fn poll(&self) -> (r: Result<(), ()>) {
        if receiver_is_empty(self.response_receiver()) {
            return Ok(());
        }
        match try_receive(self.response_receiver()) {
            PollOutcome::Message(response) => self.handle_response(response),
            PollOutcome::Empty => Ok(()),
            PollOutcome::Disconnected => Err(()),
        }
    }

    /// Drain at most one queued response into `handle_response_mut`; never
    /// blocks, and an empty reply channel is no event. On success the
    /// client is unchanged or advanced by exactly one response along its
    /// transition relation. Fails only once no response can ever arrive
    /// again, or where the handler declines one.
    fn poll_mut(&mut self) -> (r: Result<(), ()>)
        ensures
            r is Ok ==> *final(self) == *old(self) || (exists|response: Response|
                Self::handled_spec(*old(self), *final(self), response)),
    {
        if receiver_is_empty(self.response_receiver()) {
            return Ok(());
        }
        let outcome = try_receive(self.response_receiver());
        match outcome {
            PollOutcome::Message(response) => self.handle_response_mut(response),
            PollOutcome::Empty => Ok(()),
            PollOutcome::Disconnected => Err(()),
        }
    }

    /// Block until the next response arrives and hand it back; `None` once
    /// no response can ever arrive.
    fn recv(&self) -> (r: Option<Response>) {
        receive_blocking(self.response_receiver())
    }
}

} // verus!
