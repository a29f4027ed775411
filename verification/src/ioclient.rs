//! The client side of the stream protocol: its requests, responses, and the
//! per-client state machine.
//!
//! A client drives one stream: it asks the worker to open a source, then
//! prefetches decoded blocks ahead of consumption. Its state advances only
//! when it drains a response from its private reply channel; every request
//! it sends is paired with that channel, so the worker can reply to exactly
//! the client that asked.

use vstd::prelude::*;

use crate::samples::SampleBlock;

verus! {

use crate::channel::{clone_sender, channel_bounded, receiver_is_empty, send_message, try_receive, PollOutcome};

/// Why a stream failed.
#[derive(Clone, Copy, PartialEq, Eq, Structural, Debug)]
pub enum StreamErrorKind {
    /// The source could not be opened: unreadable, no decodable audio
    /// track, an unsupported codec, or missing stream parameters.
    OpenFailure,
    /// No block could be decoded: every packet within the retry bound was
    /// corrupt, the stream ended, or the named stream was never opened.
    DecodeFailure,
    /// The other end of a channel is gone; the client can make no further
    /// progress.
    PeerDisconnected,
}

/// An opaque handle naming one opened stream in the worker's table.
#[derive(Clone, Copy, PartialEq, Eq, Structural, Debug)]
pub struct StreamId(pub usize);

/// What a successful open reports: the handle to read blocks from, and the
/// stream parameters the codec declares.
#[derive(Clone, Copy, PartialEq, Eq, Structural, Debug)]
pub struct StreamDescriptor {
    pub stream: StreamId,
    pub sample_rate: u32,
    pub channel_count: usize,
}

/// The client's lifecycle. `Idle` until an open is requested; `Error` is
/// terminal, there is no recovery transition.
#[derive(Clone, Copy, PartialEq, Eq, Structural, Debug)]
pub enum IoClientState {
    Idle,
    Opening,
    OpenedIdle,
    Buffering,
    Streaming,
    Error(StreamErrorKind),
}

/// A request to the worker.
pub enum IoClientRequest {
    /// Open the named source and construct a decoder for it.
    OpenFile { handle: String },
    /// Decode one block ahead on an opened stream.
    ReadBlock { file_handle: StreamId },
}

/// A response from the worker. Every request yields exactly one response.
pub enum IoClientRepsonse {
    /// The open is in progress.
    BufferOpening,
    /// The open succeeded; here is the stream's handle and its parameters.
    BufferOpened(StreamDescriptor),
    /// One block was decoded ahead and converted; here it is.
    ReadingAhead(SampleBlock),
    /// The request failed for the given reason.
    Error(StreamErrorKind),
}

/// What travels on the shared request queue: a request paired with the
/// private reply channel of the client that sent it.
pub type Envelope = (IoClientRequest, crossbeam::channel::Sender<IoClientRepsonse>);

/// How many blocks a client asks for as soon as its stream opens, to hide
/// decode latency behind consumption.
pub const PREFETCH_DEPTH: usize = 2;

/// How many undrained replies a client's private reply channel holds before
/// the worker blocks on it. A slow client throttles the worker, never the
/// other way round.
pub const REPLY_CHANNEL_CAPACITY: usize = 2;

/// The reply channel must have room for every response the prefetch
/// pipeline can put in flight at once; otherwise the worker would block on
/// a full reply channel while the client waits for it to progress.
pub proof fn lemma_reply_capacity_covers_prefetch()
    ensures
        PREFETCH_DEPTH <= REPLY_CHANNEL_CAPACITY,
{
}

/// The state a response moves a client to, whatever state it was in: a
/// client's state is a pure function of the last response it drained.
pub open spec fn response_step(st: IoClientState, response: IoClientRepsonse) -> IoClientState {
    match response {
        IoClientRepsonse::BufferOpening => IoClientState::Opening,
        IoClientRepsonse::BufferOpened(_) => IoClientState::OpenedIdle,
        IoClientRepsonse::ReadingAhead(_) => IoClientState::Buffering,
        IoClientRepsonse::Error(k) => IoClientState::Error(k),
    }
}

/// The state a client reaches after draining the given responses in order.
pub open spec fn drive(st: IoClientState, responses: Seq<IoClientRepsonse>) -> IoClientState
    decreases responses.len(),
{
    if responses.len() == 0 {
        st
    } else {
        drive(response_step(st, responses[0]), responses.drop_first())
    }
}

/// How handling one response changes a client: the exact contract of
/// `handle_server_response`. A successful open stores the descriptor and
/// immediately prefetches, so its landing state is `OpenedIdle` unless the
/// queue's consuming end vanished mid-prefetch.
pub open spec fn applied_response(pre: IoClient, post: IoClient, response: IoClientRepsonse) -> bool {
    &&& post.file_path == pre.file_path
    &&& match response {
        IoClientRepsonse::BufferOpening => {
            &&& post.state == IoClientState::Opening
            &&& post.stream == pre.stream
            &&& post.latest_block == pre.latest_block
        },
        IoClientRepsonse::BufferOpened(d) => {
            &&& post.stream == Some(d)
            &&& post.latest_block == pre.latest_block
            &&& (post.state == IoClientState::OpenedIdle || post.state == IoClientState::Error(
                StreamErrorKind::PeerDisconnected,
            ))
        },
        IoClientRepsonse::ReadingAhead(b) => {
            &&& post.state == IoClientState::Buffering
            &&& post.stream == pre.stream
            &&& post.latest_block == Some(b)
        },
        IoClientRepsonse::Error(k) => {
            &&& post.state == IoClientState::Error(k)
            &&& post.stream == pre.stream
            &&& post.latest_block == pre.latest_block
        },
    }
}

/// Handling a response lands exactly on `response_step`'s state, except
/// that a reply channel lost during prefetch routes to
/// `Error(PeerDisconnected)`.
pub proof fn lemma_applied_matches_step(pre: IoClient, post: IoClient, response: IoClientRepsonse)
    requires
        applied_response(pre, post, response),
    ensures
        post.state == response_step(pre.state, response) || (response matches
        IoClientRepsonse::BufferOpened(_) && post.state == IoClientState::Error(
            StreamErrorKind::PeerDisconnected,
        )),
{
}

/// No response short of an explicit `Error` ever lands a client in an error
/// state: a supported source drives `Idle → Opening → OpenedIdle → ...`
/// without `Error` appearing anywhere along the way.
pub proof fn lemma_error_only_from_error_response(st: IoClientState, response: IoClientRepsonse)
    ensures
        (response_step(st, response) matches IoClientState::Error(_)) <==> (response matches
        IoClientRepsonse::Error(_)),
{
}

/// An explicit `Error` response routes any state to the matching terminal
/// error state in one step: a failed request is observable after a single
/// drained response.
pub proof fn lemma_error_response_routes(st: IoClientState, k: StreamErrorKind)
    ensures
        response_step(st, IoClientRepsonse::Error(k)) == IoClientState::Error(k),
{
}

/// The open lifecycle: from `Idle` the open request moves the client to
/// `Opening`, and draining the `BufferOpened` reply lands it on
/// `OpenedIdle`, with no error state passed through.
pub proof fn lemma_open_lifecycle(d: StreamDescriptor)
    ensures
        drive(IoClientState::Opening, seq![IoClientRepsonse::BufferOpened(d)])
            == IoClientState::OpenedIdle,
        !(IoClientState::Opening matches IoClientState::Error(_)),
        !(IoClientState::OpenedIdle matches IoClientState::Error(_)),
{
    let s = seq![IoClientRepsonse::BufferOpened(d)];
    assert(s.drop_first() =~= Seq::<IoClientRepsonse>::empty());
    assert(drive(IoClientState::OpenedIdle, s.drop_first()) == IoClientState::OpenedIdle);
}

/// One per-consumer stream handle: the source it targets, the stream it has
/// opened so far, the block it most recently prefetched, its lifecycle
/// state, and its two channel endpoints.
pub struct IoClient {
    /// The source this client opens.
    pub file_path: String,
    /// The opened stream, once a `BufferOpened` response arrived.
    pub stream: Option<StreamDescriptor>,
    /// The most recently prefetched block, until the consumer takes it.
    pub latest_block: Option<SampleBlock>,
    /// The lifecycle state.
    pub state: IoClientState,
    /// The producing end of the shared request queue.
    pub server_tx: crossbeam::channel::Sender<Envelope>,
    /// The sending end of the private reply channel, paired with each sent
    /// request.
    pub response_tx: crossbeam::channel::Sender<IoClientRepsonse>,
    /// The receiving end of the private reply channel.
    pub response_rx: crossbeam::channel::Receiver<IoClientRepsonse>,
}

impl IoClient {
    /// A fresh client bound to the shared request queue, with a private
    /// reply channel sized for the prefetch pipeline.
    pub fn new(file_path: String, server_tx: crossbeam::channel::Sender<Envelope>) -> (c:
        IoClient)
        ensures
            c.state == IoClientState::Idle,
            c.stream is None,
            c.latest_block is None,
            c.file_path == file_path,
    {
        let (response_tx, response_rx) = channel_bounded(REPLY_CHANNEL_CAPACITY);
        IoClient {
            file_path,
            stream: None,
            latest_block: None,
            state: IoClientState::Idle,
            server_tx,
            response_tx,
            response_rx,
        }
    }

    /// The current lifecycle state; inspection only.
    pub fn state(&self) -> (s: IoClientState)
        ensures
            s == self.state,
    {
        self.state
    }

    /// Set the lifecycle state, touching nothing else.
    pub fn set_state(&mut self, state: IoClientState)
        ensures
            final(self).state == state,
            final(self).stream == old(self).stream,
            final(self).latest_block == old(self).latest_block,
            final(self).file_path == old(self).file_path,
    {
        self.state = state;
    }

    /// Pair the request with this client's private reply channel and put it
    /// on the shared request queue. Fails only if the queue's consuming end
    /// is gone.
    pub fn send(&self, request: IoClientRequest) -> (accepted: bool) {
        send_message(&self.server_tx, (request, clone_sender(&self.response_tx)))
    }

    /// Ask the worker to open this client's source. Valid only while
    /// `Idle`: a client opens one stream, once. Moves to `Opening` on a
    /// sent request, or to `Error(PeerDisconnected)` if the queue's
    /// consuming end is gone.
    pub fn open(&mut self)
        requires
            old(self).state == IoClientState::Idle,
        ensures
            final(self).state == IoClientState::Opening || final(self).state
                == IoClientState::Error(StreamErrorKind::PeerDisconnected),
            final(self).stream == old(self).stream,
            final(self).latest_block == old(self).latest_block,
            final(self).file_path == old(self).file_path,
    {
        let request = IoClientRequest::OpenFile { handle: self.file_path.clone() };
        if self.send(request) {
            self.set_state(IoClientState::Opening);
        } else {
            self.set_state(IoClientState::Error(StreamErrorKind::PeerDisconnected));
        }
    }

    /// Ask the worker to decode one block ahead on the opened stream; does
    /// nothing while no stream is open. Only a vanished queue changes the
    /// state, to `Error(PeerDisconnected)`.
    pub fn read_block(&mut self)
        ensures
            final(self).state == old(self).state || final(self).state == IoClientState::Error(
                StreamErrorKind::PeerDisconnected,
            ),
            old(self).stream is None ==> final(self).state == old(self).state,
            final(self).stream == old(self).stream,
            final(self).latest_block == old(self).latest_block,
            final(self).file_path == old(self).file_path,
    {
        let file_handle = match &self.stream {
            Some(d) => d.stream,
            None => {
                return ;
            },
        };
        if !self.send(IoClientRequest::ReadBlock { file_handle }) {
            self.set_state(IoClientState::Error(StreamErrorKind::PeerDisconnected));
        }
    }

    /// Apply one drained response: the state machine's single transition.
    /// A successful open stores the stream and immediately prefetches
    /// `PREFETCH_DEPTH` blocks; an explicit error is routed to its terminal
    /// error state.
    pub fn handle_server_response(&mut self, response: IoClientRepsonse)
        ensures
            applied_response(*old(self), *final(self), response),
    {
        match response {
            IoClientRepsonse::BufferOpening => self.set_state(IoClientState::Opening),
            IoClientRepsonse::BufferOpened(descriptor) => {
                self.stream = Some(descriptor);
                self.set_state(IoClientState::OpenedIdle);
                let mut sent: usize = 0;
                while sent < PREFETCH_DEPTH
                    invariant
                        self.state == IoClientState::OpenedIdle || self.state
                            == IoClientState::Error(StreamErrorKind::PeerDisconnected),
                        self.stream == Some(descriptor),
                        self.latest_block == old(self).latest_block,
                        self.file_path == old(self).file_path,
                    decreases PREFETCH_DEPTH - sent,
                {
                    self.read_block();
                    sent = sent + 1;
                }
            },
            IoClientRepsonse::ReadingAhead(block) => {
                self.latest_block = Some(block);
                self.set_state(IoClientState::Buffering);
            },
            IoClientRepsonse::Error(k) => self.set_state(IoClientState::Error(k)),
        }
    }

    /// Drain at most one queued response and apply it; never blocks. An
    /// empty reply channel is no event. Reports failure only when the reply
    /// channel can never deliver again, routing the client to
    /// `Error(PeerDisconnected)` as well.
    pub fn poll(&mut self) -> (r: Result<(), ()>)
        ensures
            r is Ok ==> *final(self) == *old(self) || exists|response: IoClientRepsonse|
                applied_response(*old(self), *final(self), response),
            r is Err ==> final(self).state == IoClientState::Error(
                StreamErrorKind::PeerDisconnected,
            ),
    {
        if receiver_is_empty(&self.response_rx) {
            return Ok(());
        }
        match try_receive(&self.response_rx) {
            PollOutcome::Message(response) => {
                self.handle_server_response(response);
                Ok(())
            },
            PollOutcome::Empty => Ok(()),
            PollOutcome::Disconnected => {
                self.set_state(IoClientState::Error(StreamErrorKind::PeerDisconnected));
                Err(())
            },
        }
    }

    /// Take the most recently prefetched block, leaving none behind.
    pub fn take_block(&mut self) -> (b: Option<SampleBlock>)
        ensures
            b == old(self).latest_block,
            final(self).latest_block is None,
            final(self).state == old(self).state,
            final(self).stream == old(self).stream,
            final(self).file_path == old(self).file_path,
    {
        self.latest_block.take()
    }
}

impl crate::request_reply::Client<IoClientRequest, IoClientRepsonse> for IoClient {
    open spec fn handled_spec(pre: IoClient, post: IoClient, response: IoClientRepsonse) -> bool {
        applied_response(pre, post, response)
    }

    fn server_tx(&self) -> (t: crossbeam::channel::Sender<Envelope>) {
        clone_sender(&self.server_tx)
    }

    fn response_channel(&self) -> (t: crossbeam::channel::Sender<IoClientRepsonse>) {
        clone_sender(&self.response_tx)
    }

    fn response_receiver(&self) -> (r: &crossbeam::channel::Receiver<IoClientRepsonse>) {
        &self.response_rx
    }

    /// This client advances only through its mutable handler; the
    /// immutable one declines every response.
    fn handle_response(&self, _response: IoClientRepsonse) -> (r: Result<(), ()>) {
        Err(())
    }

    fn handle_response_mut(&mut self, response: IoClientRepsonse) -> (r: Result<(), ()>) {
        self.handle_server_response(response);
        Ok(())
    }
}

} // verus!
