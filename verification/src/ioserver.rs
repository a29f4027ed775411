//! The worker side of the stream protocol: the dispatch loop that owns
//! every opened stream.
//!
//! One worker consumes the shared request queue, serves each request
//! synchronously, and sends exactly one response on the reply channel the
//! request arrived with. It owns the table of opened streams; clients name
//! them by opaque handles, so no shared-ownership primitive ever crosses
//! the client/worker boundary and all decode state stays confined here.
//!
//! Every request yields exactly one response, on success and on failure
//! alike: an open that fails is answered with an error rather than
//! silence, and a `ReadBlock`'s read-ahead notification is the reply that
//! carries its block, sent once the decode is done — transient decode
//! errors are retried here, up to a bound, not reported per attempt.
//!
//! A `ReadBlock` reply carries the decoded block's deinterleaved,
//! working-representation channels at the source stream's own rate: the
//! per-block rate adapter is sized (`SampleBlock::resampler_params`) but
//! deliberately not yet applied, so a consumer may adapt or resample as it
//! sees fit.

use vstd::prelude::*;

use crate::file_handle::{DecodeStep, FileHandle};
use crate::ioclient::{
    Envelope, IoClient, IoClientRepsonse, IoClientRequest, IoClientState, StreamDescriptor,
    StreamErrorKind, StreamId,
};
use crate::samples::convert_block;

verus! {

use crate::channel::{channel_unbounded, clone_sender, receive_blocking, send_message, try_receive, PollOutcome};

/// How many corrupt packets the worker skips on one `ReadBlock` before it
/// gives up and surfaces the failure. A transient decode error is retried
/// here, never reported per attempt.
pub const DECODE_RETRY_LIMIT: u64 = 8;

/// A source of media bytes. The worker asks it for the bytes of a named
/// source; reading files or sockets stays outside the verified core,
/// behind this interface.
pub trait MediaLoader {
    /// The bytes of the named source, if it can be read.
    fn load(&mut self, path: &String) -> (r: Option<Vec<u8>>);
}

/// The first entry of `files` at or after `i` whose name is `path`, if any.
pub open spec fn lookup_from(files: Seq<(String, Vec<u8>)>, path: String, i: int) -> Option<
    Vec<u8>,
>
    decreases files.len() - i,
{
    if i < 0 || i >= files.len() {
        None
    } else if files[i].0@ == path@ {
        Some(files[i].1)
    } else {
        lookup_from(files, path, i + 1)
    }
}

/// An in-memory media source: named byte buffers. Serves a worker whose
/// embedder supplies sources directly, and keeps every byte it hands out
/// reproducible.
pub struct MemoryLoader {
    /// Name/contents pairs; the first matching name wins.
    pub files: Vec<(String, Vec<u8>)>,
}

impl MemoryLoader {
    /// An empty loader.
    pub fn new() -> (l: MemoryLoader)
        ensures
            l.files@.len() == 0,
    {
        MemoryLoader { files: Vec::new() }
    }

    /// Add a named source.
    pub fn insert(&mut self, name: String, data: Vec<u8>)
        ensures
            final(self).files@ == old(self).files@.push((name, data)),
    {
        self.files.push((name, data));
    }

    /// The contents of the first entry named `path`, if any.
    pub fn lookup(&self, path: &String) -> (r: Option<Vec<u8>>)
        ensures
            (r is Some) == (lookup_from(self.files@, *path, 0) is Some),
            r matches Some(d) ==> lookup_from(self.files@, *path, 0) matches Some(e) && d@ == e@,
    {
        let mut i: usize = 0;
        while i < self.files.len()
            invariant
                i <= self.files@.len(),
                lookup_from(self.files@, *path, 0) == lookup_from(self.files@, *path, i as int),
            decreases self.files@.len() - i,
        {
            if self.files[i].0 == *path {
                let found = self.files[i].1.clone();
                proof {
                    assert(lookup_from(self.files@, *path, i as int) == Some(
                        self.files@[i as int].1,
                    ));
                    assert(found@ =~= self.files@[i as int].1@);
                }
                return Some(found);
            }
            i = i + 1;
        }
        None
    }
}

impl MediaLoader for MemoryLoader {
    fn load(&mut self, path: &String) -> (r: Option<Vec<u8>>) {
        self.lookup(path)
    }
}

/// The worker: the consuming end of the shared request queue and the table
/// of every stream it has opened, named by index.
pub struct IoServer {
    /// The consuming end of the shared request queue.
    pub request_rx: crossbeam::channel::Receiver<Envelope>,
    /// The opened streams; a `StreamId` is an index into this table.
    pub streams: Vec<FileHandle>,
}

/// The stream table keeps its length and every stream's declared
/// parameters; only decode cursors may have moved.
pub open spec fn streams_compatible(pre: Seq<FileHandle>, post: Seq<FileHandle>) -> bool {
    &&& post.len() == pre.len()
    &&& forall|i: int|
        0 <= i < pre.len() ==> (#[trigger] post[i]).sample_rate == pre[i].sample_rate && post[
            i
        ].channel_count == pre[i].channel_count
}

/// The stream table only ever grows: every stream already in it stays,
/// under its handle and with its declared parameters (only decode cursors
/// may have moved); new streams are appended after it.
pub open spec fn table_extends(pre: Seq<FileHandle>, post: Seq<FileHandle>) -> bool {
    &&& post.len() >= pre.len()
    &&& forall|i: int|
        0 <= i < pre.len() ==> (#[trigger] post[i]).sample_rate == pre[i].sample_rate && post[
            i
        ].channel_count == pre[i].channel_count
}

/// `table_extends` chains across successive served requests.
pub proof fn lemma_table_extends_trans(a: Seq<FileHandle>, b: Seq<FileHandle>, c: Seq<FileHandle>)
    requires
        table_extends(a, b),
        table_extends(b, c),
    ensures
        table_extends(a, c),
{
}

/// What serving an `OpenFile` request does: either a fresh stream is
/// appended to the table and announced with its declared parameters under
/// the handle naming it, or the table is untouched and the one response is
/// an open failure.
pub open spec fn open_post(pre: IoServer, post: IoServer, resp: IoClientRepsonse) -> bool {
    match resp {
        IoClientRepsonse::BufferOpened(d) => {
            &&& d.stream.0 == pre.streams@.len()
            &&& exists|h: FileHandle|
                post.streams@ == pre.streams@.push(h) && h.sample_rate == d.sample_rate
                    && h.channel_count == d.channel_count
        },
        IoClientRepsonse::Error(k) => {
            &&& k == StreamErrorKind::OpenFailure
            &&& post.streams@ == pre.streams@
        },
        _ => false,
    }
}

/// What serving a `ReadBlock` request does: a handle outside the table is
/// answered with a decode failure and the table untouched; a handle inside
/// it is answered either with one well-formed converted block at that
/// stream's rate, or with a decode failure once the retry bound is spent.
/// Either way only that stream's decode cursor moves.
pub open spec fn read_post(pre: IoServer, post: IoServer, id: StreamId, resp: IoClientRepsonse,) -> bool {
    &&& streams_compatible(pre.streams@, post.streams@)
    &&& if id.0 >= pre.streams@.len() {
        &&& resp matches IoClientRepsonse::Error(k) && k == StreamErrorKind::DecodeFailure
        &&& post.streams@ == pre.streams@
    } else {
        &&& forall|j: int|
            0 <= j < pre.streams@.len() && j != id.0 ==> #[trigger] post.streams@[j]
                == pre.streams@[j]
        &&& match resp {
            IoClientRepsonse::ReadingAhead(b) => {
                &&& b.wf()
                &&& b.source_rate == pre.streams@[id.0 as int].sample_rate
            },
            IoClientRepsonse::Error(k) => k == StreamErrorKind::DecodeFailure,
            _ => false,
        }
    }
}

impl IoServer {
    /// Admit an opened decode session to the stream table: it gets the
    /// next free handle, and its announcement carries exactly the
    /// parameters its codec declares.
    pub fn admit_stream(&mut self, handle: FileHandle) -> (d: StreamDescriptor)
        ensures
            d.stream.0 == old(self).streams@.len(),
            d.sample_rate == handle.sample_rate,
            d.channel_count == handle.channel_count,
            final(self).streams@ == old(self).streams@.push(handle),
    {
        let descriptor = StreamDescriptor {
            stream: StreamId(self.streams.len()),
            sample_rate: handle.sample_rate,
            channel_count: handle.channel_count,
        };
        self.streams.push(handle);
        descriptor
    }

    /// Serve one `OpenFile`: fetch the named source's bytes, open a decode
    /// session over them, and admit it to the stream table.
    pub fn open_file_handle<L: MediaLoader>(&mut self, loader: &mut L, path: &String) -> (resp:
        IoClientRepsonse)
        ensures
            open_post(*old(self), *final(self), resp),
    {
        let data = match loader.load(path) {
            Some(d) => d,
            None => {
                return IoClientRepsonse::Error(StreamErrorKind::OpenFailure);
            },
        };
        match FileHandle::new(data) {
            Ok(handle) => IoClientRepsonse::BufferOpened(self.admit_stream(handle)),
            Err(()) => IoClientRepsonse::Error(StreamErrorKind::OpenFailure),
        }
    }

    /// Serve one `ReadBlock` (the prefetch step): decode the stream's next
    /// block, skipping up to `DECODE_RETRY_LIMIT` corrupt packets, and
    /// convert it through the generic conversion path.
    pub fn prefetch_data(&mut self, id: StreamId) -> (resp: IoClientRepsonse)
        ensures
            read_post(*old(self), *final(self), id, resp),
    {
        let idx = id.0;
        if idx >= self.streams.len() {
            return IoClientRepsonse::Error(StreamErrorKind::DecodeFailure);
        }
        let mut handle = self.streams.remove(idx);
        let ghost taken = handle;
        let mut attempts: u64 = 0;
        let mut decoded: bool = false;
        while !decoded && attempts < DECODE_RETRY_LIMIT
            invariant
                attempts <= DECODE_RETRY_LIMIT,
                handle.sample_rate == taken.sample_rate,
                handle.channel_count == taken.channel_count,
            decreases DECODE_RETRY_LIMIT - attempts,
        {
            match handle.advance() {
                DecodeStep::Decoded => {
                    decoded = true;
                    attempts = attempts + 1;
                },
                DecodeStep::Corrupt => {
                    attempts = attempts + 1;
                },
                DecodeStep::End => {
                    attempts = DECODE_RETRY_LIMIT;
                },
            }
        }
        let resp = if decoded {
            let raw = handle.last_block();
            let block = convert_block(&raw, handle.sample_rate);
            IoClientRepsonse::ReadingAhead(block)
        } else {
            IoClientRepsonse::Error(StreamErrorKind::DecodeFailure)
        };
        self.streams.insert(idx, handle);
        proof {
            assert forall|j: int|
                0 <= j < old(self).streams@.len() && j != id.0 implies #[trigger] self.streams@[j]
                == old(self).streams@[j] by {
                assert(self.streams@ == old(self).streams@.remove(idx as int).insert(
                    idx as int,
                    handle,
                ));
            }
        }
        resp
    }

    /// Serve one request, returning exactly one response for it: the
    /// protocol's reply obligation, on every path including failure.
    pub fn dispatch<L: MediaLoader>(&mut self, loader: &mut L, request: IoClientRequest) -> (resp:
        IoClientRepsonse)
        ensures
            match request {
                IoClientRequest::OpenFile { .. } => open_post(*old(self), *final(self), resp),
                IoClientRequest::ReadBlock { file_handle } => read_post(
                    *old(self),
                    *final(self),
                    file_handle,
                    resp,
                ),
            },
    {
        match request {
            IoClientRequest::OpenFile { handle } => self.open_file_handle(loader, &handle),
            IoClientRequest::ReadBlock { file_handle } => self.prefetch_data(file_handle),
        }
    }

    /// One turn of the dispatch loop: block on the next envelope, serve
    /// it, and send its one response on the envelope's own reply channel.
    /// Reports whether an envelope was served; once every producing end of
    /// the request queue is gone, nothing more ever will be. A reply to a
    /// client that vanished mid-flight is dropped, never an error here.
    /// The embedder repeats this on the dedicated worker thread.
    pub fn serve_one<L: MediaLoader>(&mut self, loader: &mut L) -> (progress: bool)
        ensures
            table_extends(old(self).streams@, final(self).streams@),
            final(self).streams@.len() <= old(self).streams@.len() + 1,
            !progress ==> final(self).streams@ == old(self).streams@,
    {
        let (request, reply_tx) = match receive_blocking(&self.request_rx) {
            Some(envelope) => envelope,
            None => {
                return false;
            },
        };
        let resp = self.dispatch(loader, request);
        let _delivered = send_message(&reply_tx, resp);
        true
    }

    /// Serve the requests already queued, in arrival order, until the
    /// queue is momentarily empty, every producer is gone, or `limit`
    /// requests were served; reports how many were served, each answered
    /// with exactly one response.
    pub fn drain<L: MediaLoader>(&mut self, loader: &mut L, limit: usize) -> (served: usize)
        ensures
            served <= limit,
            table_extends(old(self).streams@, final(self).streams@),
            final(self).streams@.len() <= old(self).streams@.len() + served,
    {
        let mut served: usize = 0;
        while served < limit
            invariant
                served <= limit,
                table_extends(old(self).streams@, self.streams@),
                self.streams@.len() <= old(self).streams@.len() + served,
            decreases limit - served,
        {
            match try_receive(&self.request_rx) {
                PollOutcome::Message((request, reply_tx)) => {
                    let ghost mid = self.streams@;
                    let resp = self.dispatch(loader, request);
                    let _delivered = send_message(&reply_tx, resp);
                    served = served + 1;
                    proof {
                        lemma_table_extends_trans(old(self).streams@, mid, self.streams@);
                    }
                },
                PollOutcome::Empty => {
                    return served;
                },
                PollOutcome::Disconnected => {
                    return served;
                },
            }
        }
        served
    }
}

/// Wires the shared request queue: constructs the worker bound to the
/// queue's consuming end, and hands out clients bound to its producing
/// end. The embedder takes the worker once and runs its loop on a
/// dedicated thread.
pub struct IoServerController {
    /// The producing end of the shared request queue.
    pub request_tx: crossbeam::channel::Sender<Envelope>,
    /// The worker, until the embedder takes it to run it.
    pub server: Option<IoServer>,
}

impl IoServerController {
    /// A fresh queue, with a worker owning its consuming end and an empty
    /// stream table.
    pub fn new() -> (c: IoServerController)
        ensures
            c.server matches Some(s) && s.streams@.len() == 0,
    {
        let (request_tx, request_rx) = channel_unbounded();
        IoServerController { request_tx, server: Some(IoServer { request_rx, streams: Vec::new() }) }
    }

    /// Hand the worker out to be run; the controller keeps the queue's
    /// producing end for the clients it opens.
    pub fn take_server(&mut self) -> (s: Option<IoServer>)
        ensures
            s == old(self).server,
            final(self).server is None,
    {
        self.server.take()
    }

    /// A new client that will open the named source, bound to the shared
    /// request queue.
    pub fn open_stream(&self, handle: String) -> (c: IoClient)
        ensures
            c.state == IoClientState::Idle,
            c.stream is None,
            c.latest_block is None,
            c.file_path == handle,
    {
        IoClient::new(handle, clone_sender(&self.request_tx))
    }
}

} // verus!
