//! Streaming access to decoded audio through an actor-style request/reply
//! protocol: clients send requests over a shared queue, a single worker
//! serves them, and every request receives exactly one response.

use vstd::prelude::*;

pub mod channel;
pub mod file_handle;
pub mod ioclient;
pub mod ioserver;
pub mod request_reply;
pub mod samples;

verus! {

/// All decoded audio is delivered at this nominal output rate; each source
/// stream is adapted per block from its own rate.
pub const TARGET_SAMPLE_RATE: u32 = 44100;

} // verus!
