use vstd::prelude::*;

verus! {

/// Why an upstream fetch failed, as reported by the I/O layer that performed
/// the request: the request never completed, the server answered with a
/// non-success status, or the payload could not be decoded.
#[derive(Debug, Clone, Copy, PartialEq, Eq, Structural)]
pub enum FetchError {
    Network,
    Status(u16),
    Malformed,
}

/// Why enqueueing on the job or event queue failed: the queue is at capacity,
/// or its consumer is gone.
#[derive(Debug, Clone, Copy, PartialEq, Eq, Structural)]
pub enum DispatchError {
    Full,
    Closed,
}

/// The library's error type.
#[derive(Debug, Clone, Copy, PartialEq, Eq, Structural)]
pub enum Error {
    DispatchJob(DispatchError),
    DispatchEvent(DispatchError),
    Fetch(FetchError),
}

} // verus!
