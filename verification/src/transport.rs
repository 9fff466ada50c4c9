//! The transport port: the non-blocking byte stream under the adapter.
//!
//! The adapter is driven by polling. Every transport operation either
//! completes at once, reports that it would have to wait (the caller must
//! poll again later), or fails. Implementations are supplied by the user of
//! the library; an implementation must honour the stated postconditions.

use vstd::prelude::*;

use crate::error::TransportError;

verus! {

/// Result of polling the transport for incoming bytes. An empty delivery
/// means the transport reached end of input.
#[derive(Debug)]
pub enum ReadPoll {
    /// Bytes arrived; an empty vector means end of input.
    Ready(Vec<u8>),
    /// The transport is not ready; poll again later.
    Pending,
    /// The transport failed.
    Failed(TransportError),
}

/// Result of a byte-counting transport or strategy operation.
#[derive(Debug, PartialEq, Eq, Structural)]
pub enum IoPoll {
    /// The operation completed, moving this many bytes.
    Ready(usize),
    /// The transport is not ready; poll again later.
    Pending,
    /// The transport failed.
    Failed(TransportError),
}

/// Result of a transport operation that moves no bytes.
#[derive(Debug, PartialEq, Eq, Structural)]
pub enum UnitPoll {
    Done,
    Pending,
    Failed(TransportError),
}

/// A non-blocking bidirectional byte stream. The suspension points of the
/// adapter are exactly the calls into this trait: everything else the
/// adapter does is synchronous bookkeeping.
///
/// Preconditions on transports usable with the split mechanism: the
/// transport must tolerate interleaved, independently scheduled reads and
/// writes without corrupting shared state, and it must be driven by a
/// single cooperative scheduler.
pub trait Transport {
    /// Poll for at most `max` incoming bytes. An empty delivery means end
    /// of input, so `max` must be positive.
    fn poll_read(&mut self, max: usize) -> (r: ReadPoll)
        requires
            max > 0,
        ensures
            r matches ReadPoll::Ready(v) ==> v@.len() <= max,
    ;

    /// Try to send a prefix of `src`; reports how many bytes were accepted.
    fn poll_write(&mut self, src: &[u8]) -> (r: IoPoll)
        ensures
            r matches IoPoll::Ready(n) ==> n <= src@.len(),
    ;

    /// Flush whatever the transport itself buffers.
    fn poll_flush(&mut self) -> UnitPoll;

    /// Shut down the sending side of the transport.
    fn poll_shutdown(&mut self) -> UnitPoll;

    /// Whether the transport handles vectored writes efficiently.
    fn is_write_vectored(&self) -> bool;
}

} // verus!
