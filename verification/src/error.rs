//! Error taxonomy of the adapter.
//!
//! Transport errors are passed through unchanged (as the code the transport
//! reported), protocol errors from the engine are fatal and carry the
//! engine's diagnostic, and the three flavours of premature termination are
//! kept distinct from a clean shutdown.

use vstd::prelude::*;

verus! {

/// An error reported by the transport, carried through the adapter
/// unchanged. The code is chosen by the transport implementation; the
/// adapter never interprets it, except that it produces
/// [`CODE_WRITE_ZERO`] itself when a transport write makes no progress on a
/// non-empty buffer.
#[derive(Clone, Copy, Debug, PartialEq, Eq, Structural)]
pub struct TransportError {
    pub code: u64,
}

/// Code used for the error the adapter reports when the transport accepts
/// zero bytes of a non-empty write, which would otherwise loop forever.
pub const CODE_WRITE_ZERO: u64 = 0xffff_ffff_0000_0001;

/// Which premature termination of the byte stream was observed.
#[derive(Clone, Copy, Debug, PartialEq, Eq, Structural)]
pub enum EofReason {
    /// The peer signalled close while the handshake was still in progress.
    HandshakeAlert,
    /// The transport reached end of input while the handshake was still in
    /// progress.
    HandshakeEof,
    /// The transport ended while a plaintext record was still incomplete
    /// after the handshake.
    StreamEof,
}

/// One error value from the adapter's taxonomy.
#[derive(Debug, PartialEq, Eq)]
pub enum TlsError {
    /// A transport error, passed through unchanged.
    Transport(TransportError),
    /// The engine reported a record or handshake violation; the payload is
    /// the engine's diagnostic. Fatal to the connection.
    InvalidData(String),
    /// Premature termination: the byte stream ended where the protocol
    /// still owed data.
    UnexpectedEof(EofReason),
    /// Any other error surfaced by the engine (for example by its plaintext
    /// reader or writer), passed through as its diagnostic.
    Engine(String),
    /// A split handle was used with a cell it does not belong to, or the
    /// connection is not currently parked in the cell. Non-fatal: the
    /// checked single-owner-at-a-time accessor refused the access.
    NotAttached,
}

/// Outcome of one step of the adapter: the step delivered a value, cannot
/// make progress until the transport is ready and must be retried later, or
/// failed.
#[derive(Debug)]
pub enum Progress<T> {
    /// The step completed and delivered this value.
    Ready(T),
    /// The transport was not ready; the caller must poll again later with
    /// the same arguments. All progress so far is retained in the adapter's
    /// state.
    Pending,
    /// The step failed.
    Failed(TlsError),
}

} // verus!
