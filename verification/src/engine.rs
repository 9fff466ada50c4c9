//! The engine port: the narrow capability the adapter needs from the
//! synchronous TLS record engine.
//!
//! The engine is an external collaborator: the adapter feeds it received
//! ciphertext, pulls decrypted plaintext, pushes plaintext to encrypt,
//! pulls produced ciphertext, queries its handshake/close state and
//! triggers close-notify — nothing else. [`crate::client::ClientSession`]
//! implements this capability over the external TLS implementation; tests
//! and other engines may supply their own implementation, which must
//! honour the stated postconditions.

use vstd::prelude::*;

verus! {

/// Outcome of feeding received ciphertext to the engine.
#[derive(Debug)]
pub enum FeedOutcome {
    /// The engine consumed this many front bytes of what was offered.
    Took(usize),
    /// The engine refused to take input in its current state; its
    /// diagnostic is passed through.
    Refused(String),
}

/// Outcome of advancing the engine's protocol state.
#[derive(Debug)]
pub enum ProcessOutcome {
    /// The pending records were processed; reports whether the peer has
    /// signalled close.
    Processed { peer_closed: bool },
    /// The engine reported a record or handshake violation; fatal.
    ProtocolError(String),
}

/// Outcome of pulling decrypted plaintext out of the engine.
#[derive(Debug)]
pub enum PlainRead {
    /// Decrypted bytes; an empty delivery means the peer closed the
    /// session cleanly.
    Data(Vec<u8>),
    /// No plaintext is available yet: more ciphertext must be fed and
    /// processed first.
    NeedData,
    /// The engine's plaintext reader failed; its diagnostic is passed
    /// through.
    Failed(String),
}

/// Outcome of pushing plaintext into the engine for encryption.
#[derive(Debug)]
pub enum PlainWrite {
    /// The engine accepted this many front bytes.
    Accepted(usize),
    /// The engine's plaintext writer refused the write; its diagnostic is
    /// passed through.
    Refused(String),
}

/// Outcome of flushing the engine's plaintext writer.
#[derive(Debug)]
pub enum PlainFlush {
    Flushed,
    /// The writer refused to flush; its diagnostic is passed through.
    Refused(String),
}

/// The synchronous TLS record engine, consumed through a narrow
/// capability. All calls are synchronous CPU work and never suspend.
pub trait Session {
    /// Feed received ciphertext; the engine consumes a front prefix.
    fn feed_ciphertext(&mut self, src: &[u8]) -> (r: FeedOutcome)
        ensures
            r matches FeedOutcome::Took(n) ==> n <= src@.len(),
    ;

    /// Process the records fed so far, advancing the protocol state.
    fn process_packets(&mut self) -> ProcessOutcome;

    /// Whether the initial handshake is still in progress.
    fn is_handshaking(&self) -> bool;

    /// Whether the engine wants more ciphertext fed to it.
    fn wants_read(&self) -> bool;

    /// Whether the engine has ciphertext waiting to be pulled.
    fn wants_write(&self) -> bool;

    /// Pull at most `max` bytes of produced ciphertext.
    fn pull_ciphertext(&mut self, max: usize) -> (v: Vec<u8>)
        ensures
            v@.len() <= max,
    ;

    /// Pull at most `max` bytes of decrypted plaintext.
    fn read_plaintext(&mut self, max: usize) -> (r: PlainRead)
        ensures
            r matches PlainRead::Data(v) ==> v@.len() <= max,
    ;

    /// Push plaintext to be encrypted; the engine accepts a front prefix.
    fn write_plaintext(&mut self, src: &[u8]) -> (r: PlainWrite)
        ensures
            r matches PlainWrite::Accepted(n) ==> n <= src@.len(),
    ;

    /// Ensure the engine's plaintext writer holds no residual buffered
    /// plaintext.
    fn flush_plaintext(&mut self) -> PlainFlush;

    /// Queue a close-notify signal to be pulled as ciphertext.
    fn send_close_notify(&mut self);
}

} // verus!
