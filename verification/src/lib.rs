//! Adapter between a synchronous, pull-based TLS record engine and a
//! non-blocking byte transport.
//!
//! The crate is built from small verified pieces: a fixed-capacity ring
//! buffer ([`buffer::Buffer`]), a copying buffering strategy
//! ([`safe_io::SafeRead`], [`safe_io::SafeWrite`]) that lets the synchronous
//! engine cooperate with a transport that is polled and may report that it
//! is not ready yet, a zero-copy buffering strategy ([`zero_copy`]) that
//! records the caller's region instead of copying, the stream orchestrator
//! ([`stream::Stream`]) that drives handshake and record flow, and the
//! split/reunite mechanism ([`split`]) that lets one connection be driven by
//! two independently scheduled handles.
//!
//! The two external collaborators are ports: the transport
//! ([`transport::Transport`]) is the user's non-blocking byte stream, and
//! the engine ([`engine::Session`]) is the synchronous TLS record engine,
//! implemented over the external TLS library by
//! [`client::ClientSession`].

pub mod buffer;
pub mod client;
pub mod engine;
pub mod error;
pub mod safe_io;
pub mod split;
pub mod stream;
pub mod transport;
pub mod zero_copy;
