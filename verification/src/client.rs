//! The client-side engine: the [`Session`] capability implemented over the
//! external TLS record engine.
//!
//! Every wrapper here only calls one function of the external engine and
//! converts its arguments and result; the engine itself — cipher suites,
//! certificate validation, key schedule, the record format — is trusted,
//! not verified.

use std::io::{Read, Write};

use vstd::prelude::*;

use crate::engine::{FeedOutcome, PlainFlush, PlainRead, PlainWrite, ProcessOutcome, Session};

verus! {

#[verifier::external_type_specification]
#[verifier::external_body]
pub struct ExClientConnection(rustls_fork_shadow_tls::ClientConnection);

/// Relies on `ClientConnection::read_tls`, reading from a byte slice: it
/// consumes a front prefix of the slice (a slice read never hands out more
/// than the slice holds), or reports why it refuses input.
#[verifier::external_body]
fn conn_read_tls(conn: &mut rustls_fork_shadow_tls::ClientConnection, src: &[u8]) -> (r:
    FeedOutcome)
    ensures
        r matches FeedOutcome::Took(n) ==> n <= src@.len(),
{
    let mut rd: &[u8] = src;
    match conn.read_tls(&mut rd) {
        Ok(n) => FeedOutcome::Took(n),
        Err(e) => FeedOutcome::Refused(format!("{e}")),
    }
}

/// Relies on `ClientConnection::process_new_packets` and
/// `IoState::peer_has_closed`.
#[verifier::external_body]
fn conn_process_new_packets(conn: &mut rustls_fork_shadow_tls::ClientConnection) -> (r:
    ProcessOutcome) {
    match conn.process_new_packets() {
        Ok(state) => ProcessOutcome::Processed { peer_closed: state.peer_has_closed() },
        Err(e) => ProcessOutcome::ProtocolError(format!("{e}")),
    }
}

/// Relies on `CommonState::is_handshaking`.
#[verifier::external_body]
fn conn_is_handshaking(conn: &rustls_fork_shadow_tls::ClientConnection) -> (r: bool) {
    conn.is_handshaking()
}

/// Relies on `CommonState::wants_read`.
#[verifier::external_body]
fn conn_wants_read(conn: &rustls_fork_shadow_tls::ClientConnection) -> (r: bool) {
    conn.wants_read()
}

/// Relies on `CommonState::wants_write`.
#[verifier::external_body]
fn conn_wants_write(conn: &rustls_fork_shadow_tls::ClientConnection) -> (r: bool) {
    conn.wants_write()
}

/// Relies on `CommonState::write_tls`, writing into a byte slice: it
/// writes at most the slice's length and reports how much it wrote; a
/// slice sink itself never fails.
#[verifier::external_body]
fn conn_write_tls(conn: &mut rustls_fork_shadow_tls::ClientConnection, max: usize) -> (v: Vec<u8>)
    ensures
        v@.len() <= max,
{
    let mut buf = vec![0u8; max];
    let mut wr: &mut [u8] = &mut buf;
    let n = match conn.write_tls(&mut wr) {
        Ok(n) => n,
        Err(_) => 0,
    };
    buf.truncate(n);
    buf
}

/// Relies on `Reader::read`: it delivers at most the destination's length
/// (an empty delivery into a non-empty destination means clean closure), a
/// would-block error when more ciphertext must be processed first, and
/// other errors (such as an unclean closure) as they are.
#[verifier::external_body]
fn conn_read_plaintext(conn: &mut rustls_fork_shadow_tls::ClientConnection, max: usize) -> (r:
    PlainRead)
    ensures
        r matches PlainRead::Data(v) ==> v@.len() <= max,
{
    let mut buf = vec![0u8; max];
    match conn.reader().read(&mut buf) {
        Ok(n) => {
            buf.truncate(n);
            PlainRead::Data(buf)
        },
        Err(e) if e.kind() == std::io::ErrorKind::WouldBlock => PlainRead::NeedData,
        Err(e) => PlainRead::Failed(format!("{e}")),
    }
}

/// Relies on `Writer::write`: it buffers a front prefix of the data for
/// encryption and reports how much it accepted.
#[verifier::external_body]
fn conn_write_plaintext(conn: &mut rustls_fork_shadow_tls::ClientConnection, src: &[u8]) -> (r:
    PlainWrite)
    ensures
        r matches PlainWrite::Accepted(n) ==> n <= src@.len(),
{
    match conn.writer().write(src) {
        Ok(n) => PlainWrite::Accepted(n),
        Err(e) => PlainWrite::Refused(format!("{e}")),
    }
}

/// Relies on `Writer::flush`.
#[verifier::external_body]
fn conn_flush_plaintext(conn: &mut rustls_fork_shadow_tls::ClientConnection) -> (r: PlainFlush) {
    match conn.writer().flush() {
        Ok(()) => PlainFlush::Flushed,
        Err(e) => PlainFlush::Refused(format!("{e}")),
    }
}

/// Relies on `CommonState::send_close_notify`: queues the close-notify
/// signal to be pulled as ciphertext.
#[verifier::external_body]
fn conn_send_close_notify(conn: &mut rustls_fork_shadow_tls::ClientConnection) {
    conn.send_close_notify();
}

/// A client session: the external engine's client connection, presented
/// through the [`Session`] capability.
pub struct ClientSession {
    pub conn: rustls_fork_shadow_tls::ClientConnection,
}

impl ClientSession {
    /// Wrap an already-built client connection. Building the connection —
    /// configuration, trust anchors, server name, optional session
    /// identifier generator — is connector glue outside this library.
    pub fn from_connection(conn: rustls_fork_shadow_tls::ClientConnection) -> (r: ClientSession)
        ensures
            r.conn == conn,
    {
        ClientSession { conn }
    }

    /// Recover the engine's connection object.
    pub fn into_connection(self) -> (r: rustls_fork_shadow_tls::ClientConnection)
        ensures
            r == self.conn,
    {
        self.conn
    }
}

impl Session for ClientSession {
    fn feed_ciphertext(&mut self, src: &[u8]) -> (r: FeedOutcome) {
        conn_read_tls(&mut self.conn, src)
    }

    fn process_packets(&mut self) -> (r: ProcessOutcome) {
        conn_process_new_packets(&mut self.conn)
    }

    fn is_handshaking(&self) -> (r: bool) {
        conn_is_handshaking(&self.conn)
    }

    fn wants_read(&self) -> (r: bool) {
        conn_wants_read(&self.conn)
    }

    fn wants_write(&self) -> (r: bool) {
        conn_wants_write(&self.conn)
    }

    fn pull_ciphertext(&mut self, max: usize) -> (v: Vec<u8>) {
        conn_write_tls(&mut self.conn, max)
    }

    fn read_plaintext(&mut self, max: usize) -> (r: PlainRead) {
        conn_read_plaintext(&mut self.conn, max)
    }

    fn write_plaintext(&mut self, src: &[u8]) -> (r: PlainWrite) {
        conn_write_plaintext(&mut self.conn, src)
    }

    fn flush_plaintext(&mut self) -> (r: PlainFlush) {
        conn_flush_plaintext(&mut self.conn)
    }

    fn send_close_notify(&mut self) {
        conn_send_close_notify(&mut self.conn);
    }
}

} // verus!
