//! Tests against the real TLS record engine: a client driven through the
//! library's stream, handshaking over an in-memory loopback with a server
//! driven through the same orchestrator via a test-local server session.
//! Certificate verification is disabled on the client (the test trusts any
//! certificate), and the server signs with a freshly generated key.

use std::cell::RefCell;
use std::collections::VecDeque;
use std::io::{Read, Write};
use std::rc::Rc;
use std::sync::Arc;
use std::time::SystemTime;

use rustls_fork_shadow_tls::client::{
    HandshakeSignatureValid, ServerCertVerified, ServerCertVerifier, ServerName,
};
use rustls_fork_shadow_tls::server::ServerConnection;
use rustls_fork_shadow_tls::{
    Certificate, ClientConfig, ClientConnection, DigitallySignedStruct, PrivateKey, ServerConfig,
};

use tls_adapter::client::ClientSession;
use tls_adapter::engine::{
    FeedOutcome, PlainFlush, PlainRead, PlainWrite, ProcessOutcome, Session,
};
use tls_adapter::error::{EofReason, Progress, TlsError};
use tls_adapter::stream::Stream;
use tls_adapter::transport::{IoPoll, ReadPoll, Transport, UnitPoll};

struct PipeEnd {
    rx: Rc<RefCell<VecDeque<u8>>>,
    tx: Rc<RefCell<VecDeque<u8>>>,
    rx_eof: Rc<RefCell<bool>>,
    tx_eof: Rc<RefCell<bool>>,
    write_cap: usize,
}

fn pipe_pair(write_cap: usize) -> (PipeEnd, PipeEnd) {
    let ab = Rc::new(RefCell::new(VecDeque::new()));
    let ba = Rc::new(RefCell::new(VecDeque::new()));
    let ab_eof = Rc::new(RefCell::new(false));
    let ba_eof = Rc::new(RefCell::new(false));
    let a = PipeEnd {
        rx: ba.clone(),
        tx: ab.clone(),
        rx_eof: ba_eof.clone(),
        tx_eof: ab_eof.clone(),
        write_cap,
    };
    let b = PipeEnd { rx: ab, tx: ba, rx_eof: ab_eof, tx_eof: ba_eof, write_cap };
    (a, b)
}

impl Transport for PipeEnd {
    fn poll_read(&mut self, max: usize) -> ReadPoll {
        let mut q = self.rx.borrow_mut();
        if q.is_empty() {
            if *self.rx_eof.borrow() {
                ReadPoll::Ready(Vec::new())
            } else {
                ReadPoll::Pending
            }
        } else {
            let n = q.len().min(max);
            ReadPoll::Ready(q.drain(..n).collect())
        }
    }

    fn poll_write(&mut self, src: &[u8]) -> IoPoll {
        let n = src.len().min(self.write_cap);
        self.tx.borrow_mut().extend(&src[..n]);
        IoPoll::Ready(n)
    }

    fn poll_flush(&mut self) -> UnitPoll {
        UnitPoll::Done
    }

    fn poll_shutdown(&mut self) -> UnitPoll {
        *self.tx_eof.borrow_mut() = true;
        UnitPoll::Done
    }

    fn is_write_vectored(&self) -> bool {
        false
    }
}

/// Trusts any certificate and any handshake signature: these tests
/// exercise the adapter, not certificate policy.
struct TrustAnything;

impl ServerCertVerifier for TrustAnything {
    fn verify_server_cert(
        &self,
        _end_entity: &Certificate,
        _intermediates: &[Certificate],
        _server_name: &ServerName,
        _scts: &mut dyn Iterator<Item = &[u8]>,
        _ocsp_response: &[u8],
        _now: SystemTime,
    ) -> Result<ServerCertVerified, rustls_fork_shadow_tls::Error> {
        Ok(ServerCertVerified::assertion())
    }

    fn verify_tls12_signature(
        &self,
        _message: &[u8],
        _cert: &Certificate,
        _dss: &DigitallySignedStruct,
    ) -> Result<HandshakeSignatureValid, rustls_fork_shadow_tls::Error> {
        Ok(HandshakeSignatureValid::assertion())
    }

    fn verify_tls13_signature(
        &self,
        _message: &[u8],
        _cert: &Certificate,
        _dss: &DigitallySignedStruct,
    ) -> Result<HandshakeSignatureValid, rustls_fork_shadow_tls::Error> {
        Ok(HandshakeSignatureValid::assertion())
    }
}

fn client_config() -> Arc<ClientConfig> {
    Arc::new(
        ClientConfig::builder()
            .with_safe_defaults()
            .with_custom_certificate_verifier(Arc::new(TrustAnything))
            .with_no_client_auth(),
    )
}

fn server_config() -> Arc<ServerConfig> {
    let rng = ring::rand::SystemRandom::new();
    let pkcs8 =
        ring::signature::EcdsaKeyPair::generate_pkcs8(
            &ring::signature::ECDSA_P256_SHA256_ASN1_SIGNING,
            &rng,
        )
        .expect("key generation failed");
    // The client trusts anything, so the certificate bytes need not parse.
    let cert = Certificate(vec![0x30, 0x03, 0x02, 0x01, 0x01]);
    let key = PrivateKey(pkcs8.as_ref().to_vec());
    Arc::new(
        ServerConfig::builder()
            .with_safe_defaults()
            .with_no_client_auth()
            .with_single_cert(vec![cert], key)
            .expect("server config rejected the key"),
    )
}

/// The server side of the engine capability, over the external engine's
/// server connection, mirroring the library's client session.
struct ServerSession {
    conn: ServerConnection,
}

impl Session for ServerSession {
    fn feed_ciphertext(&mut self, src: &[u8]) -> FeedOutcome {
        let mut rd: &[u8] = src;
        match self.conn.read_tls(&mut rd) {
            Ok(n) => FeedOutcome::Took(n),
            Err(e) => FeedOutcome::Refused(format!("{e}")),
        }
    }

    fn process_packets(&mut self) -> ProcessOutcome {
        match self.conn.process_new_packets() {
            Ok(state) => ProcessOutcome::Processed { peer_closed: state.peer_has_closed() },
            Err(e) => ProcessOutcome::ProtocolError(format!("{e}")),
        }
    }

    fn is_handshaking(&self) -> bool {
        self.conn.is_handshaking()
    }

    fn wants_read(&self) -> bool {
        self.conn.wants_read()
    }

    fn wants_write(&self) -> bool {
        self.conn.wants_write()
    }

    fn pull_ciphertext(&mut self, max: usize) -> Vec<u8> {
        let mut buf = vec![0u8; max];
        let mut wr: &mut [u8] = &mut buf;
        let n = self.conn.write_tls(&mut wr).unwrap_or(0);
        buf.truncate(n);
        buf
    }

    fn read_plaintext(&mut self, max: usize) -> PlainRead {
        let mut buf = vec![0u8; max];
        match self.conn.reader().read(&mut buf) {
            Ok(n) => {
                buf.truncate(n);
                PlainRead::Data(buf)
            }
            Err(e) if e.kind() == std::io::ErrorKind::WouldBlock => PlainRead::NeedData,
            Err(e) => PlainRead::Failed(format!("{e}")),
        }
    }

    fn write_plaintext(&mut self, src: &[u8]) -> PlainWrite {
        match self.conn.writer().write(src) {
            Ok(n) => PlainWrite::Accepted(n),
            Err(e) => PlainWrite::Refused(format!("{e}")),
        }
    }

    fn flush_plaintext(&mut self) -> PlainFlush {
        match self.conn.writer().flush() {
            Ok(()) => PlainFlush::Flushed,
            Err(e) => PlainFlush::Refused(format!("{e}")),
        }
    }

    fn send_close_notify(&mut self) {
        self.conn.send_close_notify();
    }
}

fn tls_pair(write_cap: usize) -> (Stream<PipeEnd, ClientSession>, Stream<PipeEnd, ServerSession>) {
    let (a, b) = pipe_pair(write_cap);
    let name = ServerName::try_from("localhost").expect("bad name");
    let cconn = ClientConnection::new(client_config(), name).expect("client connection");
    let sconn = ServerConnection::new(server_config()).expect("server connection");
    let mut client = Stream::new(a, ClientSession::from_connection(cconn));
    let mut server = Stream::new(b, ServerSession { conn: sconn });
    let mut client_done = false;
    let mut server_done = false;
    for _ in 0..200 {
        if !client_done {
            match client.handshake() {
                Progress::Ready(_) => client_done = true,
                Progress::Pending => {}
                Progress::Failed(e) => panic!("client handshake failed: {e:?}"),
            }
        }
        if !server_done {
            match server.handshake() {
                Progress::Ready(_) => server_done = true,
                Progress::Pending => {}
                Progress::Failed(e) => panic!("server handshake failed: {e:?}"),
            }
        }
        if client_done && server_done {
            return (client, server);
        }
    }
    panic!("TLS handshake did not complete");
}

#[test]
fn tls_client_server_echo_hello_world() {
    let (mut client, mut server) = tls_pair(usize::MAX);
    let data: &[u8] = &[104, 101, 108, 108, 111, 32, 119, 111, 114, 108, 100];
    // Client sends the eleven bytes.
    let mut written = 0;
    while written < data.len() {
        match client.poll_write(&data[written..]) {
            Progress::Ready(n) => written += n,
            Progress::Pending => {}
            Progress::Failed(e) => panic!("client write failed: {e:?}"),
        }
    }
    // Server reads exactly eleven bytes and echoes them.
    let mut got = Vec::new();
    let mut spins = 0;
    while got.len() < 11 {
        match server.read_inner(11 - got.len(), false) {
            Progress::Ready(v) => {
                assert!(!v.is_empty(), "server saw early close");
                got.extend_from_slice(&v);
            }
            Progress::Pending => {
                spins += 1;
                assert!(spins < 10000, "server stuck");
            }
            Progress::Failed(e) => panic!("server read failed: {e:?}"),
        }
    }
    assert_eq!(got, data);
    let mut echoed = 0;
    while echoed < got.len() {
        match server.poll_write(&got[echoed..]) {
            Progress::Ready(n) => echoed += n,
            Progress::Pending => {}
            Progress::Failed(e) => panic!("server write failed: {e:?}"),
        }
    }
    // Client reads exactly eleven bytes equal to the original.
    let mut back = Vec::new();
    let mut spins = 0;
    while back.len() < 11 {
        match client.read_inner(11 - back.len(), false) {
            Progress::Ready(v) => {
                assert!(!v.is_empty(), "client saw early close");
                back.extend_from_slice(&v);
            }
            Progress::Pending => {
                spins += 1;
                assert!(spins < 10000, "client stuck");
            }
            Progress::Failed(e) => panic!("client read failed: {e:?}"),
        }
    }
    assert_eq!(back, data);
}

#[test]
fn tls_round_trip_large_payload_small_transport_chunks() {
    // 2x the buffer capacity over a transport accepting at most 4096 bytes
    // per call: every byte arrives exactly once.
    let (mut client, mut server) = tls_pair(4096);
    let payload: Vec<u8> = (0..32768usize).map(|i| (i % 233) as u8).collect();
    let mut written = 0;
    while written < payload.len() {
        match client.poll_write(&payload[written..]) {
            Progress::Ready(n) => {
                assert!(n > 0, "no progress");
                written += n;
            }
            Progress::Pending => {}
            Progress::Failed(e) => panic!("client write failed: {e:?}"),
        }
    }
    let mut got = Vec::new();
    let mut spins = 0;
    while got.len() < payload.len() {
        match server.read_inner(payload.len() - got.len(), false) {
            Progress::Ready(v) => {
                assert!(!v.is_empty(), "server saw early close");
                got.extend_from_slice(&v);
            }
            Progress::Pending => {
                spins += 1;
                assert!(spins < 100000, "server stuck");
            }
            Progress::Failed(e) => panic!("server read failed: {e:?}"),
        }
    }
    assert_eq!(got, payload);
}

#[test]
fn tls_handshake_against_closed_transport_fails_with_premature_eof() {
    // The transport reports end of input before the handshake finished:
    // the handshake fails with premature termination instead of hanging.
    let (a, _b) = pipe_pair(usize::MAX);
    *a.rx_eof.borrow_mut() = true;
    let name = ServerName::try_from("localhost").expect("bad name");
    let cconn = ClientConnection::new(client_config(), name).expect("client connection");
    let mut client = Stream::new(a, ClientSession::from_connection(cconn));
    match client.handshake() {
        Progress::Failed(TlsError::UnexpectedEof(reason)) => {
            assert_eq!(reason, EofReason::HandshakeEof);
        }
        other => panic!("expected premature termination, got {other:?}"),
    }
}

#[test]
fn tls_shutdown_sends_close_notify() {
    let (mut client, mut server) = tls_pair(usize::MAX);
    assert!(matches!(client.poll_shutdown(), Progress::Ready(())));
    // The server observes a clean closure: an empty delivery.
    let mut spins = 0;
    loop {
        match server.read_inner(16, false) {
            Progress::Ready(v) => {
                assert!(v.is_empty(), "expected clean closure");
                break;
            }
            Progress::Pending => {
                spins += 1;
                assert!(spins < 1000, "server stuck");
            }
            Progress::Failed(e) => panic!("server read failed: {e:?}"),
        }
    }
}

#[test]
fn tls_garbage_bytes_fail_with_invalid_data() {
    // Bytes that are not TLS records arrive during the handshake: the
    // engine reports a record violation, surfaced as invalid incoming data.
    let (a, _b) = pipe_pair(usize::MAX);
    a.rx.borrow_mut().extend([0x99u8, 0x99, 0x99, 0x99, 0x99]);
    let name = ServerName::try_from("localhost").expect("bad name");
    let cconn = ClientConnection::new(client_config(), name).expect("client connection");
    let mut client = Stream::new(a, ClientSession::from_connection(cconn));
    match client.handshake() {
        Progress::Failed(TlsError::InvalidData(_)) => {}
        other => panic!("expected invalid data, got {other:?}"),
    }
}

#[test]
fn tls_unclean_eof_surfaces_engine_reader_error() {
    let (mut client, _server) = tls_pair(usize::MAX);
    *client.io.rx_eof.borrow_mut() = true;
    // First the adapter reports the premature end of the byte stream.
    match client.read_inner(8, false) {
        Progress::Failed(TlsError::UnexpectedEof(reason)) => {
            assert_eq!(reason, EofReason::StreamEof);
        }
        other => panic!("expected stream eof, got {other:?}"),
    }
    // Then the engine's own reader reports the unclean closure, passed
    // through as its diagnostic.
    match client.read_inner(8, false) {
        Progress::Failed(TlsError::Engine(_)) => {}
        other => panic!("expected an engine-reported error, got {other:?}"),
    }
}
