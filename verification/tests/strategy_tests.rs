//! Tests for the ring buffer and both buffering strategies, driven by
//! scripted transports.

use std::collections::VecDeque;

use tls_adapter::buffer::{Buffer, BUFFER_SIZE};
use tls_adapter::error::{TransportError, CODE_WRITE_ZERO};
use tls_adapter::safe_io::{ReadStatus, ReadStep, SafeRead, SafeWrite, WriteStep};
use tls_adapter::transport::{IoPoll, ReadPoll, Transport, UnitPoll};
use tls_adapter::zero_copy::{ZeroIo, ZeroRead, ZeroReadStep, ZeroStatus, ZeroWrite, ZeroWriteStep};

/// A transport driven by a script of read outcomes; writes accept at most
/// `write_cap` bytes per call and record everything accepted.
struct ScriptIo {
    reads: VecDeque<ReadPoll>,
    written: Vec<u8>,
    write_cap: usize,
    write_pending_first: bool,
    write_zero: bool,
    write_fail: Option<TransportError>,
}

impl ScriptIo {
    fn new() -> ScriptIo {
        ScriptIo {
            reads: VecDeque::new(),
            written: Vec::new(),
            write_cap: usize::MAX,
            write_pending_first: false,
            write_zero: false,
            write_fail: None,
        }
    }
}

impl Transport for ScriptIo {
    fn poll_read(&mut self, max: usize) -> ReadPoll {
        match self.reads.pop_front() {
            Some(ReadPoll::Ready(mut v)) => {
                v.truncate(max);
                ReadPoll::Ready(v)
            }
            Some(other) => other,
            None => ReadPoll::Pending,
        }
    }

    fn poll_write(&mut self, src: &[u8]) -> IoPoll {
        if let Some(e) = self.write_fail.take() {
            return IoPoll::Failed(e);
        }
        if self.write_pending_first {
            self.write_pending_first = false;
            return IoPoll::Pending;
        }
        if self.write_zero {
            return IoPoll::Ready(0);
        }
        let n = src.len().min(self.write_cap);
        self.written.extend_from_slice(&src[..n]);
        IoPoll::Ready(n)
    }

    fn poll_flush(&mut self) -> UnitPoll {
        UnitPoll::Done
    }

    fn poll_shutdown(&mut self) -> UnitPoll {
        UnitPoll::Done
    }

    fn is_write_vectored(&self) -> bool {
        false
    }
}

#[test]
fn buffer_length_and_reset_invariants() {
    let mut b = Buffer::new();
    assert_eq!(b.len(), 0);
    assert!(b.is_empty());
    assert_eq!(b.available(), BUFFER_SIZE);
    assert!(!b.is_full());

    b.push_slice(&[1, 2, 3, 4, 5]);
    assert_eq!(b.len(), 5);
    assert_eq!(b.available(), BUFFER_SIZE - 5);
    assert_eq!(b.peek(), &[1, 2, 3, 4, 5]);

    // Interleaved advances respecting the precondition keep length == write - read.
    b.advance(2);
    assert_eq!(b.len(), 3);
    assert_eq!(b.peek(), &[3, 4, 5]);
    b.push_slice(&[6]);
    assert_eq!(b.len(), 4);
    b.advance(1);
    assert_eq!(b.len(), 3);
    assert_eq!(b.peek(), &[4, 5, 6]);

    // The cursors return to offset zero exactly when fully drained: after a
    // full drain the whole capacity is available again.
    b.advance(3);
    assert!(b.is_empty());
    assert_eq!(b.available(), BUFFER_SIZE);
}

#[test]
fn buffer_full_capacity_cycle() {
    let mut b = Buffer::new();
    let big = vec![7u8; BUFFER_SIZE];
    b.push_slice(&big);
    assert!(b.is_full());
    assert_eq!(b.len(), BUFFER_SIZE);
    b.advance(BUFFER_SIZE);
    assert!(b.is_empty());
    assert_eq!(b.available(), BUFFER_SIZE);
}

#[test]
fn safe_read_would_block_exactly_when_empty_and_nothing_latched() {
    let mut r = SafeRead::new();
    // Empty buffer, nothing latched: would-block.
    assert!(matches!(r.read(10), ReadStep::NeedsMoreInput));
    // Still would-block on a second call.
    assert!(matches!(r.read(10), ReadStep::NeedsMoreInput));
}

#[test]
fn safe_read_delivers_buffered_bytes_before_any_status() {
    let mut r = SafeRead::new();
    let mut io = ScriptIo::new();
    io.reads.push_back(ReadPoll::Ready(vec![10, 11, 12, 13]));
    assert_eq!(r.fill(&mut io), IoPoll::Ready(4));
    // A second fill with data buffered is an idempotent no-op.
    assert_eq!(r.fill(&mut io), IoPoll::Ready(4));
    match r.read(3) {
        ReadStep::Delivered(v) => assert_eq!(v, vec![10, 11, 12]),
        other => panic!("expected delivery, got {other:?}"),
    }
    match r.read(10) {
        ReadStep::Delivered(v) => assert_eq!(v, vec![13]),
        other => panic!("expected delivery, got {other:?}"),
    }
    assert!(matches!(r.read(10), ReadStep::NeedsMoreInput));
}

#[test]
fn safe_read_eof_reported_exactly_once() {
    let mut r = SafeRead::new();
    let mut io = ScriptIo::new();
    io.reads.push_back(ReadPoll::Ready(vec![]));
    assert_eq!(r.fill(&mut io), IoPoll::Ready(0));
    assert_eq!(r.status, ReadStatus::Eof);
    match r.read(10) {
        ReadStep::Delivered(v) => assert!(v.is_empty()),
        other => panic!("expected empty delivery, got {other:?}"),
    }
    // The latch was consumed: back to would-block.
    assert!(matches!(r.read(10), ReadStep::NeedsMoreInput));
}

#[test]
fn safe_read_error_reported_exactly_once() {
    let mut r = SafeRead::new();
    let mut io = ScriptIo::new();
    let e = TransportError { code: 42 };
    io.reads.push_back(ReadPoll::Failed(e));
    assert_eq!(r.fill(&mut io), IoPoll::Failed(e));
    match r.read(10) {
        ReadStep::Failed(got) => assert_eq!(got, e),
        other => panic!("expected failure, got {other:?}"),
    }
    // The latch was consumed: back to would-block, not a sticky failure.
    assert!(matches!(r.read(10), ReadStep::NeedsMoreInput));
}

#[test]
fn safe_read_pending_fill_changes_nothing() {
    let mut r = SafeRead::new();
    let mut io = ScriptIo::new();
    assert_eq!(r.fill(&mut io), IoPoll::Pending);
    assert_eq!(r.status, ReadStatus::Normal);
    assert!(matches!(r.read(10), ReadStep::NeedsMoreInput));
}

#[test]
fn safe_write_copies_into_free_tail_and_signals_when_full() {
    let mut w = SafeWrite::new();
    let data = vec![3u8; BUFFER_SIZE - 1];
    assert_eq!(w.write(&data), WriteStep::Accepted(BUFFER_SIZE - 1));
    // Only one byte of room is left: a long write accepts exactly one byte.
    assert_eq!(w.write(&[9, 9, 9]), WriteStep::Accepted(1));
    // Now full: would-block.
    assert_eq!(w.write(&[1]), WriteStep::NeedsDrain);
    assert_eq!(w.flush(), WriteStep::NeedsDrain);
}

#[test]
fn safe_write_drain_partial_progress_never_duplicates() {
    let mut w = SafeWrite::new();
    let mut io = ScriptIo::new();
    io.write_cap = 4096;
    let payload: Vec<u8> = (0..10000u32).map(|i| (i % 251) as u8).collect();
    assert_eq!(w.write(&payload), WriteStep::Accepted(10000));
    // The transport accepts at most 4096 bytes per call; drain loops until
    // everything is out, none dropped or duplicated.
    assert_eq!(w.drain(&mut io), IoPoll::Ready(10000));
    assert_eq!(io.written, payload);
    assert_eq!(w.flush(), WriteStep::Accepted(0));
}

#[test]
fn safe_write_drain_pending_resumes_where_it_stopped() {
    let mut w = SafeWrite::new();
    let mut io = ScriptIo::new();
    io.write_cap = 3;
    io.write_pending_first = false;
    assert_eq!(w.write(&[1, 2, 3, 4, 5]), WriteStep::Accepted(5));
    io.write_pending_first = true;
    // First poll: transport not ready, nothing written.
    assert_eq!(w.drain(&mut io), IoPoll::Pending);
    assert_eq!(io.written, Vec::<u8>::new());
    // Retry drains the same bytes exactly once.
    assert_eq!(w.drain(&mut io), IoPoll::Ready(5));
    assert_eq!(io.written, vec![1, 2, 3, 4, 5]);
}

#[test]
fn safe_write_error_latched_and_reported_once() {
    let mut w = SafeWrite::new();
    let mut io = ScriptIo::new();
    let e = TransportError { code: 7 };
    io.write_fail = Some(e);
    assert_eq!(w.write(&[1, 2]), WriteStep::Accepted(2));
    assert_eq!(w.drain(&mut io), IoPoll::Failed(e));
    // The next synchronous call surfaces the latched error exactly once.
    assert_eq!(w.write(&[3]), WriteStep::Failed(e));
    // After that the strategy is usable again.
    assert_eq!(w.write(&[3]), WriteStep::Accepted(1));
}

#[test]
fn safe_write_zero_length_transport_write_is_an_error() {
    let mut w = SafeWrite::new();
    let mut io = ScriptIo::new();
    io.write_zero = true;
    assert_eq!(w.write(&[1, 2]), WriteStep::Accepted(2));
    match w.drain(&mut io) {
        IoPoll::Failed(e) => assert_eq!(e.code, CODE_WRITE_ZERO),
        other => panic!("expected failure, got {other:?}"),
    }
}

#[test]
fn zero_copy_read_records_then_fills_only_the_prefix() {
    let mut z = ZeroRead::new();
    let mut io = ScriptIo::new();
    io.reads.push_back(ReadPoll::Ready(vec![1, 2, 3]));
    // Sentinels beyond the transport's count must survive untouched.
    let region = vec![9u8; 8];
    assert!(matches!(z.read(region), ZeroReadStep::Recorded(None)));
    assert_eq!(z.fill(&mut io), ZeroIo::Ready(3));
    match z.read(vec![0u8; 8]) {
        ZeroReadStep::Delivered(filled, n, _spare) => {
            assert_eq!(n, 3);
            assert_eq!(filled, vec![1, 2, 3, 9, 9, 9, 9, 9]);
        }
        other => panic!("expected delivery, got {other:?}"),
    }
    // The count was nonzero, so the strategy resets to accept a new region.
    assert!(matches!(z.status, ZeroStatus::Idle));
}

#[test]
fn zero_copy_read_zero_result_sticks_until_consumed() {
    let mut z = ZeroRead::new();
    let mut io = ScriptIo::new();
    io.reads.push_back(ReadPoll::Ready(vec![]));
    assert!(matches!(z.read(vec![9u8; 4]), ZeroReadStep::Recorded(None)));
    assert_eq!(z.fill(&mut io), ZeroIo::Ready(0));
    // A zero-length result is reported without resetting the state.
    assert!(matches!(z.read(vec![0u8; 4]), ZeroReadStep::AtEof(_)));
    assert!(matches!(z.status, ZeroStatus::Filled(_, 0)));
    assert!(matches!(z.read(vec![0u8; 4]), ZeroReadStep::AtEof(_)));
    // An idempotent fill keeps reporting the stored count.
    assert_eq!(z.fill(&mut io), ZeroIo::Ready(0));
}

#[test]
fn zero_copy_fill_without_recorded_region_is_refused() {
    let mut z = ZeroRead::new();
    let mut io = ScriptIo::new();
    assert_eq!(z.fill(&mut io), ZeroIo::NotRecorded);
}

#[test]
fn zero_copy_fill_pending_keeps_the_region() {
    let mut z = ZeroRead::new();
    let mut io = ScriptIo::new();
    assert!(matches!(z.read(vec![9u8; 4]), ZeroReadStep::Recorded(None)));
    assert_eq!(z.fill(&mut io), ZeroIo::Pending);
    assert!(matches!(z.status, ZeroStatus::Recorded(_)));
    io.reads.push_back(ReadPoll::Ready(vec![5]));
    assert_eq!(z.fill(&mut io), ZeroIo::Ready(1));
}

#[test]
fn zero_copy_write_records_and_reports_accepted_count() {
    let mut z = ZeroWrite::new();
    let mut io = ScriptIo::new();
    io.write_cap = 2;
    assert!(matches!(z.write(vec![1, 2, 3, 4]), ZeroWriteStep::Recorded(None)));
    assert_eq!(z.drain(&mut io), ZeroIo::Ready(2));
    assert_eq!(io.written, vec![1, 2]);
    // An idempotent drain reports the stored count without new transport work.
    assert_eq!(z.drain(&mut io), ZeroIo::Ready(2));
    assert_eq!(io.written, vec![1, 2]);
    match z.write(vec![3, 4]) {
        ZeroWriteStep::Accepted(n, sent, _back) => {
            assert_eq!(n, 2);
            assert_eq!(sent, vec![1, 2, 3, 4]);
        }
        other => panic!("expected acceptance, got {other:?}"),
    }
}

#[test]
fn zero_copy_write_displaces_earlier_recorded_source() {
    let mut z = ZeroWrite::new();
    assert!(matches!(z.write(vec![1]), ZeroWriteStep::Recorded(None)));
    match z.write(vec![2]) {
        ZeroWriteStep::Recorded(Some(prev)) => assert_eq!(prev, vec![1]),
        other => panic!("expected displacement, got {other:?}"),
    }
}

#[test]
fn safe_write_drain_on_empty_buffer_is_a_no_op() {
    let mut w = SafeWrite::new();
    let mut io = ScriptIo::new();
    // Nothing buffered: the drain completes at once, touching nothing.
    assert_eq!(w.drain(&mut io), IoPoll::Ready(0));
    assert_eq!(io.written, Vec::<u8>::new());
    assert_eq!(w.write(&[1]), WriteStep::Accepted(1));
}
