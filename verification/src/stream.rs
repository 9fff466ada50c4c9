//! The stream orchestrator: owns the transport and the engine session and
//! drives handshake, read, write, flush and shutdown by alternating engine
//! calls with the copying buffering strategy.
//!
//! Every operation is polled: it returns [`Progress::Pending`] when the
//! transport was not ready, and the buffering strategies' state fully
//! captures the progress made, so repeating the call later resumes without
//! losing or duplicating bytes.

use vstd::math::min;
use vstd::prelude::*;

use crate::engine::{FeedOutcome, PlainFlush, PlainRead, PlainWrite, ProcessOutcome, Session};
use crate::error::{EofReason, Progress, TlsError, TransportError};
use crate::safe_io::{ReadStatus, SafeRead, SafeWrite, WriteStatus, WriteStep};
use crate::transport::{IoPoll, Transport, UnitPoll};

verus! {

/// Saturating add for the diagnostic byte counters.
fn sat_add(a: usize, b: usize) -> (r: usize)
    ensures
        r == min(a + b, usize::MAX as int),
{
    if a <= usize::MAX - b {
        a + b
    } else {
        usize::MAX
    }
}

/// Length of the first non-empty segment of a vectored write, and zero
/// when every segment is empty: the segment the degraded vectored write
/// uses.
pub open spec fn first_nonempty_len(bufs: Seq<Vec<u8>>) -> int
    decreases bufs.len(),
{
    if bufs.len() == 0 {
        0
    } else if bufs[0]@.len() > 0 {
        bufs[0]@.len() as int
    } else {
        first_nonempty_len(bufs.skip(1))
    }
}

proof fn lemma_first_nonempty_skip(bufs: Seq<Vec<u8>>, i: int)
    requires
        0 <= i <= bufs.len(),
        forall|j: int| 0 <= j < i ==> bufs[j]@.len() == 0,
    ensures
        first_nonempty_len(bufs) == first_nonempty_len(bufs.skip(i)),
    decreases i,
{
    if i > 0 {
        assert(bufs[0]@.len() == 0);
        assert(first_nonempty_len(bufs) == first_nonempty_len(bufs.skip(1)));
        assert forall|j: int| 0 <= j < i - 1 implies bufs.skip(1)[j]@.len() == 0 by {
            assert(bufs.skip(1)[j] == bufs[1 + j]);
        }
        lemma_first_nonempty_skip(bufs.skip(1), i - 1);
        assert(bufs.skip(1).skip(i - 1) =~= bufs.skip(i));
        assert(first_nonempty_len(bufs.skip(1).skip(i - 1)) == first_nonempty_len(bufs.skip(i)));
    } else {
        assert(bufs.skip(0) =~= bufs);
    }
}

/// Result of one synchronous attempt to feed buffered ciphertext to the
/// engine.
enum FeedStep {
    /// The engine consumed this many bytes (zero at end of input).
    Fed(usize),
    /// Nothing buffered and nothing latched: a fill must run first.
    NeedsFill,
    /// A latched transport error, surfaced exactly once.
    LatchedFailure(TransportError),
    /// The engine refused the input; its diagnostic is passed through.
    Refused(String),
}

/// A connection: the transport handle, the engine session, one buffering
/// strategy instance per direction, and the bookkeeping that preserves
/// progress across polls.
pub struct Stream<IO, C> {
    pub io: IO,
    pub session: C,
    pub r_buffer: SafeRead,
    pub w_buffer: SafeWrite,
    /// Bytes pulled from the engine but not yet reported by `write_io`
    /// because a drain returned pending.
    pub w_pending: usize,
    /// Running totals of transport bytes read and written while
    /// handshaking, kept across polls for diagnostics.
    pub hs_read_total: usize,
    pub hs_written_total: usize,
    /// Plaintext bytes already accepted by the engine on a `poll_write`
    /// whose drain has not finished; a retry skips re-submission so the
    /// bytes are never submitted twice.
    pub accepted_pending: usize,
}

impl<IO, C> Stream<IO, C> {
    pub open spec fn wf(&self) -> bool {
        &&& self.r_buffer.wf()
        &&& self.w_buffer.wf()
    }

    pub fn new(io: IO, session: C) -> (r: Stream<IO, C>)
        ensures
            r.wf(),
            r.io == io,
            r.session == session,
            r.r_buffer@.data.len() == 0,
            r.r_buffer@.status == ReadStatus::Normal,
            r.w_buffer@.data.len() == 0,
            r.w_buffer@.status == WriteStatus::Normal,
            r.w_pending == 0,
            r.hs_read_total == 0,
            r.hs_written_total == 0,
            r.accepted_pending == 0,
    {
        Stream {
            io,
            session,
            r_buffer: SafeRead::new(),
            w_buffer: SafeWrite::new(),
            w_pending: 0,
            hs_read_total: 0,
            hs_written_total: 0,
            accepted_pending: 0,
        }
    }

    /// Recover exclusive ownership of the transport and the session.
    pub fn into_parts(self) -> (r: (IO, C))
        ensures
            r.0 == self.io,
            r.1 == self.session,
    {
        (self.io, self.session)
    }

}

impl<IO: Transport, C: Session> Stream<IO, C> {
    /// Whether the write side still has work: the engine wants to write,
    /// or ciphertext is still parked in the write buffer from an earlier
    /// partially completed drain.
    fn write_work_pending(&self) -> (r: bool)
        requires
            self.wf(),
        ensures
            !r ==> self.w_buffer@.data.len() == 0,
    {
        self.session.wants_write() || !self.w_buffer.buffer.is_empty()
    }

    /// One synchronous attempt to feed buffered ciphertext to the engine:
    /// offers the buffered bytes (or the latched end of input) and
    /// consumes what the engine took. Touches no write-side state.
    fn try_feed(&mut self) -> (r: FeedStep)
        requires
            old(self).wf(),
        ensures
            final(self).wf(),
            final(self).io == old(self).io,
            final(self).w_buffer == old(self).w_buffer,
            final(self).w_pending == old(self).w_pending,
            final(self).accepted_pending == old(self).accepted_pending,
            final(self).hs_read_total == old(self).hs_read_total,
            final(self).hs_written_total == old(self).hs_written_total,
            r matches FeedStep::NeedsFill ==> final(self).r_buffer@.data.len() == 0 && final(self).r_buffer@.status == ReadStatus::Normal,
            old(self).r_buffer@.data.len() == 0 ==> match old(self).r_buffer@.status {
                ReadStatus::Errored(e) => (r matches FeedStep::LatchedFailure(f) && f == e)
                    && final(self).r_buffer@.status == ReadStatus::Normal && final(self).r_buffer@.data == old(self).r_buffer@.data,
                _ => true,
            },
            old(self).r_buffer@.data.len() > 0 ==> match r {
                FeedStep::Fed(n) => n <= old(self).r_buffer@.data.len() && final(self).r_buffer@.data == old(self).r_buffer@.data.skip(n as int) && final(self).r_buffer@.status == old(self).r_buffer@.status,
                _ => final(self).r_buffer == old(self).r_buffer,
            },
    {
        if !self.r_buffer.buffer.is_empty() {
            let fed = Session::feed_ciphertext(&mut self.session, self.r_buffer.buffer.peek());
            match fed {
                FeedOutcome::Took(n) => {
                    self.r_buffer.buffer.advance(n);
                    FeedStep::Fed(n)
                },
                FeedOutcome::Refused(diag) => FeedStep::Refused(diag),
            }
        } else {
            match self.r_buffer.take_status() {
                ReadStatus::Normal => FeedStep::NeedsFill,
                ReadStatus::Eof => {
                    let empty: Vec<u8> = Vec::new();
                    match Session::feed_ciphertext(&mut self.session, empty.as_slice()) {
                        FeedOutcome::Took(n) => FeedStep::Fed(n),
                        FeedOutcome::Refused(diag) => FeedStep::Refused(diag),
                    }
                },
                ReadStatus::Errored(e) => FeedStep::LatchedFailure(e),
            }
        }
    }

    /// Pull ciphertext from the transport into the engine: feed the engine
    /// from the read buffer, filling the buffer from the transport when it
    /// runs empty, then advance the engine's protocol state. On a protocol
    /// error a best-effort flush of the pending outgoing alert runs once —
    /// suppressed when driven through a split read handle, so a
    /// concurrently scheduled write handle's state is never touched.
    pub fn read_io(&mut self, splitted: bool) -> (r: Progress<usize>)
        requires
            old(self).wf(),
        ensures
            final(self).wf(),
            splitted ==> final(self).w_buffer == old(self).w_buffer && final(self).w_pending == old(self).w_pending,
            final(self).accepted_pending == old(self).accepted_pending,
            final(self).hs_read_total == old(self).hs_read_total,
            final(self).hs_written_total == old(self).hs_written_total,
            old(self).r_buffer@.data.len() > 0 ==> match r {
                Progress::Ready(n) => n <= old(self).r_buffer@.data.len() && final(self).r_buffer@.data == old(self).r_buffer@.data.skip(n as int),
                _ => true,
            },
            old(self).r_buffer@.data.len() == 0 ==> match old(self).r_buffer@.status {
                ReadStatus::Errored(e) => (r matches Progress::Failed(f) && f
                    == TlsError::Transport(e)) && final(self).r_buffer@.status
                    == ReadStatus::Normal && final(self).r_buffer@.data == old(self).r_buffer@.data,
                _ => true,
            },
            r matches Progress::Failed(e) ==> !(e is NotAttached),
    {
        let n: usize;
        match self.try_feed() {
            FeedStep::Fed(k) => {
                n = k;
            },
            FeedStep::LatchedFailure(e) => {
                return Progress::Failed(TlsError::Transport(e));
            },
            FeedStep::Refused(diag) => {
                return Progress::Failed(TlsError::Engine(diag));
            },
            FeedStep::NeedsFill => {
                match SafeRead::fill(&mut self.r_buffer, &mut self.io) {
                    IoPoll::Ready(_) => {},
                    IoPoll::Pending => {
                        return Progress::Pending;
                    },
                    IoPoll::Failed(e) => {
                        return Progress::Failed(TlsError::Transport(e));
                    },
                }
                match self.try_feed() {
                    FeedStep::Fed(k) => {
                        n = k;
                    },
                    FeedStep::LatchedFailure(e) => {
                        return Progress::Failed(TlsError::Transport(e));
                    },
                    FeedStep::Refused(diag) => {
                        return Progress::Failed(TlsError::Engine(diag));
                    },
                    FeedStep::NeedsFill => {
                        return Progress::Pending;
                    },
                }
            },
        }
        match self.session.process_packets() {
            ProcessOutcome::Processed { peer_closed } => {
                if peer_closed && self.session.is_handshaking() {
                    return Progress::Failed(TlsError::UnexpectedEof(EofReason::HandshakeAlert));
                }
            },
            ProcessOutcome::ProtocolError(diag) => {
                if !splitted {
                    let _ = self.write_io();
                }
                return Progress::Failed(TlsError::InvalidData(diag));
            },
        }
        Progress::Ready(n)
    }

    /// Push ciphertext from the engine to the transport: surface a latched
    /// error first, drain a full buffer, pull one batch of ciphertext from
    /// the engine into the buffer, then drain what is buffered. Reports
    /// the bytes pulled from the engine since the last completed
    /// `write_io`, once the drain completes. Touches no read-side state.
    pub fn write_io(&mut self) -> (r: Progress<usize>)
        requires
            old(self).wf(),
        ensures
            final(self).wf(),
            final(self).r_buffer == old(self).r_buffer,
            final(self).accepted_pending == old(self).accepted_pending,
            final(self).hs_read_total == old(self).hs_read_total,
            final(self).hs_written_total == old(self).hs_written_total,
            r matches Progress::Ready(n) ==> final(self).w_pending == 0 && final(self).w_buffer@.data.len() == 0 && n >= old(self).w_pending,
            match old(self).w_buffer@.status {
                WriteStatus::Errored(e) => (r matches Progress::Failed(f) && f
                    == TlsError::Transport(e)) && final(self).w_buffer@.status
                    == WriteStatus::Normal && final(self).w_buffer@.data == old(self).w_buffer@.data && final(self).w_pending == old(self).w_pending,
                WriteStatus::Normal => true,
            },
            r matches Progress::Failed(e) ==> !(e is NotAttached),
    {
        match self.w_buffer.take_status() {
            WriteStatus::Errored(e) => {
                return Progress::Failed(TlsError::Transport(e));
            },
            WriteStatus::Normal => {},
        }
        if self.w_buffer.buffer.is_full() {
            match SafeWrite::drain(&mut self.w_buffer, &mut self.io) {
                IoPoll::Ready(_) => {},
                IoPoll::Pending => {
                    return Progress::Pending;
                },
                IoPoll::Failed(e) => {
                    return Progress::Failed(TlsError::Transport(e));
                },
            }
        }
        let avail = self.w_buffer.buffer.available();
        let chunk = Session::pull_ciphertext(&mut self.session, avail);
        let step = SafeWrite::write(&mut self.w_buffer, chunk.as_slice());
        proof {
            assert(step == WriteStep::Accepted(chunk@.len() as usize));
        }
        self.w_pending = sat_add(self.w_pending, chunk.len());
        match SafeWrite::drain(&mut self.w_buffer, &mut self.io) {
            IoPoll::Ready(_) => {
                let n = self.w_pending;
                self.w_pending = 0;
                Progress::Ready(n)
            },
            IoPoll::Pending => Progress::Pending,
            IoPoll::Failed(e) => Progress::Failed(TlsError::Transport(e)),
        }
    }

    /// Drive the handshake to completion: drain outgoing handshake bytes
    /// while the engine wants to write, consume incoming handshake bytes
    /// while it wants to read, and fail with premature termination if the
    /// input ends while the handshake is still in progress. On completion
    /// reports the total transport bytes read and written while
    /// handshaking.
    pub fn handshake(&mut self) -> (r: Progress<(usize, usize)>)
        requires
            old(self).wf(),
        ensures
            final(self).wf(),
            r matches Progress::Ready(t) ==> t.0 == final(self).hs_read_total && t.1 == final(self).hs_written_total,
            r is Ready ==> final(self).w_buffer@.data.len() == 0,
            r matches Progress::Failed(e) ==> !(e is NotAttached),
    {
        let mut eof = false;
        let mut fuel: usize = usize::MAX;
        loop
            invariant
                self.wf(),
            decreases fuel,
        {
            if fuel == 0 {
                return Progress::Pending;
            }
            fuel = fuel - 1;
            let mut wfuel: usize = usize::MAX;
            while self.write_work_pending() && self.session.is_handshaking()
                invariant
                    self.wf(),
                decreases wfuel,
            {
                if wfuel == 0 {
                    return Progress::Pending;
                }
                wfuel = wfuel - 1;
                match self.write_io() {
                    Progress::Ready(n) => {
                        self.hs_written_total = sat_add(self.hs_written_total, n);
                    },
                    Progress::Pending => {
                        return Progress::Pending;
                    },
                    Progress::Failed(e) => {
                        return Progress::Failed(e);
                    },
                }
            }
            let mut rfuel: usize = usize::MAX;
            while !eof && self.session.wants_read() && self.session.is_handshaking()
                invariant
                    self.wf(),
                decreases rfuel,
            {
                if rfuel == 0 {
                    return Progress::Pending;
                }
                rfuel = rfuel - 1;
                match self.read_io(false) {
                    Progress::Ready(n) => {
                        self.hs_read_total = sat_add(self.hs_read_total, n);
                        if n == 0 {
                            eof = true;
                        }
                    },
                    Progress::Pending => {
                        return Progress::Pending;
                    },
                    Progress::Failed(e) => {
                        return Progress::Failed(e);
                    },
                }
            }
            if self.session.is_handshaking() {
                if eof {
                    return Progress::Failed(TlsError::UnexpectedEof(EofReason::HandshakeEof));
                }
            } else {
                break;
            }
        }
        let mut ffuel: usize = usize::MAX;
        while self.write_work_pending()
            invariant
                self.wf(),
            decreases ffuel,
        {
            if ffuel == 0 {
                return Progress::Pending;
            }
            ffuel = ffuel - 1;
            match self.write_io() {
                Progress::Ready(n) => {
                    self.hs_written_total = sat_add(self.hs_written_total, n);
                },
                Progress::Pending => {
                    return Progress::Pending;
                },
                Progress::Failed(e) => {
                    return Progress::Failed(e);
                },
            }
        }
        Progress::Ready((self.hs_read_total, self.hs_written_total))
    }

    /// Steady-state read: deliver up to `max` bytes of decrypted
    /// plaintext, pulling and processing more ciphertext whenever the
    /// engine reports it needs data. An empty delivery means the peer
    /// closed the session cleanly; a transport that ends before a complete
    /// record is premature termination.
    pub fn read_inner(&mut self, max: usize, splitted: bool) -> (r: Progress<Vec<u8>>)
        requires
            old(self).wf(),
        ensures
            final(self).wf(),
            r matches Progress::Ready(v) ==> v@.len() <= max,
            splitted ==> final(self).w_buffer == old(self).w_buffer && final(self).w_pending == old(self).w_pending,
            max == 0 ==> (r matches Progress::Ready(v) && v@.len() == 0) && *final(self) == *old(self),
            r matches Progress::Failed(e) ==> !(e is NotAttached),
    {
        if max == 0 {
            return Progress::Ready(Vec::new());
        }
        let mut fuel: usize = usize::MAX;
        loop
            invariant
                max > 0,
                self.wf(),
                splitted ==> self.w_buffer == old(self).w_buffer && self.w_pending == old(self).w_pending,
            decreases fuel,
        {
            if fuel == 0 {
                return Progress::Pending;
            }
            fuel = fuel - 1;
            match Session::read_plaintext(&mut self.session, max) {
                PlainRead::Data(v) => {
                    return Progress::Ready(v);
                },
                PlainRead::Failed(diag) => {
                    return Progress::Failed(TlsError::Engine(diag));
                },
                PlainRead::NeedData => {},
            }
            match self.read_io(splitted) {
                Progress::Ready(n) => {
                    if n == 0 {
                        return Progress::Failed(TlsError::UnexpectedEof(EofReason::StreamEof));
                    }
                },
                Progress::Pending => {
                    return Progress::Pending;
                },
                Progress::Failed(e) => {
                    return Progress::Failed(e);
                },
            }
        }
    }

    /// Steady-state write: feed `src` to the engine once, then drain the
    /// ciphertext the engine wants to send. If the drain leaves work
    /// pending, the accepted count is retained and a retry with the same
    /// `src` skips re-submission, so the bytes are never encrypted twice.
    /// Callers must retry a pending write with the same source bytes.
    pub fn poll_write(&mut self, src: &[u8]) -> (r: Progress<usize>)
        requires
            old(self).wf(),
        ensures
            final(self).wf(),
            final(self).r_buffer == old(self).r_buffer,
            r matches Progress::Ready(n) ==> final(self).accepted_pending == 0 && (if old(self).accepted_pending == 0 {
                n <= src@.len()
            } else {
                n == old(self).accepted_pending
            }),
            r is Ready ==> final(self).w_buffer@.data.len() == 0,
            r matches Progress::Failed(e) ==> !(e is NotAttached),
    {
        let accepted: usize;
        if self.accepted_pending > 0 {
            accepted = self.accepted_pending;
        } else {
            match Session::write_plaintext(&mut self.session, src) {
                PlainWrite::Accepted(n) => {
                    accepted = n;
                    self.accepted_pending = n;
                },
                PlainWrite::Refused(diag) => {
                    return Progress::Failed(TlsError::Engine(diag));
                },
            }
        }
        let mut fuel: usize = usize::MAX;
        while self.write_work_pending()
            invariant
                self.wf(),
                self.r_buffer == old(self).r_buffer,
                self.accepted_pending == accepted,
            ensures
                self.wf(),
                self.r_buffer == old(self).r_buffer,
                self.accepted_pending == accepted,
                self.w_buffer@.data.len() == 0,
            decreases fuel,
        {
            if fuel == 0 {
                return Progress::Pending;
            }
            fuel = fuel - 1;
            match self.write_io() {
                Progress::Ready(n) => {
                    if n == 0 {
                        break;
                    }
                },
                Progress::Pending => {
                    return Progress::Pending;
                },
                Progress::Failed(e) => {
                    self.accepted_pending = 0;
                    return Progress::Failed(e);
                },
            }
        }
        self.accepted_pending = 0;
        Progress::Ready(accepted)
    }

    /// Vectored write: degrades to writing the first non-empty segment,
    /// so a fresh write never reports more than that segment's length.
    pub fn poll_write_vectored(&mut self, bufs: &Vec<Vec<u8>>) -> (r: Progress<usize>)
        requires
            old(self).wf(),
        ensures
            final(self).wf(),
            final(self).r_buffer == old(self).r_buffer,
            r matches Progress::Ready(n) ==> final(self).accepted_pending == 0,
            r is Ready ==> final(self).w_buffer@.data.len() == 0,
            match r {
                Progress::Ready(n) => if old(self).accepted_pending == 0 {
                    n <= first_nonempty_len(bufs@)
                } else {
                    n == old(self).accepted_pending
                },
                _ => true,
            },
            r matches Progress::Failed(e) ==> !(e is NotAttached),
    {
        let mut i: usize = 0;
        while i < bufs.len()
            invariant
                i <= bufs@.len(),
                self.wf(),
                *self == *old(self),
                forall|j: int| 0 <= j < i ==> bufs@[j]@.len() == 0,
            decreases bufs@.len() - i,
        {
            if bufs[i].len() > 0 {
                proof {
                    lemma_first_nonempty_skip(bufs@, i as int);
                    assert(bufs@.skip(i as int)[0] == bufs@[i as int]);
                    assert(first_nonempty_len(bufs@) == bufs@[i as int]@.len());
                }
                return self.poll_write(bufs[i].as_slice());
            }
            i = i + 1;
        }
        proof {
            lemma_first_nonempty_skip(bufs@, bufs@.len() as int);
        }
        let empty: Vec<u8> = Vec::new();
        self.poll_write(empty.as_slice())
    }

    /// Flush: ensure the engine's writer holds no residual plaintext,
    /// drain all ciphertext it wants to send, then flush the transport.
    pub fn poll_flush(&mut self) -> (r: Progress<()>)
        requires
            old(self).wf(),
        ensures
            final(self).wf(),
            final(self).r_buffer == old(self).r_buffer,
            r is Ready ==> final(self).w_buffer@.data.len() == 0,
            r matches Progress::Failed(e) ==> !(e is NotAttached),
    {
        match self.session.flush_plaintext() {
            PlainFlush::Flushed => {},
            PlainFlush::Refused(diag) => {
                return Progress::Failed(TlsError::Engine(diag));
            },
        }
        let mut fuel: usize = usize::MAX;
        while self.write_work_pending()
            invariant
                self.wf(),
                self.r_buffer == old(self).r_buffer,
            decreases fuel,
        {
            if fuel == 0 {
                return Progress::Pending;
            }
            fuel = fuel - 1;
            match self.write_io() {
                Progress::Ready(_) => {},
                Progress::Pending => {
                    return Progress::Pending;
                },
                Progress::Failed(e) => {
                    return Progress::Failed(e);
                },
            }
        }
        match self.io.poll_flush() {
            UnitPoll::Done => Progress::Ready(()),
            UnitPoll::Pending => Progress::Pending,
            UnitPoll::Failed(e) => Progress::Failed(TlsError::Transport(e)),
        }
    }

    /// Shutdown: instruct the engine to send close-notify, drain the
    /// resulting ciphertext, then shut the transport down.
    pub fn poll_shutdown(&mut self) -> (r: Progress<()>)
        requires
            old(self).wf(),
        ensures
            final(self).wf(),
            final(self).r_buffer == old(self).r_buffer,
            r is Ready ==> final(self).w_buffer@.data.len() == 0,
            r matches Progress::Failed(e) ==> !(e is NotAttached),
    {
        self.session.send_close_notify();
        let mut fuel: usize = usize::MAX;
        while self.write_work_pending()
            invariant
                self.wf(),
                self.r_buffer == old(self).r_buffer,
            decreases fuel,
        {
            if fuel == 0 {
                return Progress::Pending;
            }
            fuel = fuel - 1;
            match self.write_io() {
                Progress::Ready(_) => {},
                Progress::Pending => {
                    return Progress::Pending;
                },
                Progress::Failed(e) => {
                    return Progress::Failed(e);
                },
            }
        }
        match self.io.poll_shutdown() {
            UnitPoll::Done => Progress::Ready(()),
            UnitPoll::Pending => Progress::Pending,
            UnitPoll::Failed(e) => Progress::Failed(TlsError::Transport(e)),
        }
    }

    /// Whether the transport handles vectored writes efficiently.
    pub fn is_write_vectored(&self) -> bool {
        self.io.is_write_vectored()
    }
}

} // verus!
