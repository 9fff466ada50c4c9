//! The copying buffering strategy.
//!
//! [`SafeRead`] and [`SafeWrite`] wrap one ring buffer each and present a
//! synchronous surface to the engine while the real transport work happens
//! in the polled `fill` and `drain` operations. A transport outcome
//! observed during `fill` or `drain` is latched and surfaced to exactly one
//! subsequent synchronous call, after which the latch resets.

use vstd::math::min;
use vstd::prelude::*;
use vstd::slice::{slice_subrange, slice_to_vec};

use crate::buffer::{Buffer, BUFFER_SIZE};
use crate::error::{TransportError, CODE_WRITE_ZERO};
use crate::transport::{IoPoll, ReadPoll, Transport};

verus! {

/// Latched outcome of the most recent transport read.
#[derive(Clone, Copy, Debug, PartialEq, Eq, Structural)]
pub enum ReadStatus {
    /// Nothing latched.
    Normal,
    /// The transport reached end of input.
    Eof,
    /// The transport failed with this error.
    Errored(TransportError),
}

/// Latched outcome of the most recent transport write.
#[derive(Clone, Copy, Debug, PartialEq, Eq, Structural)]
pub enum WriteStatus {
    /// Nothing latched.
    Normal,
    /// The transport failed with this error.
    Errored(TransportError),
}

/// Outcome of the synchronous read surface.
#[derive(Debug)]
pub enum ReadStep {
    /// Bytes copied out of the buffer; empty means end of input.
    Delivered(Vec<u8>),
    /// The buffer is empty and nothing is latched: a `fill` must run
    /// before retrying.
    NeedsMoreInput,
    /// A latched transport error, surfaced exactly once.
    Failed(TransportError),
}

/// Ghost counterpart of [`ReadStep`].
pub ghost enum ReadStepView {
    Delivered(Seq<u8>),
    NeedsMoreInput,
    Failed(TransportError),
}

impl View for ReadStep {
    type V = ReadStepView;

    open spec fn view(&self) -> ReadStepView {
        match self {
            ReadStep::Delivered(v) => ReadStepView::Delivered(v@),
            ReadStep::NeedsMoreInput => ReadStepView::NeedsMoreInput,
            ReadStep::Failed(e) => ReadStepView::Failed(*e),
        }
    }
}

/// Model of the read strategy: the buffered bytes and the latched status.
pub ghost struct ReadView {
    pub data: Seq<u8>,
    pub status: ReadStatus,
}

/// State of the read strategy after one synchronous `read` of at most
/// `max` bytes.
pub open spec fn read_post(pre: ReadView, max: int) -> ReadView {
    if pre.data.len() > 0 {
        ReadView { data: pre.data.skip(min(pre.data.len() as int, max)), status: pre.status }
    } else {
        ReadView { data: pre.data, status: ReadStatus::Normal }
    }
}

/// Outcome of one synchronous `read` of at most `max` bytes.
pub open spec fn read_out(pre: ReadView, max: int) -> ReadStepView {
    if pre.data.len() > 0 {
        ReadStepView::Delivered(pre.data.take(min(pre.data.len() as int, max)))
    } else {
        match pre.status {
            ReadStatus::Normal => ReadStepView::NeedsMoreInput,
            ReadStatus::Eof => ReadStepView::Delivered(Seq::empty()),
            ReadStatus::Errored(e) => ReadStepView::Failed(e),
        }
    }
}

/// Read direction of the copying strategy: a ring buffer of transport
/// bytes not yet consumed by the engine, plus the latched status.
#[derive(Debug)]
pub struct SafeRead {
    pub buffer: Buffer,
    pub status: ReadStatus,
}

impl View for SafeRead {
    type V = ReadView;

    open spec fn view(&self) -> ReadView {
        ReadView { data: self.buffer.contents(), status: self.status }
    }
}

impl SafeRead {
    pub open spec fn wf(&self) -> bool {
        self.buffer.wf()
    }

    pub fn new() -> (r: SafeRead)
        ensures
            r.wf(),
            r@.data == Seq::<u8>::empty(),
            r@.status == ReadStatus::Normal,
    {
        SafeRead { buffer: Buffer::new(), status: ReadStatus::Normal }
    }

    /// Synchronous read surface. Copies out up to `max` buffered bytes if
    /// any are buffered; otherwise surfaces the latched status exactly
    /// once (end of input as an empty delivery, an error as the error),
    /// or signals that a `fill` must run first.
    pub fn read(&mut self, max: usize) -> (r: ReadStep)
        requires
            old(self).wf(),
        ensures
            final(self).wf(),
            final(self)@ == read_post(old(self)@, max as int),
            r@ == read_out(old(self)@, max as int),
    {
        if !self.buffer.is_empty() {
            let len = self.buffer.len();
            let n = if max < len {
                max
            } else {
                len
            };
            let part = slice_to_vec(slice_subrange(self.buffer.peek(), 0, n));
            self.buffer.advance(n);
            proof {
                assert(part@ =~= old(self)@.data.take(min(old(self)@.data.len() as int, max as int)));
            }
            ReadStep::Delivered(part)
        } else {
            let st = self.status;
            self.status = ReadStatus::Normal;
            match st {
                ReadStatus::Normal => ReadStep::NeedsMoreInput,
                ReadStatus::Eof => ReadStep::Delivered(Vec::new()),
                ReadStatus::Errored(e) => ReadStep::Failed(e),
            }
        }
    }

    /// Consume and reset the latched status, leaving the buffer untouched.
    pub fn take_status(&mut self) -> (st: ReadStatus)
        ensures
            st == old(self).status,
            final(self).status == ReadStatus::Normal,
            final(self).buffer == old(self).buffer,
    {
        let st = self.status;
        self.status = ReadStatus::Normal;
        st
    }

    /// Polled fill. If bytes are already buffered this is a no-op
    /// reporting their number; otherwise it performs exactly one transport
    /// read into the free region, latching end of input or an error, and
    /// growing the buffer on success.
    pub fn fill<T: Transport>(&mut self, t: &mut T) -> (r: IoPoll)
        requires
            old(self).wf(),
        ensures
            final(self).wf(),
            old(self)@.data.len() > 0 ==> *final(self) == *old(self) && *final(t) == *old(t) && r
                == IoPoll::Ready(old(self).buffer.spec_len() as usize),
            old(self)@.data.len() == 0 ==> match r {
                IoPoll::Ready(n) => if n == 0 {
                    final(self)@ == ReadView { data: old(self)@.data, status: ReadStatus::Eof }
                } else {
                    final(self)@.data.len() == n && final(self)@.status == ReadStatus::Normal
                },
                IoPoll::Pending => *final(self) == *old(self),
                IoPoll::Failed(e) => final(self)@ == ReadView {
                    data: old(self)@.data,
                    status: ReadStatus::Errored(e),
                },
            },
    {
        if !self.buffer.is_empty() {
            return IoPoll::Ready(self.buffer.len());
        }
        let room = self.buffer.available();
        match t.poll_read(room) {
            ReadPoll::Ready(bytes) => {
                if bytes.len() == 0 {
                    self.status = ReadStatus::Eof;
                    IoPoll::Ready(0)
                } else {
                    let n = bytes.len();
                    self.buffer.push_slice(bytes.as_slice());
                    self.status = ReadStatus::Normal;
                    IoPoll::Ready(n)
                }
            },
            ReadPoll::Pending => IoPoll::Pending,
            ReadPoll::Failed(e) => {
                self.status = ReadStatus::Errored(e);
                IoPoll::Failed(e)
            },
        }
    }
}

/// Model of the write strategy: the buffered bytes, the free room at the
/// tail of the region, and the latched status.
pub ghost struct WriteView {
    pub data: Seq<u8>,
    pub room: int,
    pub status: WriteStatus,
}

/// Outcome of the synchronous write surface.
#[derive(Debug, PartialEq, Eq, Structural)]
pub enum WriteStep {
    /// This many bytes of the source were copied into the buffer.
    Accepted(usize),
    /// The buffer is full: a `drain` must run before retrying.
    NeedsDrain,
    /// A latched transport error, surfaced exactly once.
    Failed(TransportError),
}

/// Write direction of the copying strategy: a ring buffer of engine bytes
/// not yet written to the transport, plus the latched status.
#[derive(Debug)]
pub struct SafeWrite {
    pub buffer: Buffer,
    pub status: WriteStatus,
}

impl View for SafeWrite {
    type V = WriteView;

    open spec fn view(&self) -> WriteView {
        WriteView {
            data: self.buffer.contents(),
            room: self.buffer.spec_available(),
            status: self.status,
        }
    }
}

impl SafeWrite {
    pub open spec fn wf(&self) -> bool {
        self.buffer.wf()
    }

    pub fn new() -> (r: SafeWrite)
        ensures
            r.wf(),
            r@.data == Seq::<u8>::empty(),
            r@.room == BUFFER_SIZE,
            r@.status == WriteStatus::Normal,
    {
        SafeWrite { buffer: Buffer::new(), status: WriteStatus::Normal }
    }

    /// Synchronous write surface. Surfaces a latched error exactly once;
    /// otherwise signals a needed drain when the buffer is full, or copies
    /// as much of `src` as fits into the free tail.
    pub fn write(&mut self, src: &[u8]) -> (r: WriteStep)
        requires
            old(self).wf(),
        ensures
            final(self).wf(),
            match old(self)@.status {
                WriteStatus::Errored(e) => r == WriteStep::Failed(e) && final(self)@ == WriteView {
                    status: WriteStatus::Normal,
                    ..old(self)@
                },
                WriteStatus::Normal => if old(self)@.room == 0 {
                    r == WriteStep::NeedsDrain && *final(self) == *old(self)
                } else {
                    r == WriteStep::Accepted(min(src@.len() as int, old(self)@.room) as usize)
                        && final(self)@ == WriteView {
                        data: old(self)@.data + src@.take(min(src@.len() as int, old(self)@.room)),
                        room: old(self)@.room - min(src@.len() as int, old(self)@.room),
                        status: WriteStatus::Normal,
                    }
                },
            },
    {
        let st = self.status;
        if let WriteStatus::Errored(e) = st {
            self.status = WriteStatus::Normal;
            return WriteStep::Failed(e);
        }
        if self.buffer.is_full() {
            return WriteStep::NeedsDrain;
        }
        let avail = self.buffer.available();
        let n = if src.len() < avail {
            src.len()
        } else {
            avail
        };
        self.buffer.push_slice(slice_subrange(src, 0, n));
        proof {
            assert(src@.subrange(0, n as int) =~= src@.take(min(src@.len() as int, old(self)@.room)));
        }
        WriteStep::Accepted(n)
    }

    /// Consume and reset the latched status, leaving the buffer untouched.
    pub fn take_status(&mut self) -> (st: WriteStatus)
        ensures
            st == old(self).status,
            final(self).status == WriteStatus::Normal,
            final(self).buffer == old(self).buffer,
    {
        let st = self.status;
        self.status = WriteStatus::Normal;
        st
    }

    /// Check that nothing is latched and nothing is buffered; the
    /// synchronous flush surface. A latched error is surfaced exactly
    /// once; a non-empty buffer asks for a drain first.
    pub fn flush(&mut self) -> (r: WriteStep)
        requires
            old(self).wf(),
        ensures
            final(self).wf(),
            match old(self)@.status {
                WriteStatus::Errored(e) => r == WriteStep::Failed(e) && final(self)@ == WriteView {
                    status: WriteStatus::Normal,
                    ..old(self)@
                },
                WriteStatus::Normal => if old(self)@.data.len() == 0 {
                    r == WriteStep::Accepted(0) && *final(self) == *old(self)
                } else {
                    r == WriteStep::NeedsDrain && *final(self) == *old(self)
                },
            },
    {
        let st = self.status;
        if let WriteStatus::Errored(e) = st {
            self.status = WriteStatus::Normal;
            return WriteStep::Failed(e);
        }
        if !self.buffer.is_empty() {
            return WriteStep::NeedsDrain;
        }
        WriteStep::Accepted(0)
    }

    /// Polled drain. Writes the buffered region to the transport until it
    /// is fully drained, the transport is not ready, or the transport
    /// fails. Bytes accepted by the transport are consumed immediately, so
    /// nothing is ever sent twice across partial progress; what remains is
    /// always a suffix of what was buffered.
    pub fn drain<T: Transport>(&mut self, t: &mut T) -> (r: IoPoll)
        requires
            old(self).wf(),
        ensures
            final(self).wf(),
            old(self)@.data.len() == 0 ==> r == IoPoll::Ready(0) && *final(self) == *old(self)
                && *final(t) == *old(t),
            final(self)@.data == old(self)@.data.skip(
                old(self)@.data.len() - final(self)@.data.len(),
            ),
            match r {
                IoPoll::Ready(n) => n == old(self)@.data.len() && final(self)@.data.len() == 0
                    && final(self)@.status == old(self)@.status,
                IoPoll::Pending => final(self)@.status == old(self)@.status,
                IoPoll::Failed(e) => final(self)@.status == WriteStatus::Errored(e)
                    && final(self)@.data.len() > 0,
            },
    {
        let total = self.buffer.len();
        let ghost orig = self@.data;
        while !self.buffer.is_empty()
            invariant
                self.wf(),
                self.status == old(self).status,
                orig == old(self)@.data,
                total == orig.len(),
                orig.len() == 0 ==> *self == *old(self) && *t == *old(t),
                self@.data.len() <= orig.len(),
                self@.data == orig.skip(orig.len() - self@.data.len()),
            decreases self.buffer.spec_len(),
        {
            match t.poll_write(self.buffer.peek()) {
                IoPoll::Ready(k) => {
                    if k == 0 {
                        let e = TransportError { code: CODE_WRITE_ZERO };
                        self.status = WriteStatus::Errored(e);
                        return IoPoll::Failed(e);
                    }
                    let ghost mid = self@.data;
                    let ghost off = orig.len() - mid.len();
                    self.buffer.advance(k);
                    proof {
                        vstd::seq_lib::lemma_seq_skip_of_skip(orig, off, k as int);
                        assert(self@.data == orig.skip(off + k));
                    }
                },
                IoPoll::Pending => {
                    return IoPoll::Pending;
                },
                IoPoll::Failed(e) => {
                    self.status = WriteStatus::Errored(e);
                    return IoPoll::Failed(e);
                },
            }
        }
        IoPoll::Ready(total)
    }
}

/// Law: the synchronous read signals "needs more input" exactly when its
/// buffer is empty and no status is latched.
pub proof fn lemma_read_would_block_iff(pre: ReadView, max: int)
    ensures
        read_out(pre, max) == ReadStepView::NeedsMoreInput <==> (pre.data.len() == 0
            && pre.status == ReadStatus::Normal),
{
}

/// Law: a latched end-of-input or error outcome is returned exactly once;
/// the very next read on the still-empty buffer signals "needs more
/// input" again.
pub proof fn lemma_latched_outcome_returned_once(pre: ReadView, max1: int, max2: int)
    requires
        pre.data.len() == 0,
        pre.status != ReadStatus::Normal,
    ensures
        pre.status == ReadStatus::Eof ==> read_out(pre, max1) == ReadStepView::Delivered(
            Seq::<u8>::empty(),
        ),
        pre.status matches ReadStatus::Errored(e) ==> read_out(pre, max1)
            == ReadStepView::Failed(e),
        read_post(pre, max1).status == ReadStatus::Normal,
        read_out(read_post(pre, max1), max2) == ReadStepView::NeedsMoreInput,
{
}

/// Law: a synchronous read delivers a prefix of the buffered bytes and
/// keeps exactly the rest, so buffered bytes are delivered exactly once.
pub proof fn lemma_read_delivers_prefix(pre: ReadView, max: int)
    requires
        0 <= max,
    ensures
        match read_out(pre, max) {
            ReadStepView::Delivered(d) => d + read_post(pre, max).data == pre.data,
            _ => read_post(pre, max).data == pre.data,
        },
{
    if pre.data.len() > 0 {
        let n = min(pre.data.len() as int, max);
        pre.data.lemma_split_at(n);
    } else {
        if pre.status == ReadStatus::Eof {
            assert(Seq::<u8>::empty() + pre.data =~= pre.data);
        }
    }
}

} // verus!
