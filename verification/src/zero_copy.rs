//! The zero-copy buffering strategy.
//!
//! Same calling pattern as the copying strategy, but no ring buffer: the
//! synchronous call records the caller's region, the polled `fill` or
//! `drain` performs the transport operation directly against that region,
//! and the next synchronous call observes the stored count. Instead of an
//! untracked pointer the region is an owned byte vector moved into the
//! strategy while the operation is pending, so the recorded memory cannot
//! be invalidated underneath it.
//!
//! This strategy stands alone against the transport. The stream
//! orchestrator always uses the copying strategy: its engine capability
//! offers bytes as slices and lets the engine consume a prefix, so the
//! orchestrator must keep the unconsumed remainder buffered, which is the
//! ring buffer's job. The pointer aliasing that let the orchestrator hand
//! the engine's own internal buffer to the transport — the only way to
//! skip that buffering — cannot be expressed here.

use vstd::prelude::*;
use crate::error::TransportError;
use crate::transport::{IoPoll, ReadPoll, Transport};

verus! {

/// Per-direction status of a zero-copy strategy.
#[derive(Debug)]
pub enum ZeroStatus {
    /// No region recorded; the synchronous call must run first.
    Idle,
    /// A region awaits its transport operation.
    Recorded(Vec<u8>),
    /// The transport operation completed, having moved the counted number
    /// of bytes at the front of the region: a filled prefix for reads, an
    /// accepted prefix for writes.
    Filled(Vec<u8>, usize),
}

/// Outcome of the zero-copy synchronous read surface.
#[derive(Debug)]
pub enum ZeroReadStep {
    /// The region was recorded; `fill` must run. Hands back the previously
    /// recorded region, if one was displaced.
    Recorded(Option<Vec<u8>>),
    /// The completed transport read: the recorded region, the number of
    /// bytes at its front, and the region passed to this call, unused.
    Delivered(Vec<u8>, usize, Vec<u8>),
    /// A zero-length transport read was observed: end of input. Reported
    /// on every call without accepting a new region; hands the passed
    /// region back.
    AtEof(Vec<u8>),
}

/// Outcome of a zero-copy polled transport operation.
#[derive(Debug, PartialEq, Eq, Structural)]
pub enum ZeroIo {
    /// The operation completed (now or on an earlier call), moving this
    /// many bytes.
    Ready(usize),
    /// The transport is not ready; poll again. The recorded region is
    /// retained.
    Pending,
    /// The transport failed; the recorded region is retained and the
    /// operation may be retried.
    Failed(TransportError),
    /// No region was recorded: the synchronous call must run first.
    NotRecorded,
}

/// Read direction of the zero-copy strategy.
pub struct ZeroRead {
    pub status: ZeroStatus,
}

impl ZeroRead {
    pub fn new() -> (r: ZeroRead)
        ensures
            r.status is Idle,
    {
        ZeroRead { status: ZeroStatus::Idle }
    }

    /// Synchronous read surface. Records `region` and asks for a `fill`,
    /// or hands back the region a completed `fill` wrote into, resetting
    /// to accept a new region exactly when the count was nonzero.
    pub fn read(&mut self, region: Vec<u8>) -> (r: ZeroReadStep)
        ensures
            match old(self).status {
                ZeroStatus::Idle => final(self).status == ZeroStatus::Recorded(region)
                    && (r matches ZeroReadStep::Recorded(None)),
                ZeroStatus::Recorded(prev) => final(self).status == ZeroStatus::Recorded(region)
                    && (r matches ZeroReadStep::Recorded(d) && d == Some(prev)),
                ZeroStatus::Filled(filled, n) => if n == 0 {
                    &&& final(self).status == old(self).status
                    &&& r matches ZeroReadStep::AtEof(back) && back == region
                } else {
                    &&& final(self).status is Idle
                    &&& r matches ZeroReadStep::Delivered(f, m, back) && f == filled && m == n
                        && back == region
                },
            },
    {
        let mut st = ZeroStatus::Idle;
        core::mem::swap(&mut st, &mut self.status);
        match st {
            ZeroStatus::Idle => {
                self.status = ZeroStatus::Recorded(region);
                ZeroReadStep::Recorded(None)
            },
            ZeroStatus::Recorded(prev) => {
                self.status = ZeroStatus::Recorded(region);
                ZeroReadStep::Recorded(Some(prev))
            },
            ZeroStatus::Filled(filled, n) => {
                if n == 0 {
                    self.status = ZeroStatus::Filled(filled, 0);
                    ZeroReadStep::AtEof(region)
                } else {
                    ZeroReadStep::Delivered(filled, n, region)
                }
            },
        }
    }

    /// Polled fill: performs the transport read directly against the
    /// recorded region. Only the filled prefix of the region is written;
    /// every byte beyond the count reported by the transport is left
    /// exactly as the caller provided it, and the region never changes
    /// length.
    pub fn fill<T: Transport>(&mut self, t: &mut T) -> (r: ZeroIo)
        ensures
            !(old(self).status is Recorded) ==> *final(t) == *old(t),
            match old(self).status {
                ZeroStatus::Idle => r is NotRecorded && final(self).status == old(self).status,
                ZeroStatus::Filled(filled, n) => r == ZeroIo::Ready(n) && final(self).status == old(
                    self,
                ).status,
                ZeroStatus::Recorded(region) => match r {
                    ZeroIo::Ready(n) => {
                        &&& n <= region@.len()
                        &&& final(self).status matches ZeroStatus::Filled(f, m) && m == n && f@.len()
                            == region@.len() && f@.skip(n as int) == region@.skip(n as int)
                    },
                    ZeroIo::Pending => final(self).status == old(self).status,
                    ZeroIo::Failed(_) => final(self).status == old(self).status,
                    ZeroIo::NotRecorded => false,
                },
            },
    {
        let mut st = ZeroStatus::Idle;
        core::mem::swap(&mut st, &mut self.status);
        match st {
            ZeroStatus::Idle => ZeroIo::NotRecorded,
            ZeroStatus::Filled(filled, n) => {
                self.status = ZeroStatus::Filled(filled, n);
                ZeroIo::Ready(n)
            },
            ZeroStatus::Recorded(mut region) => {
                if region.len() == 0 {
                    self.status = ZeroStatus::Filled(region, 0);
                    return ZeroIo::Ready(0);
                }
                match t.poll_read(region.len()) {
                    ReadPoll::Ready(bytes) => {
                        let n = bytes.len();
                        let ghost pre = region@;
                        let mut i: usize = 0;
                        while i < bytes.len()
                            invariant
                                i <= bytes@.len(),
                                bytes@.len() <= region@.len(),
                                region@.len() == pre.len(),
                                forall|j: int| 0 <= j < i ==> region@[j] == bytes@[j],
                                forall|j: int|
                                    i <= j < region@.len() ==> region@[j] == pre[j],
                            decreases bytes@.len() - i,
                        {
                            let b = *vstd::slice::slice_index_get(bytes.as_slice(), i);
                            region[i] = b;
                            i = i + 1;
                        }
                        proof {
                            assert(region@.skip(n as int) =~= pre.skip(n as int));
                        }
                        self.status = ZeroStatus::Filled(region, n);
                        ZeroIo::Ready(n)
                    },
                    ReadPoll::Pending => {
                        self.status = ZeroStatus::Recorded(region);
                        ZeroIo::Pending
                    },
                    ReadPoll::Failed(e) => {
                        self.status = ZeroStatus::Recorded(region);
                        ZeroIo::Failed(e)
                    },
                }
            },
        }
    }
}

/// Outcome of the zero-copy synchronous write surface.
#[derive(Debug)]
pub enum ZeroWriteStep {
    /// The source was recorded; `drain` must run. Hands back the
    /// previously recorded source, if one was displaced.
    Recorded(Option<Vec<u8>>),
    /// The completed transport write: how many front bytes of the recorded
    /// source the transport accepted, the source itself, and the source
    /// passed to this call, unused.
    Accepted(usize, Vec<u8>, Vec<u8>),
    /// A zero-length transport write was observed. Reported on every call
    /// without accepting a new source; hands the passed source back.
    AtEof(Vec<u8>),
}

/// Write direction of the zero-copy strategy.
pub struct ZeroWrite {
    pub status: ZeroStatus,
}

impl ZeroWrite {
    pub fn new() -> (r: ZeroWrite)
        ensures
            r.status is Idle,
    {
        ZeroWrite { status: ZeroStatus::Idle }
    }

    /// Synchronous write surface, mirroring the read side: records the
    /// source to send, or reports how much of the recorded source a
    /// completed `drain` sent, resetting exactly when that count was
    /// nonzero.
    pub fn write(&mut self, src: Vec<u8>) -> (r: ZeroWriteStep)
        ensures
            match old(self).status {
                ZeroStatus::Idle => final(self).status == ZeroStatus::Recorded(src)
                    && (r matches ZeroWriteStep::Recorded(None)),
                ZeroStatus::Recorded(prev) => final(self).status == ZeroStatus::Recorded(src)
                    && (r matches ZeroWriteStep::Recorded(d) && d == Some(prev)),
                ZeroStatus::Filled(sent, n) => if n == 0 {
                    &&& final(self).status == old(self).status
                    &&& r matches ZeroWriteStep::AtEof(back) && back == src
                } else {
                    &&& final(self).status is Idle
                    &&& r matches ZeroWriteStep::Accepted(m, s, back) && m == n && s == sent
                        && back == src
                },
            },
    {
        let mut st = ZeroStatus::Idle;
        core::mem::swap(&mut st, &mut self.status);
        match st {
            ZeroStatus::Idle => {
                self.status = ZeroStatus::Recorded(src);
                ZeroWriteStep::Recorded(None)
            },
            ZeroStatus::Recorded(prev) => {
                self.status = ZeroStatus::Recorded(src);
                ZeroWriteStep::Recorded(Some(prev))
            },
            ZeroStatus::Filled(sent, n) => {
                if n == 0 {
                    self.status = ZeroStatus::Filled(sent, 0);
                    ZeroWriteStep::AtEof(src)
                } else {
                    ZeroWriteStep::Accepted(n, sent, src)
                }
            },
        }
    }

    /// Polled drain: performs one transport write of the recorded source.
    /// The source itself is never modified; the count reported by the
    /// transport is stored for the next synchronous call.
    pub fn drain<T: Transport>(&mut self, t: &mut T) -> (r: ZeroIo)
        ensures
            !(old(self).status is Recorded) ==> *final(t) == *old(t),
            match old(self).status {
                ZeroStatus::Idle => r is NotRecorded && final(self).status == old(self).status,
                ZeroStatus::Filled(sent, n) => r == ZeroIo::Ready(n) && final(self).status == old(
                    self,
                ).status,
                ZeroStatus::Recorded(src) => match r {
                    ZeroIo::Ready(n) => n <= src@.len() && final(self).status == ZeroStatus::Filled(
                        src,
                        n,
                    ),
                    ZeroIo::Pending => final(self).status == old(self).status,
                    ZeroIo::Failed(_) => final(self).status == old(self).status,
                    ZeroIo::NotRecorded => false,
                },
            },
    {
        let mut st = ZeroStatus::Idle;
        core::mem::swap(&mut st, &mut self.status);
        match st {
            ZeroStatus::Idle => ZeroIo::NotRecorded,
            ZeroStatus::Filled(sent, n) => {
                self.status = ZeroStatus::Filled(sent, n);
                ZeroIo::Ready(n)
            },
            ZeroStatus::Recorded(src) => {
                match t.poll_write(src.as_slice()) {
                    IoPoll::Ready(n) => {
                        self.status = ZeroStatus::Filled(src, n);
                        ZeroIo::Ready(n)
                    },
                    IoPoll::Pending => {
                        self.status = ZeroStatus::Recorded(src);
                        ZeroIo::Pending
                    },
                    IoPoll::Failed(e) => {
                        self.status = ZeroStatus::Recorded(src);
                        ZeroIo::Failed(e)
                    },
                }
            },
        }
    }
}

} // verus!
