//! Split and reunite: one connection driven by two independently scheduled
//! handles.
//!
//! Splitting parks the connection in a [`SplitCell`] and returns a
//! [`ReadHalf`] and a [`WriteHalf`] carrying the cell's token. Every access
//! through a handle is mediated by a checked single-owner-at-a-time
//! accessor: the handle must carry the cell's token and the connection must
//! be parked, otherwise the access is refused instead of aliasing state
//! some other handle may be using. Reuniting takes one handle of each kind:
//! if both belong to the cell, the connection is handed back exclusively
//! owned; otherwise both handles are returned unchanged inside the error.
//!
//! The cell is valid only under a single-threaded cooperative scheduler,
//! and only with transports that tolerate interleaved, independently
//! scheduled reads and writes.

use vstd::prelude::*;

use crate::engine::Session;
use crate::error::{Progress, TlsError};
use crate::stream::Stream;
use crate::transport::Transport;

verus! {

/// The parking cell one split connection lives in.
pub struct SplitCell<IO, C> {
    pub inner: Option<Stream<IO, C>>,
    pub token: u64,
}

/// The read handle of a split connection: exposes only the read operation.
#[derive(Debug)]
pub struct ReadHalf {
    pub token: u64,
}

/// The write handle of a split connection: exposes write, vectored write,
/// flush and shutdown.
#[derive(Debug)]
pub struct WriteHalf {
    pub token: u64,
}

/// Error indicating that the two halves given to `reunite` do not belong
/// to the same split connection. Carries both input handles back unchanged
/// so the caller can recover them.
#[derive(Debug)]
pub struct ReuniteError(pub ReadHalf, pub WriteHalf);

impl<IO, C> SplitCell<IO, C> {
    pub open spec fn wf(&self) -> bool {
        self.inner matches Some(s) ==> s.wf()
    }
}

/// What splitting a connection produces: the parked connection and two
/// handles carrying the cell's token.
pub open spec fn spec_split<IO, C>(s: Stream<IO, C>, token: u64) -> (
    SplitCell<IO, C>,
    ReadHalf,
    WriteHalf,
) {
    (SplitCell { inner: Some(s), token }, ReadHalf { token }, WriteHalf { token })
}

/// When reuniting succeeds: both handles carry the cell's token and the
/// connection is parked.
pub open spec fn reunite_ok<IO, C>(read: ReadHalf, write: WriteHalf, cell: SplitCell<IO, C>) -> bool {
    &&& read.token == write.token
    &&& read.token == cell.token
    &&& cell.inner is Some
}

impl<IO, C> Stream<IO, C> {
    /// Split this connection into a parking cell, a read handle and a
    /// write handle. The caller chooses the token and must choose a
    /// distinct token for every split, as the original connection identity
    /// that reuniting checks.
    pub fn split(self, token: u64) -> (r: (SplitCell<IO, C>, ReadHalf, WriteHalf))
        ensures
            r == spec_split(self, token),
    {
        (SplitCell { inner: Some(self), token }, ReadHalf { token }, WriteHalf { token })
    }
}

/// Reunite a read half and a write half: if both belong to `cell` and the
/// connection is parked there, the connection is handed back exclusively
/// owned and the cell is left empty; otherwise the cell is untouched and
/// both handles come back inside the error.
pub fn reunite<IO, C>(read: ReadHalf, write: WriteHalf, cell: &mut SplitCell<IO, C>) -> (r: Result<
    Stream<IO, C>,
    ReuniteError,
>)
    ensures
        final(cell).token == old(cell).token,
        reunite_ok(read, write, *old(cell)) ==> final(cell).inner is None && (r matches Ok(s)
            && Some(s) == old(cell).inner),
        !reunite_ok(read, write, *old(cell)) ==> *final(cell) == *old(cell) && (r matches Err(e)
            && e.0 == read && e.1 == write),
{
    if read.token == write.token && read.token == cell.token {
        let mut slot: Option<Stream<IO, C>> = None;
        core::mem::swap(&mut slot, &mut cell.inner);
        match slot {
            Some(s) => Ok(s),
            None => Err(ReuniteError(read, write)),
        }
    } else {
        Err(ReuniteError(read, write))
    }
}

impl ReadHalf {
    /// Reunite this read half with a write half of the same split.
    pub fn reunite<IO, C>(self, other: WriteHalf, cell: &mut SplitCell<IO, C>) -> (r: Result<
        Stream<IO, C>,
        ReuniteError,
    >)
        ensures
            final(cell).token == old(cell).token,
            reunite_ok(self, other, *old(cell)) ==> final(cell).inner is None && (r matches Ok(s)
                && Some(s) == old(cell).inner),
            !reunite_ok(self, other, *old(cell)) ==> *final(cell) == *old(cell) && (r matches Err(
                e,
            ) && e.0 == self && e.1 == other),
    {
        reunite(self, other, cell)
    }

    /// Read decrypted plaintext through the cell. The access is refused,
    /// with the cell untouched, unless this handle belongs to the cell and
    /// the connection is parked; a granted access never touches the
    /// write-side state a write handle may be using.
    pub fn poll_read<IO: Transport, C: Session>(
        &self,
        cell: &mut SplitCell<IO, C>,
        max: usize,
    ) -> (r: Progress<Vec<u8>>)
        requires
            old(cell).wf(),
        ensures
            final(cell).wf(),
            final(cell).token == old(cell).token,
            !(self.token == old(cell).token && old(cell).inner is Some) ==> *final(cell) == *old(cell) && (r matches Progress::Failed(e) && e == TlsError::NotAttached),
            match old(cell).inner {
                Some(s0) => self.token == old(cell).token ==> (final(cell).inner matches Some(s1)
                    && s1.w_buffer == s0.w_buffer && s1.w_pending == s0.w_pending),
                None => true,
            },
            (self.token == old(cell).token && old(cell).inner is Some) ==> match r {
                Progress::Failed(e) => !(e is NotAttached),
                _ => true,
            },
            r matches Progress::Ready(v) ==> v@.len() <= max,
    {
        if self.token != cell.token {
            return Progress::Failed(TlsError::NotAttached);
        }
        let mut slot: Option<Stream<IO, C>> = None;
        core::mem::swap(&mut slot, &mut cell.inner);
        match slot {
            Some(mut s) => {
                let r = s.read_inner(max, true);
                cell.inner = Some(s);
                r
            },
            None => Progress::Failed(TlsError::NotAttached),
        }
    }
}

impl WriteHalf {
    /// Reunite this write half with a read half of the same split.
    pub fn reunite<IO, C>(self, other: ReadHalf, cell: &mut SplitCell<IO, C>) -> (r: Result<
        Stream<IO, C>,
        ReuniteError,
    >)
        ensures
            final(cell).token == old(cell).token,
            reunite_ok(other, self, *old(cell)) ==> final(cell).inner is None && (r matches Ok(s)
                && Some(s) == old(cell).inner),
            !reunite_ok(other, self, *old(cell)) ==> *final(cell) == *old(cell) && (r matches Err(
                e,
            ) && e.0 == other && e.1 == self),
    {
        reunite(other, self, cell)
    }

    /// Write plaintext through the cell; refused unless attached. A
    /// granted access never touches the read-side state a read handle may
    /// be using.
    pub fn poll_write<IO: Transport, C: Session>(
        &self,
        cell: &mut SplitCell<IO, C>,
        src: &[u8],
    ) -> (r: Progress<usize>)
        requires
            old(cell).wf(),
        ensures
            final(cell).wf(),
            final(cell).token == old(cell).token,
            !(self.token == old(cell).token && old(cell).inner is Some) ==> *final(cell) == *old(cell) && (r matches Progress::Failed(e) && e == TlsError::NotAttached),
            match old(cell).inner {
                Some(s0) => self.token == old(cell).token ==> (final(cell).inner matches Some(s1)
                    && s1.r_buffer == s0.r_buffer),
                None => true,
            },
            match r {
                Progress::Ready(_) => match final(cell).inner {
                    Some(s1) => s1.w_buffer@.data.len() == 0,
                    None => false,
                },
                _ => true,
            },
            (self.token == old(cell).token && old(cell).inner is Some) ==> match r {
                Progress::Failed(e) => !(e is NotAttached),
                _ => true,
            },
    {
        if self.token != cell.token {
            return Progress::Failed(TlsError::NotAttached);
        }
        let mut slot: Option<Stream<IO, C>> = None;
        core::mem::swap(&mut slot, &mut cell.inner);
        match slot {
            Some(mut s) => {
                let r = s.poll_write(src);
                cell.inner = Some(s);
                r
            },
            None => Progress::Failed(TlsError::NotAttached),
        }
    }

    /// Vectored write through the cell: degrades to the first non-empty
    /// segment; refused unless attached.
    pub fn poll_write_vectored<IO: Transport, C: Session>(
        &self,
        cell: &mut SplitCell<IO, C>,
        bufs: &Vec<Vec<u8>>,
    ) -> (r: Progress<usize>)
        requires
            old(cell).wf(),
        ensures
            final(cell).wf(),
            final(cell).token == old(cell).token,
            !(self.token == old(cell).token && old(cell).inner is Some) ==> *final(cell) == *old(cell) && (r matches Progress::Failed(e) && e == TlsError::NotAttached),
            match old(cell).inner {
                Some(s0) => self.token == old(cell).token ==> (final(cell).inner matches Some(s1)
                    && s1.r_buffer == s0.r_buffer),
                None => true,
            },
            match r {
                Progress::Ready(_) => match final(cell).inner {
                    Some(s1) => s1.w_buffer@.data.len() == 0,
                    None => false,
                },
                _ => true,
            },
            (self.token == old(cell).token && old(cell).inner is Some) ==> match r {
                Progress::Failed(e) => !(e is NotAttached),
                _ => true,
            },
    {
        if self.token != cell.token {
            return Progress::Failed(TlsError::NotAttached);
        }
        let mut slot: Option<Stream<IO, C>> = None;
        core::mem::swap(&mut slot, &mut cell.inner);
        match slot {
            Some(mut s) => {
                let r = s.poll_write_vectored(bufs);
                cell.inner = Some(s);
                r
            },
            None => Progress::Failed(TlsError::NotAttached),
        }
    }

    /// Flush through the cell; refused unless attached.
    pub fn poll_flush<IO: Transport, C: Session>(&self, cell: &mut SplitCell<IO, C>) -> (r:
        Progress<()>)
        requires
            old(cell).wf(),
        ensures
            final(cell).wf(),
            final(cell).token == old(cell).token,
            !(self.token == old(cell).token && old(cell).inner is Some) ==> *final(cell) == *old(cell) && (r matches Progress::Failed(e) && e == TlsError::NotAttached),
            match old(cell).inner {
                Some(s0) => self.token == old(cell).token ==> (final(cell).inner matches Some(s1)
                    && s1.r_buffer == s0.r_buffer),
                None => true,
            },
            match r {
                Progress::Ready(_) => match final(cell).inner {
                    Some(s1) => s1.w_buffer@.data.len() == 0,
                    None => false,
                },
                _ => true,
            },
            (self.token == old(cell).token && old(cell).inner is Some) ==> match r {
                Progress::Failed(e) => !(e is NotAttached),
                _ => true,
            },
    {
        if self.token != cell.token {
            return Progress::Failed(TlsError::NotAttached);
        }
        let mut slot: Option<Stream<IO, C>> = None;
        core::mem::swap(&mut slot, &mut cell.inner);
        match slot {
            Some(mut s) => {
                let r = s.poll_flush();
                cell.inner = Some(s);
                r
            },
            None => Progress::Failed(TlsError::NotAttached),
        }
    }

    /// Shutdown through the cell; refused unless attached.
    pub fn poll_shutdown<IO: Transport, C: Session>(&self, cell: &mut SplitCell<IO, C>) -> (r:
        Progress<()>)
        requires
            old(cell).wf(),
        ensures
            final(cell).wf(),
            final(cell).token == old(cell).token,
            !(self.token == old(cell).token && old(cell).inner is Some) ==> *final(cell) == *old(cell) && (r matches Progress::Failed(e) && e == TlsError::NotAttached),
            match old(cell).inner {
                Some(s0) => self.token == old(cell).token ==> (final(cell).inner matches Some(s1)
                    && s1.r_buffer == s0.r_buffer),
                None => true,
            },
            match r {
                Progress::Ready(_) => match final(cell).inner {
                    Some(s1) => s1.w_buffer@.data.len() == 0,
                    None => false,
                },
                _ => true,
            },
            (self.token == old(cell).token && old(cell).inner is Some) ==> match r {
                Progress::Failed(e) => !(e is NotAttached),
                _ => true,
            },
    {
        if self.token != cell.token {
            return Progress::Failed(TlsError::NotAttached);
        }
        let mut slot: Option<Stream<IO, C>> = None;
        core::mem::swap(&mut slot, &mut cell.inner);
        match slot {
            Some(mut s) => {
                let r = s.poll_shutdown();
                cell.inner = Some(s);
                r
            },
            None => Progress::Failed(TlsError::NotAttached),
        }
    }

    /// Whether the transport handles vectored writes efficiently; `false`
    /// when not attached.
    pub fn is_write_vectored<IO: Transport, C: Session>(&self, cell: &SplitCell<IO, C>) -> bool {
        if self.token != cell.token {
            return false;
        }
        match &cell.inner {
            Some(s) => s.is_write_vectored(),
            None => false,
        }
    }
}

/// Law: splitting and immediately reuniting, with no intervening access,
/// hands back exactly the connection that was split: the split's own
/// handles and cell always satisfy the reunite condition, and the cell
/// parks the unchanged connection.
pub proof fn lemma_split_then_reunite<IO, C>(s: Stream<IO, C>, token: u64)
    ensures
        ({
            let (cell, r, w) = spec_split(s, token);
            reunite_ok(r, w, cell) && cell.inner == Some(s)
        }),
{
}

/// Law: handles born of two splits with distinct tokens never reunite, in
/// either pairing, against either split's cell.
pub proof fn lemma_cross_split_reunite_fails<IO, C>(
    a: Stream<IO, C>,
    b: Stream<IO, C>,
    ta: u64,
    tb: u64,
)
    requires
        ta != tb,
    ensures
        !reunite_ok(spec_split(a, ta).1, spec_split(b, tb).2, spec_split(a, ta).0),
        !reunite_ok(spec_split(b, tb).1, spec_split(a, ta).2, spec_split(a, ta).0),
        !reunite_ok(spec_split(a, ta).1, spec_split(b, tb).2, spec_split(b, tb).0),
{
}

} // verus!
