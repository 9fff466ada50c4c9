//! The ring buffer under both copying buffering strategies: a
//! fixed-capacity byte region with a read cursor and a write cursor.

use vstd::prelude::*;
use vstd::slice::slice_subrange;

verus! {

/// Capacity of every buffer, fixed at construction.
pub const BUFFER_SIZE: usize = 16384;

/// Fixed-capacity byte region with read/write cursors. The bytes between
/// the cursors are the buffered data; `advance` consumes from the front,
/// `push_slice` appends at the tail. When the buffer is fully drained both
/// cursors reset to zero so the region can be reused from the start.
#[derive(Debug)]
pub struct Buffer {
    pub read: usize,
    pub write: usize,
    pub buf: Vec<u8>,
}

impl Buffer {
    /// Well-formedness: the cursors are ordered and in range, the region
    /// has the fixed capacity, and a drained buffer rests at offset zero.
    pub open spec fn wf(&self) -> bool {
        &&& self.read <= self.write
        &&& self.write <= self.buf@.len()
        &&& self.buf@.len() == BUFFER_SIZE
        &&& (self.read == self.write ==> self.read == 0)
    }

    /// The bytes currently buffered, oldest first.
    pub open spec fn contents(&self) -> Seq<u8> {
        self.buf@.subrange(self.read as int, self.write as int)
    }

    /// Number of buffered bytes.
    pub open spec fn spec_len(&self) -> int {
        self.write - self.read
    }

    /// Free space at the tail of the region.
    pub open spec fn spec_available(&self) -> int {
        self.buf@.len() - self.write
    }

    pub fn new() -> (r: Buffer)
        ensures
            r.wf(),
            r.contents() == Seq::<u8>::empty(),
            r.spec_available() == BUFFER_SIZE,
    {
        let r = Buffer { read: 0, write: 0, buf: vec![0u8; BUFFER_SIZE] };
        proof {
            assert(r.contents() =~= Seq::<u8>::empty());
        }
        r
    }

    /// Number of buffered bytes: always `write - read`, and never more than
    /// the capacity while the buffer is well formed.
    pub fn len(&self) -> (n: usize)
        requires
            self.wf(),
        ensures
            n == self.spec_len(),
            n == self.contents().len(),
            n <= BUFFER_SIZE,
    {
        self.write - self.read
    }

    pub fn is_empty(&self) -> (r: bool)
        requires
            self.wf(),
        ensures
            r <==> self.contents().len() == 0,
    {
        self.len() == 0
    }

    /// Free space at the tail of the region.
    pub fn available(&self) -> (n: usize)
        requires
            self.wf(),
        ensures
            n == self.spec_available(),
    {
        self.buf.len() - self.write
    }

    pub fn is_full(&self) -> (r: bool)
        requires
            self.wf(),
        ensures
            r <==> self.spec_available() == 0,
    {
        self.available() == 0
    }

    /// Consume `n` bytes from the front. The cursors return to offset zero
    /// exactly when the buffer is fully drained.
    pub fn advance(&mut self, n: usize)
        requires
            old(self).wf(),
            n <= old(self).spec_len(),
        ensures
            final(self).wf(),
            final(self).contents() == old(self).contents().skip(n as int),
            final(self).spec_available() >= old(self).spec_available(),
            (final(self).read == 0 && final(self).write == 0) <==> n == old(self).spec_len(),
            n < old(self).spec_len() ==> final(self).read == old(self).read + n && final(self).write == old(self).write,
    {
        self.read = self.read + n;
        if self.read == self.write {
            self.read = 0;
            self.write = 0;
        }
        proof {
            assert(self.contents() =~= old(self).contents().skip(n as int));
        }
    }

    /// Borrow the buffered bytes, oldest first.
    pub fn peek<'a>(&'a self) -> (r: &'a [u8])
        requires
            self.wf(),
        ensures
            r@ == self.contents(),
    {
        slice_subrange(self.buf.as_slice(), self.read, self.write)
    }

    /// Append `data` at the tail of the region.
    pub fn push_slice(&mut self, data: &[u8])
        requires
            old(self).wf(),
            data@.len() <= old(self).spec_available(),
        ensures
            final(self).wf(),
            final(self).contents() == old(self).contents() + data@,
            final(self).read == old(self).read,
            final(self).spec_available() == old(self).spec_available() - data@.len(),
    {
        let mut i: usize = 0;
        while i < data.len()
            invariant
                old(self).wf(),
                i <= data@.len(),
                data@.len() <= old(self).spec_available(),
                self.read == old(self).read,
                self.write == old(self).write,
                self.buf@.len() == old(self).buf@.len(),
                forall|j: int| 0 <= j < self.write as int ==> self.buf@[j] == old(self).buf@[j],
                forall|j: int| 0 <= j < i ==> self.buf@[self.write + j] == data@[j],
            decreases data@.len() - i,
        {
            let b = *vstd::slice::slice_index_get(data, i);
            self.buf[self.write + i] = b;
            i = i + 1;
        }
        self.write = self.write + data.len();
        proof {
            assert forall|k: int| 0 <= k < self.contents().len() implies self.contents()[k] == (
            old(self).contents() + data@)[k] by {
                let r = old(self).read as int;
                let w = old(self).write as int;
                if k < w - r {
                    assert(self.buf@[r + k] == old(self).buf@[r + k]);
                } else {
                    assert(self.buf@[w + (k - (w - r))] == data@[k - (w - r)]);
                }
            }
            assert(self.contents() =~= old(self).contents() + data@);
        }
    }
}

/// Law: a well-formed buffer — and every operation here keeps buffers
/// well formed — holds exactly `write - read` bytes, never more than the
/// capacity.
pub proof fn lemma_buffer_length_bounds(b: Buffer)
    requires
        b.wf(),
    ensures
        b.contents().len() == b.write - b.read,
        b.contents().len() <= BUFFER_SIZE,
{
}

} // verus!
