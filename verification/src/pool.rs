//! Bounded pool of reusable output buffers.
//!
//! The pool removes allocation from the steady-state audio path: a buffer
//! that comes back from a completed (or abandoned) downstream hand-off is
//! kept for the next frame instead of being freed. Pool misses degrade
//! performance, never correctness.

use vstd::prelude::*;

verus! {

/// Once this many buffers are held, a returned buffer is let go
/// instead of being kept.
pub const MAX_POOLED_BUFFERS: usize = 128;

/// A fresh allocation is made at least this large, in bytes.
pub const MIN_ALLOCATION: usize = 1024;

/// An output buffer together with the capacity it was requested with.
///
/// `cap` is the pool's own record of how many bytes the buffer was sized
/// for when it was allocated; the underlying allocation is at least that
/// large. Logical contents are irrelevant once a buffer is back in the
/// pool: `acquire` clears before reuse.
pub struct PooledBuffer {
    pub data: Vec<u8>,
    pub cap: usize,
}

/// Bounded set of reusable buffers, modelled by the sequence of their
/// recorded capacities.
pub struct BufferPool {
    buffers: Vec<PooledBuffer>,
}

/// Whether some held buffer is at least `min` large.
pub open spec fn has_fit(caps: Seq<usize>, min: usize) -> bool {
    exists|i: int| 0 <= i < caps.len() && caps[i] >= min
}

/// How one `acquire` call turns the pool's capacities `before` into
/// `after`, handing out a buffer of capacity `got`: either some held
/// buffer at least `min` large was taken out (`reused`, any fitting one
/// may be picked), or nothing fitted and a fresh buffer of at least
/// [`MIN_ALLOCATION`] bytes was made.
pub open spec fn acquire_transition(
    before: Seq<usize>,
    after: Seq<usize>,
    got: usize,
    reused: bool,
    min: usize,
) -> bool {
    if reused {
        exists|i: int|
            0 <= i < before.len() && before[i] >= min && got == before[i] && after == before.update(
                i,
                before.last(),
            ).drop_last()
    } else {
        after == before && got == if min > MIN_ALLOCATION {
            min
        } else {
            MIN_ALLOCATION
        }
    }
}

impl BufferPool {
    /// The capacities of the buffers currently held, in storage order.
    pub closed spec fn caps(&self) -> Seq<usize> {
        self.buffers@.map_values(|b: PooledBuffer| b.cap)
    }

    pub fn new() -> (p: BufferPool)
        ensures
            p.caps() == Seq::<usize>::empty(),
    {
        let p = BufferPool { buffers: Vec::new() };
        proof {
            assert(p.caps() =~= Seq::<usize>::empty());
        }
        p
    }

    /// Number of buffers currently held.
    pub fn len(&self) -> (n: usize)
        ensures
            n == self.caps().len(),
    {
        self.buffers.len()
    }

    /// Hands out a buffer of capacity at least `min_capacity`, with empty
    /// logical contents regardless of what the buffer held before.
    ///
    /// Any held buffer large enough may be picked (no best fit); when none
    /// fits, a fresh buffer of at least [`MIN_ALLOCATION`] bytes is made.
    /// `reused` tells the two cases apart for the caller's statistics.
    pub fn acquire(&mut self, min_capacity: usize) -> (r: (PooledBuffer, bool))
        ensures
            r.0.data@.len() == 0,
            r.0.cap >= min_capacity,
            r.1 == has_fit(old(self).caps(), min_capacity),
            acquire_transition(
                old(self).caps(),
                final(self).caps(),
                r.0.cap,
                r.1,
                min_capacity,
            ),
    {
        let n = self.buffers.len();
        let mut i: usize = 0;
        while i < n
            invariant
                n == self.buffers@.len(),
                0 <= i <= n,
                *self == *old(self),
                forall|j: int| 0 <= j < i ==> old(self).caps()[j] < min_capacity,
            decreases n - i,
        {
            if self.buffers[i].cap >= min_capacity {
                let ghost wi = i as int;
                let mut b = self.buffers.swap_remove(i);
                b.data.clear();
                proof {
                    assert(self.caps() =~= old(self).caps().update(
                        wi,
                        old(self).caps().last(),
                    ).drop_last());
                    assert(0 <= wi < old(self).caps().len() && old(self).caps()[wi]
                        >= min_capacity && b.cap == old(self).caps()[wi] && self.caps() == old(
                        self,
                    ).caps().update(wi, old(self).caps().last()).drop_last());
                }
                return (b, true);
            }
            i += 1;
        }
        proof {
            assert(!has_fit(old(self).caps(), min_capacity));
        }
        let size = if min_capacity > MIN_ALLOCATION {
            min_capacity
        } else {
            MIN_ALLOCATION
        };
        (PooledBuffer { data: Vec::with_capacity(size), cap: size }, false)
    }

    /// Takes a buffer back. A buffer with a nonzero capacity is kept while
    /// fewer than [`MAX_POOLED_BUFFERS`] are held; otherwise it is dropped.
    /// Returns whether the buffer was kept.
    pub fn release(&mut self, b: PooledBuffer) -> (kept: bool)
        ensures
            kept == (b.cap > 0 && old(self).caps().len() < MAX_POOLED_BUFFERS),
            kept ==> final(self).caps() == old(self).caps().push(b.cap),
            !kept ==> final(self).caps() == old(self).caps(),
    {
        if b.cap > 0 && self.buffers.len() < MAX_POOLED_BUFFERS {
            let ghost bcap = b.cap;
            self.buffers.push(b);
            proof {
                assert(self.caps() =~= old(self).caps().push(bcap));
            }
            true
        } else {
            false
        }
    }
}

} // verus!
