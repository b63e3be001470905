//! Frame buffers: a reference-counted handle to one decoded frame's pixel
//! storage, and the small buffer-pool type that decoder support structures
//! carry. A handle is cheap to clone — clones alias the same storage — and
//! `copy_buffer` yields an independent storage with the same contents.
use std::rc::Rc;
use vstd::prelude::*;

verus! {

/// Errors that frame allocation can report.
#[derive(Debug, Clone, Copy, PartialEq, Eq, Structural)]
pub enum AllocatorError {
    /// The requested dimensions cannot be allocated.
    TooLargeDimensions,
    /// The requested picture format is invalid.
    FormatError,
    /// Allocation failed.
    MemoryError,
}

/// A shared handle to one decoded frame's pixel storage.
///
/// Cloning the handle aliases the same underlying storage; `copy_buffer`
/// makes a new, independent storage holding the same samples.
pub struct VideoBuffer {
    data: Rc<Vec<u16>>,
}

impl View for VideoBuffer {
    type V = Seq<u16>;

    closed spec fn view(&self) -> Seq<u16> {
        self.data@
    }
}

impl Clone for VideoBuffer {
    /// A new handle to the same storage.
    fn clone(&self) -> (r: Self)
        ensures
            r@ == self@,
    {
        VideoBuffer { data: self.data.clone() }
    }
}

impl VideoBuffer {
    /// Wraps freshly decoded samples into a buffer handle.
    pub fn new(data: Vec<u16>) -> (r: Self)
        ensures
            r@ == data@,
    {
        VideoBuffer { data: Rc::new(data) }
    }

    /// A new buffer backed by independent storage with the same contents.
    pub fn copy_buffer(&self) -> (r: Self)
        ensures
            r@ == self@,
    {
        let copied: Vec<u16> = vstd::slice::slice_to_vec(self.data.as_slice());
        VideoBuffer { data: Rc::new(copied) }
    }

    /// The number of samples the buffer holds.
    pub fn len(&self) -> (r: usize)
        ensures
            r == self@.len(),
    {
        self.data.len()
    }

    /// The sample at position `idx`.
    pub fn get(&self, idx: usize) -> (r: u16)
        requires
            idx < self@.len(),
        ensures
            r == self@[idx as int],
    {
        self.data[idx]
    }

    /// Whether two buffers hold the same samples, whether or not they share
    /// storage.
    pub fn same_contents(&self, other: &VideoBuffer) -> (r: bool)
        ensures
            r == (self@ == other@),
    {
        let n = self.data.len();
        if n != other.data.len() {
            return false;
        }
        let mut i: usize = 0;
        while i < n
            invariant
                n == self@.len(),
                n == other@.len(),
                i <= n,
                forall|j: int| 0 <= j < i ==> self@[j] == other@[j],
            decreases n - i,
        {
            if self.data[i] != other.data[i] {
                return false;
            }
            i += 1;
        }
        proof {
            assert(self@ =~= other@);
        }
        true
    }
}

/// A pool of reusable frame buffers, bounded by a configured length.
///
/// Only the bookkeeping lives here; the allocation strategy belongs to the
/// surrounding decoding framework.
pub struct NAVideoBufferPool {
    pool: Vec<VideoBuffer>,
    max_len: usize,
}

impl NAVideoBufferPool {
    /// The contents of the pooled buffers, in storage order.
    pub closed spec fn buffers(&self) -> Seq<Seq<u16>> {
        self.pool@.map_values(|b: VideoBuffer| b@)
    }

    /// The configured bound on the number of pooled buffers.
    pub closed spec fn spec_max_len(&self) -> usize {
        self.max_len
    }

    /// Creates an empty pool that may grow up to `max_len` buffers.
    pub fn new(max_len: usize) -> (r: Self)
        ensures
            r.buffers() == Seq::<Seq<u16>>::empty(),
            r.spec_max_len() == max_len,
    {
        let r = NAVideoBufferPool { pool: Vec::new(), max_len };
        proof {
            assert(r.buffers() =~= Seq::<Seq<u16>>::empty());
        }
        r
    }

    /// Stores another buffer handle if the pool is not full yet; reports
    /// whether the handle was taken.
    pub fn add_frame(&mut self, buf: VideoBuffer) -> (taken: bool)
        ensures
            taken == (old(self).buffers().len() < old(self).spec_max_len()),
            taken ==> final(self).buffers() == old(self).buffers().push(buf@),
            !taken ==> final(self).buffers() == old(self).buffers(),
            final(self).spec_max_len() == old(self).spec_max_len(),
    {
        if self.pool.len() < self.max_len {
            self.pool.push(buf);
            proof {
                assert(self.buffers() =~= old(self).buffers().push(buf@));
            }
            true
        } else {
            false
        }
    }

    /// Drops every pooled buffer handle.
    pub fn reset(&mut self)
        ensures
            final(self).buffers() == Seq::<Seq<u16>>::empty(),
            final(self).spec_max_len() == old(self).spec_max_len(),
    {
        self.pool.clear();
        proof {
            assert(self.buffers() =~= Seq::<Seq<u16>>::empty());
        }
    }
}

} // verus!
