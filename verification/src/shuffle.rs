//! Reference-frame shufflers. Inter-frame codecs predict a frame from
//! previously decoded ones; these three small state machines retain the
//! buffers of such frames and hand them out by role. `HAMShuffler` keeps one
//! frame and breaks aliasing before lending it out, `IPShuffler` keeps one
//! inter-frame reference, and `IPBShuffler` keeps the two references that
//! bidirectional prediction needs.
use crate::frame::VideoBuffer;
use vstd::prelude::*;

verus! {

/// The contents a shuffler slot holds: the held buffer's samples, or
/// nothing.
pub type SlotView = Option<Seq<u16>>;

/// The slot pair of an `IPBShuffler` after a frame with contents `buf` is
/// added to the state `(last, next)`: the former last frame becomes the next
/// reference and the new frame becomes the last one. What the next slot held
/// before is discarded.
pub open spec fn ipb_after_add(last: SlotView, next: SlotView, buf: Seq<u16>) -> (SlotView,
    SlotView) {
    (Some(buf), last)
}

/// A single-reference shuffler for hold-and-modify codecs: it keeps the most
/// recently added frame and, on `clone_ref`, lends out a fresh copy so that
/// later in-place modification cannot corrupt frames already handed on.
pub struct HAMShuffler {
    lastframe: Option<VideoBuffer>,
}

impl HAMShuffler {
    /// The contents of the held frame, or `None` when no frame is held.
    pub closed spec fn held(&self) -> SlotView {
        match self.lastframe {
            Some(ref b) => Some(b@),
            None => None,
        }
    }

    /// Creates a shuffler holding no frame.
    pub fn new() -> (r: Self)
        ensures
            r.held() is None,
    {
        HAMShuffler { lastframe: None }
    }

    /// Drops the held frame, if any.
    pub fn clear(&mut self)
        ensures
            final(self).held() is None,
    {
        self.lastframe = None;
    }

    /// Replaces the held frame with `buf`.
    pub fn add_frame(&mut self, buf: VideoBuffer)
        ensures
            final(self).held() == Some(buf@),
    {
        self.lastframe = Some(buf);
    }

    /// If a frame is held, deep-copies it, keeps the copy in place of the
    /// old handle, and returns a handle to that copy; otherwise returns
    /// `None`. The visible contents do not change.
    pub fn clone_ref(&mut self) -> (r: Option<VideoBuffer>)
        ensures
            final(self).held() == old(self).held(),
            match r {
                Some(b) => old(self).held() == Some(b@),
                None => old(self).held() is None,
            },
    {
        if let Some(ref mut frm) = self.lastframe {
            let newfrm = frm.copy_buffer();
            *frm = newfrm.clone();
            Some(newfrm)
        } else {
            None
        }
    }

    /// A handle aliasing the held frame, or `None` when no frame is held.
    pub fn get_output_frame(&self) -> (r: Option<VideoBuffer>)
        ensures
            match r {
                Some(b) => self.held() == Some(b@),
                None => self.held() is None,
            },
    {
        match self.lastframe {
            Some(ref frm) => Some(frm.clone()),
            None => None,
        }
    }
}

impl Default for HAMShuffler {
    /// A shuffler holding no frame.
    fn default() -> (r: Self)
        ensures
            r.held() is None,
    {
        HAMShuffler::new()
    }
}

/// A single-reference shuffler for codecs with intra and predicted frames:
/// it keeps the most recently added frame as the reference for the next one.
pub struct IPShuffler {
    lastframe: Option<VideoBuffer>,
}

impl IPShuffler {
    /// The contents of the held frame, or `None` when no frame is held.
    pub closed spec fn held(&self) -> SlotView {
        match self.lastframe {
            Some(ref b) => Some(b@),
            None => None,
        }
    }

    /// Creates a shuffler holding no frame.
    pub fn new() -> (r: Self)
        ensures
            r.held() is None,
    {
        IPShuffler { lastframe: None }
    }

    /// Drops the held frame, if any.
    pub fn clear(&mut self)
        ensures
            final(self).held() is None,
    {
        self.lastframe = None;
    }

    /// Replaces the held frame with `buf`.
    pub fn add_frame(&mut self, buf: VideoBuffer)
        ensures
            final(self).held() == Some(buf@),
    {
        self.lastframe = Some(buf);
    }

    /// A handle aliasing the held frame, or `None` when no frame is held.
    pub fn get_ref(&self) -> (r: Option<VideoBuffer>)
        ensures
            match r {
                Some(b) => self.held() == Some(b@),
                None => self.held() is None,
            },
    {
        match self.lastframe {
            Some(ref frm) => Some(frm.clone()),
            None => None,
        }
    }
}

impl Default for IPShuffler {
    /// A shuffler holding no frame.
    fn default() -> (r: Self)
        ensures
            r.held() is None,
    {
        IPShuffler::new()
    }
}

/// A dual-reference shuffler for bidirectional prediction: it keeps the two
/// most recently added frames, the newest as the backward reference and the
/// one before it as the forward reference.
pub struct IPBShuffler {
    lastframe: Option<VideoBuffer>,
    nextframe: Option<VideoBuffer>,
}

impl IPBShuffler {
    /// The contents of the most recently added frame, or `None`.
    pub closed spec fn last(&self) -> SlotView {
        match self.lastframe {
            Some(ref b) => Some(b@),
            None => None,
        }
    }

    /// The contents of the frame added before the most recent one, or
    /// `None`.
    pub closed spec fn next(&self) -> SlotView {
        match self.nextframe {
            Some(ref b) => Some(b@),
            None => None,
        }
    }

    /// Creates a shuffler holding no frames.
    pub fn new() -> (r: Self)
        ensures
            r.last() is None,
            r.next() is None,
    {
        IPBShuffler { lastframe: None, nextframe: None }
    }

    /// Drops both held frames, if any.
    pub fn clear(&mut self)
        ensures
            final(self).last() is None,
            final(self).next() is None,
    {
        self.lastframe = None;
        self.nextframe = None;
    }

    /// Rotates the two slots: the former last frame becomes the next
    /// reference, the frame the next slot held is discarded, and `buf`
    /// becomes the last frame.
    pub fn add_frame(&mut self, buf: VideoBuffer)
        ensures
            (final(self).last(), final(self).next()) == ipb_after_add(
                old(self).last(),
                old(self).next(),
                buf@,
            ),
    {
        core::mem::swap(&mut self.lastframe, &mut self.nextframe);
        self.lastframe = Some(buf);
    }

    /// A handle aliasing the most recently added frame, or `None`.
    pub fn get_lastref(&self) -> (r: Option<VideoBuffer>)
        ensures
            match r {
                Some(b) => self.last() == Some(b@),
                None => self.last() is None,
            },
    {
        match self.lastframe {
            Some(ref frm) => Some(frm.clone()),
            None => None,
        }
    }

    /// A handle aliasing the frame added before the most recent one, or
    /// `None`.
    pub fn get_nextref(&self) -> (r: Option<VideoBuffer>)
        ensures
            match r {
                Some(b) => self.next() == Some(b@),
                None => self.next() is None,
            },
    {
        match self.nextframe {
            Some(ref frm) => Some(frm.clone()),
            None => None,
        }
    }

    /// The forward reference of bidirectional prediction; the same frame as
    /// `get_nextref` returns.
    pub fn get_b_fwdref(&self) -> (r: Option<VideoBuffer>)
        ensures
            match r {
                Some(b) => self.next() == Some(b@),
                None => self.next() is None,
            },
    {
        self.get_nextref()
    }

    /// The backward reference of bidirectional prediction; the same frame as
    /// `get_lastref` returns.
    pub fn get_b_bwdref(&self) -> (r: Option<VideoBuffer>)
        ensures
            match r {
                Some(b) => self.last() == Some(b@),
                None => self.last() is None,
            },
    {
        self.get_lastref()
    }
}

impl Default for IPBShuffler {
    /// A shuffler holding no frames.
    fn default() -> (r: Self)
        ensures
            r.last() is None,
            r.next() is None,
    {
        IPBShuffler::new()
    }
}

/// In every `IPBShuffler` state the forward reference is the next
/// reference: any result the contract of `get_b_fwdref` admits holds the
/// same frame as any result the contract of `get_nextref` admits.
pub proof fn lemma_fwdref_equals_nextref(
    s: &IPBShuffler,
    fwd: Option<VideoBuffer>,
    next: Option<VideoBuffer>,
)
    requires
        call_ensures(IPBShuffler::get_b_fwdref, (s,), fwd),
        call_ensures(IPBShuffler::get_nextref, (s,), next),
    ensures
        match (fwd, next) {
            (Some(a), Some(b)) => a@ == b@,
            (None, None) => true,
            _ => false,
        },
{
}

/// In every `IPBShuffler` state the backward reference is the last
/// reference: any result the contract of `get_b_bwdref` admits holds the
/// same frame as any result the contract of `get_lastref` admits.
pub proof fn lemma_bwdref_equals_lastref(
    s: &IPBShuffler,
    bwd: Option<VideoBuffer>,
    last: Option<VideoBuffer>,
)
    requires
        call_ensures(IPBShuffler::get_b_bwdref, (s,), bwd),
        call_ensures(IPBShuffler::get_lastref, (s,), last),
    ensures
        match (bwd, last) {
            (Some(a), Some(b)) => a@ == b@,
            (None, None) => true,
            _ => false,
        },
{
}

/// An `IPBShuffler` that holds nothing — the state `clear` leaves behind —
/// can only yield `None` from each of its accessors, until a frame is
/// added.
pub proof fn lemma_ipb_cleared_accessors_empty(s: &IPBShuffler, r: Option<VideoBuffer>)
    requires
        s.last() is None,
        s.next() is None,
        call_ensures(IPBShuffler::get_lastref, (s,), r) || call_ensures(
            IPBShuffler::get_nextref,
            (s,),
            r,
        ) || call_ensures(IPBShuffler::get_b_fwdref, (s,), r) || call_ensures(
            IPBShuffler::get_b_bwdref,
            (s,),
            r,
        ),
    ensures
        r is None,
{
}

/// An `IPShuffler` that holds nothing — the state `clear` leaves behind —
/// can only yield `None` from its accessor, until a frame is added.
pub proof fn lemma_ip_cleared_accessor_empty(s: &IPShuffler, r: Option<VideoBuffer>)
    requires
        s.held() is None,
        call_ensures(IPShuffler::get_ref, (s,), r),
    ensures
        r is None,
{
}

/// A `HAMShuffler` that holds nothing — the state `clear` leaves behind —
/// can only yield `None` from its accessor, until a frame is added.
pub proof fn lemma_ham_cleared_accessor_empty(s: &HAMShuffler, r: Option<VideoBuffer>)
    requires
        s.held() is None,
        call_ensures(HAMShuffler::get_output_frame, (s,), r),
    ensures
        r is None,
{
}

/// After any three successive frame additions to any `IPBShuffler` state,
/// the last reference holds the third frame and the next reference holds the
/// second; the first frame is in neither slot, so it has been discarded.
pub proof fn lemma_ipb_three_adds(
    last0: SlotView,
    next0: SlotView,
    b1: Seq<u16>,
    b2: Seq<u16>,
    b3: Seq<u16>,
)
    ensures
        ({
            let s1 = ipb_after_add(last0, next0, b1);
            let s2 = ipb_after_add(s1.0, s1.1, b2);
            let s3 = ipb_after_add(s2.0, s2.1, b3);
            s3.0 == Some(b3) && s3.1 == Some(b2)
        }),
{
}

} // verus!
