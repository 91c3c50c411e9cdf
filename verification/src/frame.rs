//! Physical frames and the allocator interface every construction step
//! draws from.

use vstd::prelude::*;

verus! {

/// Size in bytes of one physical frame.
pub const PAGE_SIZE: u64 = 4096;

/// One 4 KiB physical frame, identified by its start address.
///
/// Whoever holds a `HostFrame` value owns the frame exclusively; the
/// allocator contract below guarantees that no address is handed out twice.
#[derive(Clone, Copy, Debug)]
pub struct HostFrame {
    start: u64,
}

impl HostFrame {
    /// The frame's start address.
    pub closed spec fn addr(self) -> u64 {
        self.start
    }

    /// A frame is well formed when its start address is page aligned.
    pub open spec fn wf(self) -> bool {
        self.addr() % PAGE_SIZE == 0
    }

    /// Makes a frame from a page-aligned start address; rejects unaligned
    /// addresses.
    pub fn from_start_address(addr: u64) -> (r: Option<HostFrame>)
        ensures
            addr % PAGE_SIZE == 0 ==> (r matches Some(f) && f.addr() == addr && f.wf()),
            addr % PAGE_SIZE != 0 ==> r is None,
    {
        if addr % PAGE_SIZE == 0 {
            Some(HostFrame { start: addr })
        } else {
            None
        }
    }

    /// The frame's start address.
    pub fn start_address(&self) -> (r: u64)
        ensures
            r == self.addr(),
    {
        self.start
    }
}

/// The frame allocator every construction step draws from.  Exhaustion is
/// the only failure it can signal.
///
/// `allocated()` is the set of start addresses the allocator has ever
/// handed out.  Each successful allocation returns a page-aligned frame
/// that was never handed out before, which is what makes the frames of
/// independently constructed machines disjoint.
pub trait FrameAllocator {
    /// The start addresses of every frame handed out so far.
    spec fn allocated(&self) -> Set<u64>;

    /// How many more frames the allocator can still hand out.
    spec fn capacity(&self) -> nat;

    /// The allocator's own invariant.
    spec fn wf(&self) -> bool;

    /// Hands out one fresh frame; fails exactly when the capacity is
    /// exhausted, and each success consumes exactly one frame of it.
    fn allocate_frame(&mut self) -> (r: Option<HostFrame>)
        requires
            old(self).wf(),
        ensures
            final(self).wf(),
            match r {
                Some(f) => f.wf() && old(self).capacity() == final(self).capacity() + 1
                    && !old(self).allocated().contains(f.addr())
                    && final(self).allocated() == old(self).allocated().insert(f.addr()),
                None => old(self).capacity() == 0 && final(self).capacity() == 0
                    && final(self).allocated() == old(self).allocated(),
            },
    ;
}

/// A bump allocator over one contiguous page-aligned range.  It hands the
/// range out frame by frame and reports exhaustion when the range is used
/// up, which also makes it the natural way to exercise allocation-failure
/// paths: a range of N frames fails on allocation N + 1.
pub struct BumpFrameAllocator {
    start: u64,
    next: u64,
    end: u64,
}

impl BumpFrameAllocator {
    /// Makes an allocator over the frames from `start` (inclusive) to
    /// `end` (exclusive); both bounds must be page aligned.
    pub fn new(start: u64, end: u64) -> (r: Option<BumpFrameAllocator>)
        ensures
            start % PAGE_SIZE == 0 && end % PAGE_SIZE == 0 && start <= end ==> (r matches Some(a)
                && a.wf() && a.allocated() == Set::<u64>::empty() && a.capacity() == (end - start)
                / (PAGE_SIZE as int)),
            !(start % PAGE_SIZE == 0 && end % PAGE_SIZE == 0 && start <= end) ==> r is None,
    {
        if start % PAGE_SIZE == 0 && end % PAGE_SIZE == 0 && start <= end {
            let a = BumpFrameAllocator { start, next: start, end };
            proof {
                assert(a.allocated() =~= Set::<u64>::empty());
            }
            Some(a)
        } else {
            None
        }
    }
}

/// Stepping one page forward through an aligned range lowers the count
/// of whole pages left by exactly one.
proof fn lemma_page_count_step(a: u64, e: u64)
    requires
        a % PAGE_SIZE == 0,
        e % PAGE_SIZE == 0,
        a + PAGE_SIZE <= e,
    ensures
        (e - a) / (PAGE_SIZE as int) == (e - (a + PAGE_SIZE)) / (PAGE_SIZE as int) + 1,
        (e - a) / (PAGE_SIZE as int) > 0,
{
    let d = PAGE_SIZE as int;
    vstd::arithmetic::div_mod::lemma_fundamental_div_mod(a as int, d);
    vstd::arithmetic::div_mod::lemma_fundamental_div_mod(e as int, d);
    let qa = a as int / d;
    let qe = e as int / d;
    assert(e - a == d * (qe - qa)) by {
        assert(a == d * qa);
        assert(e == d * qe);
    }
    vstd::arithmetic::div_mod::lemma_div_multiples_vanish(qe - qa, d);
    assert(e - (a + PAGE_SIZE) == d * (qe - qa - 1));
    vstd::arithmetic::div_mod::lemma_div_multiples_vanish(qe - qa - 1, d);
}

/// Two page-aligned addresses at least one page apart differ by a whole
/// page.
proof fn lemma_aligned_step(a: u64, b: u64)
    requires
        a % PAGE_SIZE == 0,
        b % PAGE_SIZE == 0,
        a < b,
    ensures
        a + PAGE_SIZE <= b,
{
    vstd::arithmetic::div_mod::lemma_fundamental_div_mod(a as int, PAGE_SIZE as int);
    vstd::arithmetic::div_mod::lemma_fundamental_div_mod(b as int, PAGE_SIZE as int);
}

impl FrameAllocator for BumpFrameAllocator {
    closed spec fn allocated(&self) -> Set<u64> {
        Set::new(|a: u64| self.start <= a < self.next && a % PAGE_SIZE == 0)
    }

    closed spec fn capacity(&self) -> nat {
        ((self.end - self.next) / (PAGE_SIZE as int)) as nat
    }

    closed spec fn wf(&self) -> bool {
        &&& self.start % PAGE_SIZE == 0
        &&& self.next % PAGE_SIZE == 0
        &&& self.end % PAGE_SIZE == 0
        &&& self.start <= self.next <= self.end
    }

    fn allocate_frame(&mut self) -> (r: Option<HostFrame>)
        ensures
            final(self).wf(),
            match r {
                Some(f) => f.wf() && old(self).capacity() == final(self).capacity() + 1
                    && !old(self).allocated().contains(f.addr())
                    && final(self).allocated() == old(self).allocated().insert(f.addr()),
                None => old(self).capacity() == 0 && final(self).capacity() == 0
                    && final(self).allocated() == old(self).allocated(),
            },
    {
        if self.next < self.end {
            let f = HostFrame { start: self.next };
            proof {
                lemma_aligned_step(self.next, self.end);
                lemma_page_count_step(self.next, self.end);
            }
            self.next = self.next + PAGE_SIZE;
            proof {
                assert forall|a: u64| self.allocated().contains(a) implies old(
                    self,
                ).allocated().insert(f.addr()).contains(a) by {
                    if a != f.addr() && !(a < old(self).next) {
                        lemma_aligned_step(old(self).next, a);
                    }
                }
                assert(self.allocated() =~= old(self).allocated().insert(f.addr()));
            }
            Some(f)
        } else {
            proof {
                vstd::arithmetic::div_mod::lemma_div_multiples_vanish(0, PAGE_SIZE as int);
            }
            None
        }
    }
}

} // verus!
