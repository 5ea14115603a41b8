//! The allocator's book-keeping state: the claimed region, the usage
//! counters, and the decision logic around the external allocation
//! engine's claim/extend/allocate/free capabilities.
//!
//! The engine call itself is the embedding system's to make; each
//! operation here either computes the span the engine should be asked
//! for, or books the outcome the engine reported.

use vstd::prelude::*;

use crate::error::AllocError;
use crate::span::MemorySpan;
use crate::span::SpanModel;

verus! {

/// Mathematical view of the allocator's book-keeping state.
pub struct AllocatorModel {
    /// The claimed region, `None` before the first claim.
    pub claimed_span: Option<SpanModel>,
    /// Bytes booked as handed out and not yet returned.
    pub used_bytes: nat,
}

impl AllocatorModel {
    /// The state of a freshly constructed allocator.
    pub open spec fn fresh() -> AllocatorModel {
        AllocatorModel { claimed_span: None, used_bytes: 0 }
    }

    /// The size of the claimed span, or zero before any claim.
    pub open spec fn total_bytes(self) -> nat {
        match self.claimed_span {
            Some(s) => s.size,
            None => 0,
        }
    }

    /// What is left of the claimed region. Meaningful only while
    /// `used_bytes <= total_bytes()`, which correct engine use keeps.
    pub open spec fn available_bytes(self) -> nat {
        (self.total_bytes() - self.used_bytes) as nat
    }

    /// Recording `s` as the claimed span.
    pub open spec fn with_span(self, s: SpanModel) -> AllocatorModel {
        AllocatorModel { claimed_span: Some(s), used_bytes: self.used_bytes }
    }

    /// Booking a successful engine allocation of `size` bytes: the
    /// counter grows by `size`, unless the addition would overflow,
    /// in which case it is left untouched and the operation reports
    /// `MemoryOverlap`.
    pub open spec fn after_alloc(self, size: nat) -> AllocatorModel {
        if self.used_bytes + size <= usize::MAX {
            AllocatorModel { claimed_span: self.claimed_span, used_bytes: self.used_bytes + size }
        } else {
            self
        }
    }

    /// Booking a completed free of `size` bytes: saturating
    /// subtraction, so a mismatched free never wraps the counter
    /// below zero.
    pub open spec fn after_dealloc(self, size: nat) -> AllocatorModel {
        if size <= self.used_bytes {
            AllocatorModel {
                claimed_span: self.claimed_span,
                used_bytes: (self.used_bytes - size) as nat,
            }
        } else {
            AllocatorModel { claimed_span: self.claimed_span, used_bytes: 0 }
        }
    }
}

/// What the engine should be asked to do to grow the managed region.
pub enum GrowRequest {
    /// Nothing is claimed yet: claim the span.
    Claim(MemorySpan),
    /// A span is already claimed: extend it from `current` to the
    /// covering union `requested`.
    Extend { current: MemorySpan, requested: MemorySpan },
}

/// The allocator's book-keeping core: tracks the claimed region and
/// the usage counter while the external engine owns the free-space
/// structures themselves.
pub struct YourNewAllocator {
    claimed_span: Option<MemorySpan>,
    used_bytes: usize,
}

impl View for YourNewAllocator {
    type V = AllocatorModel;

    closed spec fn view(&self) -> AllocatorModel {
        AllocatorModel {
            claimed_span: match self.claimed_span {
                Some(s) => Some(s@),
                None => None,
            },
            used_bytes: self.used_bytes as nat,
        }
    }
}

impl YourNewAllocator {
    /// A fresh allocator: nothing claimed, nothing used.
    pub fn new() -> (r: YourNewAllocator)
        ensures
            r@ == AllocatorModel::fresh(),
    {
        YourNewAllocator { claimed_span: None, used_bytes: 0 }
    }

    /// Records the span the engine returned for the initial claim.
    /// The initial claim happens at most once: nothing may be
    /// claimed yet.
    pub fn record_claim(&mut self, span: MemorySpan)
        requires
            old(self)@.claimed_span is None,
        ensures
            final(self)@ == old(self)@.with_span(span@),
    {
        self.claimed_span = Some(span);
    }

    /// Decides how to grow the managed region over
    /// `[start, start + size)`: the first growth claims the new span
    /// outright; later growths ask the engine to extend the current
    /// span to the covering union of the two.
    pub fn grow_request(&self, start: usize, size: usize) -> (r: GrowRequest)
        requires
            start + size <= usize::MAX,
        ensures
            ({
                let wanted = SpanModel { base: start as nat, size: size as nat };
                match r {
                    GrowRequest::Claim(s) => self@.claimed_span is None && s@ == wanted,
                    GrowRequest::Extend { current, requested } => {
                        &&& self@.claimed_span == Some(current@)
                        &&& requested@ == current@.fit_over(wanted)
                        &&& requested@.wf()
                    },
                }
            }),
    {
        let span_to_claim = MemorySpan::from_base_size(start, size);
        match &self.claimed_span {
            Some(old_heap) => {
                let req_heap = old_heap.fit_over(span_to_claim);
                GrowRequest::Extend { current: *old_heap, requested: req_heap }
            },
            None => GrowRequest::Claim(span_to_claim),
        }
    }

    /// Records the span the engine returned after carrying out a
    /// grow request, whether a first claim or an extension.
    pub fn record_grown(&mut self, span: MemorySpan)
        ensures
            final(self)@ == old(self)@.with_span(span@),
    {
        self.claimed_span = Some(span);
    }

    /// Books the outcome of the engine's allocation attempt, handed
    /// in as `ptr`: engine failure becomes `NoMemory` with nothing
    /// changed; success adds `size` to the usage counter with
    /// overflow-checked addition, reporting `MemoryOverlap` — and
    /// leaving the counter untouched — if the addition would wrap,
    /// the memory having already been handed out by the engine.
    pub fn finish_alloc(&mut self, ptr: Option<usize>, size: usize) -> (r: Result<
        usize,
        AllocError,
    >)
        ensures
            final(self)@.claimed_span == old(self)@.claimed_span,
            ptr is None ==> final(self)@ == old(self)@ && r == Err::<usize, AllocError>(
                AllocError::NoMemory,
            ),
            ptr matches Some(p) ==> {
                &&& final(self)@ == old(self)@.after_alloc(size as nat)
                &&& (if old(self)@.used_bytes + size <= usize::MAX {
                    r == Ok::<usize, AllocError>(p)
                } else {
                    r == Err::<usize, AllocError>(AllocError::MemoryOverlap)
                })
            },
    {
        match ptr {
            None => Err(AllocError::NoMemory),
            Some(p) => {
                match self.used_bytes.checked_add(size) {
                    Some(grown) => {
                        self.used_bytes = grown;
                        Ok(p)
                    },
                    None => Err(AllocError::MemoryOverlap),
                }
            },
        }
    }

    /// Books a completed free: subtracts `size` from the usage
    /// counter, saturating at zero so a mismatched or duplicate free
    /// can never wrap it below zero.
    pub fn finish_dealloc(&mut self, size: usize)
        ensures
            final(self)@ == old(self)@.after_dealloc(size as nat),
    {
        self.used_bytes = self.used_bytes.saturating_sub(size);
    }

    /// Whether a region has been claimed yet.
    pub fn is_claimed(&self) -> (r: bool)
        ensures
            r == (self@.claimed_span is Some),
    {
        match &self.claimed_span {
            Some(_) => true,
            None => false,
        }
    }

    /// The size in bytes of the claimed region, zero before any
    /// claim.
    pub fn total_bytes(&self) -> (r: usize)
        ensures
            r == self@.total_bytes(),
    {
        match &self.claimed_span {
            Some(s) => s.size(),
            None => 0,
        }
    }

    /// The bytes currently booked as handed out.
    pub fn used_bytes(&self) -> (r: usize)
        ensures
            r == self@.used_bytes,
    {
        self.used_bytes
    }

    /// The bytes left of the claimed region:
    /// `total_bytes() - used_bytes()`. The subtraction is not
    /// clamped; a counter above the total would mean the books were
    /// corrupted by mismatched frees, so that state is excluded here.
    pub fn available_bytes(&self) -> (r: usize)
        requires
            self@.used_bytes <= self@.total_bytes(),
        ensures
            r == self@.available_bytes(),
    {
        let total = self.total_bytes();
        total - self.used_bytes
    }
}

} // verus!
