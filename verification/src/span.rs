//! Memory spans: immutable descriptions of contiguous byte ranges
//! `[base, base + size)`, together with the "fit-over" union used when
//! the claimed region grows.

use vstd::prelude::*;

verus! {

/// Mathematical view of a span: a contiguous byte range
/// `[base, base + size)` described by plain numbers.
pub struct SpanModel {
    pub base: nat,
    pub size: nat,
}

impl SpanModel {
    /// One past the last address the span covers.
    pub open spec fn end(self) -> nat {
        self.base + self.size
    }

    /// The span stays within the address space.
    pub open spec fn wf(self) -> bool {
        self.end() <= usize::MAX
    }

    /// `self` covers every address of `other`. An empty span has no
    /// addresses, so it is covered by anything.
    pub open spec fn covers(self, other: SpanModel) -> bool {
        ||| other.size == 0
        ||| (self.base <= other.base && other.end() <= self.end())
    }

    /// The minimal span covering both `self` and `other`: an empty
    /// `other` claims no addresses and leaves `self` as it is;
    /// otherwise the bases' minimum and the ends' maximum bound the
    /// union.
    ///
    /// The two spans are meant to be adjacent or overlapping; for
    /// disjoint spans the result silently covers the gap between them
    /// as well.
    pub open spec fn fit_over(self, other: SpanModel) -> SpanModel {
        if other.size == 0 {
            self
        } else {
            let base = if self.base <= other.base {
                self.base
            } else {
                other.base
            };
            let end = if other.end() <= self.end() {
                self.end()
            } else {
                other.end()
            };
            SpanModel { base, size: (end - base) as nat }
        }
    }
}

/// A contiguous byte range `[base, base + size)`. The allocator keeps
/// books over the range; it never owns the bytes themselves, whose
/// validity is the embedding system's responsibility.
#[derive(Clone, Copy, Debug, PartialEq, Eq, Structural)]
pub struct MemorySpan {
    base: usize,
    size: usize,
}

impl View for MemorySpan {
    type V = SpanModel;

    closed spec fn view(&self) -> SpanModel {
        SpanModel { base: self.base as nat, size: self.size as nat }
    }
}

impl MemorySpan {
    /// Every span stays within the address space.
    #[verifier::type_invariant]
    spec fn within_address_space(self) -> bool {
        self@.wf()
    }

    /// Builds the span `[base, base + size)`.
    pub fn from_base_size(base: usize, size: usize) -> (r: MemorySpan)
        requires
            base + size <= usize::MAX,
        ensures
            r@ == (SpanModel { base: base as nat, size: size as nat }),
            r@.wf(),
    {
        MemorySpan { base, size }
    }

    /// The span's first address.
    pub fn base(&self) -> (r: usize)
        ensures
            r == self@.base,
    {
        self.base
    }

    /// The span's length in bytes.
    pub fn size(&self) -> (r: usize)
        ensures
            r == self@.size,
    {
        self.size
    }

    /// Returns the minimal span covering both `self` and `other`.
    ///
    /// Assumes the spans are adjacent or overlapping; for disjoint
    /// spans the returned union covers the gap between them as if it
    /// were claimed memory.
    pub fn fit_over(self, other: MemorySpan) -> (r: MemorySpan)
        ensures
            r@ == self@.fit_over(other@),
            r@.wf(),
    {
        proof {
            use_type_invariant(self);
            use_type_invariant(other);
        }
        if other.size == 0 {
            self
        } else {
            let base = if self.base <= other.base {
                self.base
            } else {
                other.base
            };
            let self_end = self.base + self.size;
            let other_end = other.base + other.size;
            let end = if other_end <= self_end {
                self_end
            } else {
                other_end
            };
            MemorySpan { base, size: end - base }
        }
    }
}

/// Law: the fit-over union covers both of its inputs, and any span
/// covering both also covers the union, provided the tracked span
/// `a` is not empty — so the union is minimal.
pub proof fn lemma_fit_over_minimal_cover(a: SpanModel, b: SpanModel, c: SpanModel)
    ensures
        a.fit_over(b).covers(a),
        a.fit_over(b).covers(b),
        a.size > 0 && c.covers(a) && c.covers(b) ==> c.covers(a.fit_over(b)),
{
}

/// Law: growing a span by an adjacent span of `extra` bytes yields a
/// union with the same base and exactly `extra` more bytes.
pub proof fn lemma_fit_over_adjacent(s: SpanModel, extra: nat)
    ensures
        s.fit_over(SpanModel { base: s.end(), size: extra }).base == s.base,
        s.fit_over(SpanModel { base: s.end(), size: extra }).size == s.size + extra,
{
}

} // verus!
