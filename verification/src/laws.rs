//! Laws of the book-keeping: how the usage counter moves over whole
//! runs of booked operations, and how the totals move when the
//! claimed region grows.
//!
//! The lock in the embedding system serializes concurrent callers, so
//! any interleaving of their operations reaches the books as one
//! sequence; the run-level laws here therefore cover every
//! interleaving of parallel callers as well.

use vstd::prelude::*;

use crate::span::SpanModel;
use crate::span::lemma_fit_over_adjacent;
use crate::state::AllocatorModel;

verus! {

/// One booked operation of the steady-state hot path.
pub enum AllocOp {
    /// A successful engine allocation of `size` bytes was booked.
    Alloc { size: nat },
    /// A completed free of `size` bytes was booked.
    Dealloc { size: nat },
}

/// The state after booking one operation.
pub open spec fn apply_op(m: AllocatorModel, op: AllocOp) -> AllocatorModel {
    match op {
        AllocOp::Alloc { size } => m.after_alloc(size),
        AllocOp::Dealloc { size } => m.after_dealloc(size),
    }
}

/// The state after booking a run of operations, earliest first.
pub open spec fn apply_ops(m: AllocatorModel, ops: Seq<AllocOp>) -> AllocatorModel
    decreases ops.len(),
{
    if ops.len() == 0 {
        m
    } else {
        apply_ops(apply_op(m, ops[0]), ops.drop_first())
    }
}

/// The bytes the run's allocations book in total.
pub open spec fn alloc_total(ops: Seq<AllocOp>) -> nat
    decreases ops.len(),
{
    if ops.len() == 0 {
        0
    } else {
        (match ops[0] {
            AllocOp::Alloc { size } => size,
            AllocOp::Dealloc { .. } => 0,
        }) + alloc_total(ops.drop_first())
    }
}

/// The bytes the run's frees give back in total.
pub open spec fn dealloc_total(ops: Seq<AllocOp>) -> nat
    decreases ops.len(),
{
    if ops.len() == 0 {
        0
    } else {
        (match ops[0] {
            AllocOp::Alloc { .. } => 0,
            AllocOp::Dealloc { size } => size,
        }) + dealloc_total(ops.drop_first())
    }
}

/// The run never strains the counter: no allocation overflows it,
/// and every free returns bytes still booked, so the saturating
/// subtraction never clamps.
pub open spec fn run_in_bounds(m: AllocatorModel, ops: Seq<AllocOp>) -> bool
    decreases ops.len(),
{
    ops.len() == 0 || {
        let first_ok = match ops[0] {
            AllocOp::Alloc { size } => m.used_bytes + size <= usize::MAX,
            AllocOp::Dealloc { size } => size <= m.used_bytes,
        };
        first_ok && run_in_bounds(apply_op(m, ops[0]), ops.drop_first())
    }
}

/// Every allocation the run books fits in the bytes then still
/// available, as an honest engine guarantees.
pub open spec fn within_capacity(m: AllocatorModel, ops: Seq<AllocOp>) -> bool
    decreases ops.len(),
{
    ops.len() == 0 || {
        let first_ok = match ops[0] {
            AllocOp::Alloc { size } => m.used_bytes + size <= m.total_bytes(),
            AllocOp::Dealloc { .. } => true,
        };
        first_ok && within_capacity(apply_op(m, ops[0]), ops.drop_first())
    }
}

/// Law: booking a successful allocation and at once its matching
/// free restores the whole state, counter and claimed span alike.
pub proof fn lemma_alloc_dealloc_restores(m: AllocatorModel, size: nat)
    requires
        m.used_bytes + size <= usize::MAX,
    ensures
        m.after_alloc(size).after_dealloc(size) == m,
{
}

/// Law: over any in-bounds run the usage counter moves by exactly
/// the allocated total minus the freed total, and the claimed span
/// stays put.
pub proof fn lemma_used_tracks_totals(m: AllocatorModel, ops: Seq<AllocOp>)
    requires
        run_in_bounds(m, ops),
    ensures
        dealloc_total(ops) <= m.used_bytes + alloc_total(ops),
        apply_ops(m, ops).used_bytes == m.used_bytes + alloc_total(ops) - dealloc_total(ops),
        apply_ops(m, ops).claimed_span == m.claimed_span,
    decreases ops.len(),
{
    if ops.len() > 0 {
        lemma_used_tracks_totals(apply_op(m, ops[0]), ops.drop_first());
    }
}

/// Law: a balanced in-bounds run — every booked byte freed again, as
/// when serialized parallel callers each pair an allocation with its
/// free — returns the books to exactly their starting state.
pub proof fn lemma_balanced_run_restores(m: AllocatorModel, ops: Seq<AllocOp>)
    requires
        run_in_bounds(m, ops),
        alloc_total(ops) == dealloc_total(ops),
    ensures
        apply_ops(m, ops) == m,
{
    lemma_used_tracks_totals(m, ops);
}

/// Law: while every granted allocation fits in the bytes still
/// available, the counter never passes the total, so the available
/// bytes neither exceed the total nor wrap below zero.
pub proof fn lemma_counter_stays_bounded(m: AllocatorModel, ops: Seq<AllocOp>)
    requires
        m.used_bytes <= m.total_bytes(),
        within_capacity(m, ops),
    ensures
        apply_ops(m, ops).claimed_span == m.claimed_span,
        apply_ops(m, ops).used_bytes <= apply_ops(m, ops).total_bytes(),
        apply_ops(m, ops).available_bytes() <= apply_ops(m, ops).total_bytes(),
    decreases ops.len(),
{
    if ops.len() > 0 {
        lemma_counter_stays_bounded(apply_op(m, ops[0]), ops.drop_first());
    }
}

/// Law: a fresh allocator that records its first claimed span
/// reports that span's size as the total, with nothing used.
pub proof fn lemma_first_claim_accounting(s: SpanModel)
    ensures
        AllocatorModel::fresh().with_span(s).total_bytes() == s.size,
        AllocatorModel::fresh().with_span(s).used_bytes == 0,
{
}

/// Law: recording the covering union of the claimed span and an
/// adjacent span of `extra` bytes grows the total by exactly `extra`
/// and leaves the usage counter alone.
pub proof fn lemma_adjacent_growth_accounting(m: AllocatorModel, s: SpanModel, extra: nat)
    requires
        m.claimed_span == Some(s),
    ensures
        m.with_span(s.fit_over(SpanModel { base: s.end(), size: extra })).total_bytes()
            == m.total_bytes() + extra,
        m.with_span(s.fit_over(SpanModel { base: s.end(), size: extra })).used_bytes
            == m.used_bytes,
{
    lemma_fit_over_adjacent(s, extra);
}

} // verus!
