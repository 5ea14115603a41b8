use allocator::AllocError;
use allocator::GrowRequest;
use allocator::MemorySpan;
use allocator::YourNewAllocator;

/// A claimed region with nothing allocated reports the claimed size
/// as total and nothing used.
#[test]
fn init_reports_claimed_size() {
    let mut a = YourNewAllocator::new();
    assert_eq!(a.total_bytes(), 0);
    assert_eq!(a.used_bytes(), 0);
    assert_eq!(a.available_bytes(), 0);

    a.record_claim(MemorySpan::from_base_size(0x1000, 4096));
    assert_eq!(a.total_bytes(), 4096);
    assert_eq!(a.used_bytes(), 0);
    assert_eq!(a.available_bytes(), 4096);
}

/// A successful allocation books its size; the matching free books
/// it back out.
#[test]
fn alloc_then_dealloc_restores_counter() {
    let mut a = YourNewAllocator::new();
    a.record_claim(MemorySpan::from_base_size(0x1000, 4096));

    let r = a.finish_alloc(Some(0x1040), 64);
    assert_eq!(r, Ok(0x1040));
    assert_eq!(a.used_bytes(), 64);
    assert_eq!(a.available_bytes(), 4096 - 64);

    a.finish_dealloc(64);
    assert_eq!(a.used_bytes(), 0);
    assert_eq!(a.available_bytes(), 4096);
}

/// An engine failure surfaces as `NoMemory` and leaves the books
/// untouched.
#[test]
fn failed_alloc_reports_no_memory() {
    let mut a = YourNewAllocator::new();
    a.record_claim(MemorySpan::from_base_size(0x1000, 128));

    let r = a.finish_alloc(None, 256);
    assert_eq!(r, Err(AllocError::NoMemory));
    assert_eq!(a.used_bytes(), 0);
    assert_eq!(a.total_bytes(), 128);
    assert_eq!(a.available_bytes(), 128);
}

/// A counter that would wrap past the address space reports
/// `MemoryOverlap` and stays where it was.
#[test]
fn counter_overflow_reports_memory_overlap() {
    let mut a = YourNewAllocator::new();
    a.record_claim(MemorySpan::from_base_size(0x1000, 4096));

    assert_eq!(a.finish_alloc(Some(0x1000), 64), Ok(0x1000));
    let r = a.finish_alloc(Some(0x2000), usize::MAX);
    assert_eq!(r, Err(AllocError::MemoryOverlap));
    assert_eq!(a.used_bytes(), 64);
}

/// The counter tracks the running sum of booked allocations minus
/// completed frees.
#[test]
fn counter_tracks_sums() {
    let mut a = YourNewAllocator::new();
    a.record_claim(MemorySpan::from_base_size(0x1000, 4096));

    assert_eq!(a.finish_alloc(Some(0x1000), 100), Ok(0x1000));
    assert_eq!(a.finish_alloc(Some(0x1100), 200), Ok(0x1100));
    assert_eq!(a.finish_alloc(Some(0x1400), 300), Ok(0x1400));
    assert_eq!(a.used_bytes(), 600);

    a.finish_dealloc(200);
    assert_eq!(a.used_bytes(), 400);
    assert_eq!(a.available_bytes(), 4096 - 400);
}

/// A mismatched free larger than the booked bytes saturates the
/// counter at zero instead of wrapping it.
#[test]
fn oversized_free_saturates_at_zero() {
    let mut a = YourNewAllocator::new();
    a.record_claim(MemorySpan::from_base_size(0x1000, 4096));

    assert_eq!(a.finish_alloc(Some(0x1000), 32), Ok(0x1000));
    a.finish_dealloc(64);
    assert_eq!(a.used_bytes(), 0);
}

/// The first growth of an unclaimed allocator is a plain claim of
/// the requested span.
#[test]
fn first_growth_claims_outright() {
    let a = YourNewAllocator::new();
    match a.grow_request(0x1000, 4096) {
        GrowRequest::Claim(s) => {
            assert_eq!(s.base(), 0x1000);
            assert_eq!(s.size(), 4096);
        }
        GrowRequest::Extend { .. } => panic!("nothing is claimed yet"),
    }
}

/// Growing over an adjacent span asks the engine to extend to the
/// union, and recording it grows the total by exactly the extra
/// bytes.
#[test]
fn adjacent_growth_extends_total() {
    let mut a = YourNewAllocator::new();
    a.record_claim(MemorySpan::from_base_size(0x1000, 4096));

    match a.grow_request(0x2000, 4096) {
        GrowRequest::Extend { current, requested } => {
            assert_eq!(current.base(), 0x1000);
            assert_eq!(current.size(), 4096);
            assert_eq!(requested.base(), 0x1000);
            assert_eq!(requested.size(), 8192);
            a.record_grown(requested);
        }
        GrowRequest::Claim(_) => panic!("a span is already claimed"),
    }
    assert_eq!(a.total_bytes(), 8192);
    assert_eq!(a.used_bytes(), 0);
    assert_eq!(a.available_bytes(), 8192);
}

/// The fit-over union of overlapping spans runs from the lowest base
/// to the highest end.
#[test]
fn fit_over_unions_overlapping_spans() {
    let a = MemorySpan::from_base_size(0x1000, 0x300);
    let b = MemorySpan::from_base_size(0x1200, 0x300);
    let u = a.fit_over(b);
    assert_eq!(u.base(), 0x1000);
    assert_eq!(u.size(), 0x500);
}

/// The fit-over union of disjoint spans silently covers the gap
/// between them as well.
#[test]
fn fit_over_covers_gap_between_disjoint_spans() {
    let a = MemorySpan::from_base_size(0x1000, 0x100);
    let b = MemorySpan::from_base_size(0x3000, 0x100);
    let u = a.fit_over(b);
    assert_eq!(u.base(), 0x1000);
    assert_eq!(u.size(), 0x2100);
}

/// Fitting over an empty span changes nothing: it claims no
/// addresses.
#[test]
fn fit_over_ignores_empty_span() {
    let a = MemorySpan::from_base_size(0x1000, 0x100);
    let b = MemorySpan::from_base_size(0x9000, 0);
    let u = a.fit_over(b);
    assert_eq!(u.base(), 0x1000);
    assert_eq!(u.size(), 0x100);
}

/// Repeated alloc/dealloc cycles of varying sizes keep the available
/// bytes between zero and the total.
#[test]
fn cycles_keep_available_within_bounds() {
    let mut a = YourNewAllocator::new();
    a.record_claim(MemorySpan::from_base_size(0x1000, 4096));

    let sizes = [1usize, 17, 256, 4096, 33, 1024, 0, 512];
    for (i, &s) in sizes.iter().enumerate() {
        assert_eq!(a.finish_alloc(Some(0x1000 + i), s), Ok(0x1000 + i));
        let available = a.available_bytes();
        assert!(available <= a.total_bytes());
        assert_eq!(available, a.total_bytes() - s);
        a.finish_dealloc(s);
        assert_eq!(a.available_bytes(), a.total_bytes());
    }
    assert_eq!(a.used_bytes(), 0);
}

/// Any serialized interleaving of paired alloc/dealloc callers
/// leaves the counter back at zero.
#[test]
fn interleaved_paired_callers_leave_no_usage() {
    let mut a = YourNewAllocator::new();
    a.record_claim(MemorySpan::from_base_size(0x1000, 65536));

    // Two callers' operations, interleaved as a lock could admit
    // them: A allocates, B allocates, A frees, B frees.
    assert_eq!(a.finish_alloc(Some(0x1000), 40), Ok(0x1000));
    assert_eq!(a.finish_alloc(Some(0x2000), 104), Ok(0x2000));
    a.finish_dealloc(40);
    a.finish_dealloc(104);
    assert_eq!(a.used_bytes(), 0);
    assert_eq!(a.available_bytes(), a.total_bytes());
}

/// A span reports back the base and size it was built from.
#[test]
fn span_reports_base_and_size() {
    let s = MemorySpan::from_base_size(0xFFF0, 16);
    assert_eq!(s.base(), 0xFFF0);
    assert_eq!(s.size(), 16);
}
