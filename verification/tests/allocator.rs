use perf_metrics::utils::allocator::{
    can_record_alloc, can_record_dealloc, record_alloc, record_dealloc, reset, stats,
    AllocCounters, Stats,
};

#[test]
fn counters_hold_the_exact_sums() {
    let mut counters = AllocCounters::default();
    let allocs: [usize; 5] = [16, 32, 4096, 1, 0];
    let deallocs: [usize; 3] = [16, 4096, 1];
    for size in allocs {
        record_alloc(&mut counters, size);
    }
    for size in deallocs {
        record_dealloc(&mut counters, size);
    }
    assert_eq!(stats(&counters), Stats { alloc: 4145, dealloc: 4113, diff: 32 });
}

#[test]
fn a_reading_after_a_reset_shows_zero() {
    let mut counters = AllocCounters::default();
    record_alloc(&mut counters, 100);
    record_dealloc(&mut counters, 40);
    assert_eq!(stats(&counters), Stats { alloc: 100, dealloc: 40, diff: 60 });
    reset(&mut counters);
    assert_eq!(stats(&counters), Stats { alloc: 0, dealloc: 0, diff: 0 });
    assert_eq!(counters, AllocCounters::default());
    // reading does not reset
    record_alloc(&mut counters, 7);
    assert_eq!(stats(&counters).alloc, 7);
    assert_eq!(stats(&counters).alloc, 7);
}

#[test]
fn the_difference_may_be_negative() {
    let mut counters = AllocCounters::default();
    record_alloc(&mut counters, 10);
    record_dealloc(&mut counters, 25);
    assert_eq!(stats(&counters).diff, -15);
}

#[test]
fn a_full_allocation_counter_is_told_beforehand() {
    let mut counters = AllocCounters { alloc: usize::MAX - 2, dealloc: usize::MAX };
    assert!(can_record_alloc(&counters, 2));
    assert!(!can_record_alloc(&counters, 3));
    assert!(can_record_dealloc(&counters, 0));
    assert!(!can_record_dealloc(&counters, 1));
    record_alloc(&mut counters, 2);
    assert_eq!(counters.alloc, usize::MAX);
    assert!(!can_record_alloc(&counters, 1));
    assert_eq!(stats(&counters).diff, 0);
    reset(&mut counters);
    assert!(can_record_alloc(&counters, usize::MAX));
    assert!(can_record_dealloc(&counters, usize::MAX));
}

#[test]
fn the_difference_is_taken_in_the_range_of_isize() {
    let half = isize::MAX as usize;
    assert_eq!(stats(&AllocCounters { alloc: half, dealloc: 0 }).diff, isize::MAX);
    assert_eq!(stats(&AllocCounters { alloc: half + 1, dealloc: 0 }).diff, isize::MIN);
    assert_eq!(stats(&AllocCounters { alloc: usize::MAX, dealloc: 0 }).diff, -1);
    assert_eq!(stats(&AllocCounters { alloc: 0, dealloc: half }).diff, -isize::MAX);
    assert_eq!(stats(&AllocCounters { alloc: 0, dealloc: half + 1 }).diff, isize::MIN);
    assert_eq!(stats(&AllocCounters { alloc: 0, dealloc: half + 2 }).diff, isize::MAX);
    assert_eq!(stats(&AllocCounters { alloc: 0, dealloc: usize::MAX }).diff, 1);
    assert_eq!(
        stats(&AllocCounters { alloc: half + 1, dealloc: 0 }).diff,
        ((half + 1) as isize).wrapping_sub(0)
    );
}
