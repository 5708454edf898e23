use perf_metrics::utils::metrics::distribution::TimeDistributionStats;
use perf_metrics::utils::metrics::types::{
    call_opcode_index, AccessStats, CacheDbRecord, Function, MissesPenalty, OpcodeRecord,
    TransactPreverifiedInnerTime, TransactTime,
};
use perf_metrics::utils::time_utils::cycles::CycleClock;

fn one_ghz() -> CycleClock {
    CycleClock::new(1_000_000_000).expect("a positive rate")
}

fn populated(seed: u64) -> OpcodeRecord {
    let mut record = OpcodeRecord::default();
    for opcode in 0..256usize {
        let n = seed + opcode as u64;
        record.opcode_record[opcode] = (n, n * 10, (n * 100) as i128);
    }
    record.sload_percentile.record(100 * seed);
    record.sload_percentile.record(5000 * seed);
    record.total_time = seed * 1000;
    record.additional_count = [seed, seed + 1, seed + 2, seed + 3];
    record.is_updated = true;
    record
}

#[test]
fn functions_have_their_slots() {
    assert_eq!(Function::CodeByHash.index(), 0);
    assert_eq!(Function::Storage.index(), 1);
    assert_eq!(Function::BlockHash.index(), 2);
    assert_eq!(Function::LoadCacheAccount.index(), 3);
}

#[test]
fn access_stats_add_slot_by_slot() {
    let mut a = AccessStats { function: [1, 2, 3, 4, 5] };
    let b = AccessStats { function: [10, 20, 30, 40, 50] };
    assert!(a.can_update(&b));
    a.update(&b);
    assert_eq!(a.function, [11, 22, 33, 44, 55]);
    a.increment(Function::BlockHash);
    assert_eq!(a.function, [11, 22, 34, 44, 55]);
    a.add(Function::LoadCacheAccount, 6);
    assert_eq!(a.function, [11, 22, 34, 50, 55]);
    assert_eq!(AccessStats::default().function, [0; 5]);
}

#[test]
fn access_stats_tell_an_overflow_beforehand() {
    let a = AccessStats { function: [0, 0, 0, 0, u64::MAX] };
    assert!(a.can_update(&AccessStats::default()));
    assert!(!a.can_update(&AccessStats { function: [0, 0, 0, 0, 1] }));
    let b = AccessStats { function: [0, u64::MAX - 5, 0, 0, 0] };
    assert!(b.can_add(Function::Storage, 5));
    assert!(!b.can_add(Function::Storage, 6));
    assert!(b.can_add(Function::CodeByHash, u64::MAX));
}

#[test]
fn storage_hits_and_misses() {
    let clock = one_ghz();
    let mut record = CacheDbRecord::default();
    for _ in 0..100 {
        record.hit(Function::Storage);
    }
    for _ in 0..10 {
        record.miss(Function::Storage, 500, &clock);
    }
    let slot = Function::Storage.index();
    assert_eq!(record.access_count().function[slot], 110);
    assert_eq!(record.hit_stats().function[slot], 100);
    assert_eq!(record.miss_stats().function[slot], 10);
    assert_eq!(record.penalty_stats().time.function[slot], 5000);
    let misses = record.miss_stats().function[slot] as f64;
    let accesses = record.access_count().function[slot] as f64;
    assert!((misses / accesses - 0.0909).abs() < 0.0001);
    // ten penalties of 500 ns each
    assert_eq!(record.penalty_stats().percentile.us_percentile[0], 10);
    assert_eq!(record.penalty_stats().percentile.ns_percentile[5], 10);
    // the other functions saw nothing
    assert_eq!(record.access_count().function, [0, 110, 0, 0, 0]);
    assert_eq!(record.penalty_stats().time.function, [0, 5000, 0, 0, 0]);
}

#[test]
fn the_penalty_distribution_is_in_nanoseconds() {
    let three_ghz = CycleClock::new(3_000_000_000).expect("a positive rate");
    let mut record = CacheDbRecord::default();
    assert!(record.can_miss(Function::CodeByHash, 6000, &three_ghz));
    record.miss(Function::CodeByHash, 6000, &three_ghz);
    assert_eq!(record.penalty_stats().time.function[0], 6000);
    // 6000 cycles at 3 GHz are 2000 ns
    assert_eq!(record.penalty_stats().percentile.us_percentile[2], 1);
    assert_eq!(record.penalty_stats().percentile.ns_percentile[20], 1);
}

#[test]
fn cache_records_merge() {
    let clock = one_ghz();
    let mut a = CacheDbRecord::default();
    a.hit(Function::CodeByHash);
    a.miss(Function::BlockHash, 300, &clock);
    let mut b = CacheDbRecord::default();
    b.hit(Function::CodeByHash);
    b.hit(Function::LoadCacheAccount);
    b.miss(Function::BlockHash, 700, &clock);
    b.miss(Function::Storage, 9000, &clock);
    assert!(a.can_update(&b));
    a.update(&b);
    assert_eq!(a.hit_stats().function, [2, 0, 0, 1, 0]);
    assert_eq!(a.miss_stats().function, [0, 1, 2, 0, 0]);
    assert_eq!(a.penalty_stats().time.function, [0, 9000, 1000, 0, 0]);
    assert_eq!(a.penalty_stats().percentile.us_percentile[0], 2);
    assert_eq!(a.penalty_stats().percentile.us_percentile[9], 1);
    assert_eq!(a.penalty_stats().percentile.ns_percentile[3], 1);
    assert_eq!(a.penalty_stats().percentile.ns_percentile[7], 1);
    assert_eq!(a.access_count().function, [2, 1, 2, 1, 0]);
    // merging the empty record changes nothing
    let before = a;
    a.update(&CacheDbRecord::default());
    assert_eq!(a, before);
}

#[test]
fn misses_penalties_merge() {
    let mut a = MissesPenalty::default();
    a.time.add(Function::Storage, 5);
    a.percentile(150);
    let mut b = MissesPenalty::default();
    b.time.add(Function::Storage, 7);
    b.percentile(160);
    assert!(a.can_update(&b));
    a.update(&b);
    assert_eq!(a.time.function, [0, 12, 0, 0, 0]);
    assert_eq!(a.percentile.ns_percentile[1], 2);
    assert_eq!(a.percentile.us_percentile[0], 2);
}

#[test]
fn transact_times_add_part_by_part() {
    let mut a = TransactTime {
        total: 100,
        preverify_transaction_inner: 10,
        transact_preverified_inner: TransactPreverifiedInnerTime {
            before_execute: 20,
            execute: 30,
            after_execute: 15,
        },
        handle_end: 25,
    };
    let b = TransactTime {
        total: 1000,
        preverify_transaction_inner: 100,
        transact_preverified_inner: TransactPreverifiedInnerTime {
            before_execute: 200,
            execute: 300,
            after_execute: 150,
        },
        handle_end: 250,
    };
    assert!(a.can_update(&b));
    a.update(&b);
    assert_eq!(a.total, 1100);
    assert_eq!(a.preverify_transaction_inner, 110);
    assert_eq!(a.transact_preverified_inner.before_execute, 220);
    assert_eq!(a.transact_preverified_inner.execute, 330);
    assert_eq!(a.transact_preverified_inner.after_execute, 165);
    assert_eq!(a.handle_end, 275);
    assert_eq!(TransactTime::default().total, 0);
    let full = TransactTime { handle_end: u64::MAX, ..TransactTime::default() };
    assert!(!full.can_update(&b));
    assert!(full.can_update(&TransactTime::default()));
    let inner = TransactPreverifiedInnerTime { execute: u64::MAX, ..Default::default() };
    assert!(!inner.can_update(&b.transact_preverified_inner));
}

#[test]
fn call_like_opcodes_have_their_slots() {
    assert_eq!(call_opcode_index(0xF1), Some(0));
    assert_eq!(call_opcode_index(0xF2), Some(1));
    assert_eq!(call_opcode_index(0xF4), Some(2));
    assert_eq!(call_opcode_index(0xFA), Some(3));
    assert_eq!(call_opcode_index(0xF3), None);
    assert_eq!(call_opcode_index(0x54), None);
    assert_eq!(call_opcode_index(0x00), None);
}

#[test]
fn additional_counts_are_for_call_like_opcodes_only() {
    let mut record = OpcodeRecord::default();
    record.add_additional_count(0xF1, 2);
    record.add_additional_count(0xF2, 3);
    record.add_additional_count(0xF4, 5);
    record.add_additional_count(0xFA, 7);
    record.add_additional_count(0xF1, 1);
    assert_eq!(record.additional_count, [3, 3, 5, 7]);
    let before = record;
    record.add_additional_count(0x54, 100);
    record.add_additional_count(0xF0, 100);
    assert_eq!(record, before);
    assert!(!record.not_empty());
}

#[test]
fn a_default_opcode_record_is_empty() {
    let record = OpcodeRecord::default();
    assert!(!record.not_empty());
    assert_eq!(record.total_time, 0);
    assert_eq!(record.additional_count, [0; 4]);
    assert!(record.opcode_record.iter().all(|slot| *slot == (0, 0, 0)));
    assert_eq!(record.sload_percentile, TimeDistributionStats::default());
}

#[test]
fn sload_durations_enter_the_distribution() {
    let mut record = OpcodeRecord::default();
    record.add_sload_opcode_record(100);
    record.add_sload_opcode_record(4000);
    record.add_sload_opcode_record(150);
    let fine: u64 = record.sload_percentile.ns_percentile.iter().sum();
    let coarse: u64 = record.sload_percentile.us_percentile.iter().sum();
    assert_eq!(fine, 2);
    assert_eq!(coarse, 3);
}

#[test]
fn an_empty_and_a_populated_snapshot_merge_to_the_populated_one() {
    let mut block = OpcodeRecord::default();
    let mut empty = OpcodeRecord::default();
    let mut full = populated(3);
    let expected = full;

    block.update(&mut empty);
    assert_eq!(block, OpcodeRecord::default());
    assert_eq!(empty, OpcodeRecord::default());
    block.update(&mut full);
    assert_eq!(block, expected);

    // the other order
    let mut block = OpcodeRecord::default();
    let mut full = populated(3);
    block.update(&mut full);
    block.update(&mut empty);
    assert_eq!(block, expected);
}

#[test]
fn an_aggregate_that_was_never_flagged_keeps_its_counts() {
    let mut block = OpcodeRecord::default();
    block.opcode_record[1] = (5, 50, 500);
    block.sload_percentile.us_percentile[0] = 7;
    block.sload_percentile.ns_percentile[3] = 2;
    assert!(!block.is_updated);
    let mut incoming = OpcodeRecord::default();
    incoming.opcode_record[1] = (1, 10, 100);
    incoming.opcode_record[2] = (4, 40, 400);
    incoming.sload_percentile.record(300);
    incoming.total_time = 50;
    incoming.is_updated = true;
    let before = incoming;

    assert!(block.can_update(&incoming));
    block.update(&mut incoming);
    // what addition gives, not what the incoming record holds
    assert_eq!(block.opcode_record[1], (6, 60, 600));
    assert_eq!(block.opcode_record[2], (4, 40, 400));
    assert_eq!(block.opcode_record[0], (0, 0, 0));
    assert_eq!(block.sload_percentile.us_percentile[0], 8);
    assert_eq!(block.sload_percentile.ns_percentile[3], 3);
    assert_eq!(block.total_time, 50);
    assert!(block.is_updated);
    // the incoming record is left as it was
    assert_eq!(incoming, before);
}

#[test]
fn the_first_merge_adds_like_any_other() {
    let mut block = OpcodeRecord::default();
    block.opcode_record[1] = (9, 9, 9);
    let mut full = populated(3);
    let incoming = full;
    block.update(&mut full);
    assert_eq!(block.opcode_record[0], incoming.opcode_record[0]);
    assert_eq!(block.opcode_record[1], (9 + 4, 9 + 40, 9 + 400));
    assert_eq!(block.opcode_record[255], incoming.opcode_record[255]);
    assert_eq!(block.sload_percentile, incoming.sload_percentile);
    assert_eq!(block.total_time, 3000);
    assert!(block.is_updated);
    assert_eq!(full, incoming);
}

#[test]
fn an_empty_aggregate_takes_a_record_over_whole() {
    // counts written by hand into buckets out of use are taken over too
    let mut incoming = populated(2);
    incoming.sload_percentile.ns_percentile[100] = 5;
    incoming.sload_percentile.us_percentile[199] = 3;
    let expected = incoming;
    let mut block = OpcodeRecord::default();
    assert!(block.can_update(&incoming));
    block.update(&mut incoming);
    assert_eq!(block, expected);
    assert_eq!(block.sload_percentile.ns_percentile[100], 5);

    // and so is a record with spans of its own
    let mut narrow = OpcodeRecord::default();
    narrow.sload_percentile = TimeDistributionStats::new(10, 5);
    narrow.sload_percentile.record(100);
    narrow.sload_percentile.record(7_000);
    narrow.opcode_record[0x54] = (2, 7_100, 0);
    narrow.is_updated = true;
    let expected = narrow;
    let mut block = OpcodeRecord::default();
    block.update(&mut narrow);
    assert_eq!(block, expected);
    assert_eq!(block.sload_percentile.span_in_us, 10);
    assert_eq!(block.sload_percentile.span_in_ns, 5);
}

#[test]
fn an_aggregate_with_samples_keeps_its_spans_and_loses_no_count() {
    let mut block = OpcodeRecord::default();
    block.sload_percentile.record(250);
    block.is_updated = true;
    let mut narrow = OpcodeRecord::default();
    narrow.sload_percentile = TimeDistributionStats::new(10, 5);
    narrow.sload_percentile.record(100);
    narrow.sload_percentile.record(7_000);
    narrow.sload_percentile.ns_percentile[150] = 4;
    narrow.is_updated = true;
    block.update(&mut narrow);
    assert_eq!(block.sload_percentile.span_in_us, 200);
    assert_eq!(block.sload_percentile.span_in_ns, 40);
    assert_eq!(block.sload_percentile.us_percentile[0], 2);
    assert_eq!(block.sload_percentile.us_percentile[7], 1);
    assert_eq!(block.sload_percentile.ns_percentile[1], 1);
    assert_eq!(block.sload_percentile.ns_percentile[2], 1);
    assert_eq!(block.sload_percentile.ns_percentile[150], 4);
    let coarse: u64 = block.sload_percentile.us_percentile.iter().sum();
    assert_eq!(coarse, 3);
}

#[test]
fn merging_with_an_empty_record_gives_the_same_both_ways() {
    let mut a = populated(7);
    a.sload_percentile.ns_percentile[40] = 1;
    a.sload_percentile.ns_percentile[199] = 9;
    let expected = a;

    let mut x = a;
    x.update(&mut OpcodeRecord::default());
    let mut y = OpcodeRecord::default();
    y.update(&mut a);
    assert_eq!(x, expected);
    assert_eq!(y, expected);
    assert_eq!(x, y);
}

#[test]
fn later_merges_add_counter_by_counter() {
    let mut block = OpcodeRecord::default();
    let mut first = populated(3);
    let mut second = populated(10);
    assert!(block.can_update(&first));
    block.update(&mut first);
    assert!(block.can_update(&second));
    block.update(&mut second);
    for opcode in 0..256u64 {
        let (a, b) = (3 + opcode, 10 + opcode);
        assert_eq!(
            block.opcode_record[opcode as usize],
            (a + b, (a + b) * 10, ((a + b) * 100) as i128)
        );
    }
    assert_eq!(block.total_time, 13_000);
    assert_eq!(block.additional_count, [13, 15, 17, 19]);
    assert!(block.is_updated);
    // samples of 300, 15000, 1000 and 50000 ns
    assert_eq!(block.sload_percentile.us_percentile[0], 1);
    assert_eq!(block.sload_percentile.us_percentile[1], 1);
    assert_eq!(block.sload_percentile.us_percentile[15], 1);
    assert_eq!(block.sload_percentile.us_percentile[50], 1);
    assert_eq!(block.sload_percentile.ns_percentile[3], 1);
    assert_eq!(block.sload_percentile.ns_percentile[10], 1);
    // the second record is left as it was
    assert_eq!(second, populated(10));
}

#[test]
fn the_flag_of_the_aggregate_makes_no_difference() {
    let mut unflagged = OpcodeRecord::default();
    unflagged.opcode_record[0x54] = (2, 20, 200);
    let mut flagged = unflagged;
    flagged.is_updated = true;
    let mut first = populated(5);
    let mut second = populated(6);
    unflagged.update(&mut first);
    unflagged.update(&mut second);
    flagged.update(&mut first);
    flagged.update(&mut second);
    assert_eq!(unflagged, flagged);
    assert_eq!(unflagged.opcode_record[0x54].0, 2 + (5 + 0x54) + (6 + 0x54));
}

#[test]
fn merging_opcode_records_is_associative() {
    let (a, b, c) = (populated(1), populated(20), populated(300));
    let mut left = a;
    left.update(&mut b.clone());
    left.update(&mut c.clone());
    let mut bc = b;
    bc.update(&mut c.clone());
    let mut right = a;
    right.update(&mut bc);
    assert_eq!(left, right);

    let mut ab = a;
    ab.update(&mut b.clone());
    let mut ba = b;
    ba.update(&mut a.clone());
    assert_eq!(ab, ba);
}

#[test]
fn a_record_that_was_never_updated_adds_nothing() {
    let mut block = populated(4);
    let mut stale = populated(9);
    stale.is_updated = false;
    let before = stale;
    block.update(&mut stale);
    assert_eq!(block, populated(4));
    assert_eq!(stale, before);
}

#[test]
fn opcode_records_tell_an_overflow_beforehand() {
    let mut block = populated(1);
    let mut other = populated(1);
    assert!(block.can_update(&other));
    block.total_time = u64::MAX;
    assert!(!block.can_update(&other));
    block.total_time = 0;
    block.additional_count[3] = u64::MAX;
    assert!(!block.can_update(&other));
    block.additional_count[3] = 0;
    block.opcode_record[255].0 = u64::MAX;
    assert!(!block.can_update(&other));
    block.opcode_record[255].0 = 0;
    block.opcode_record[17].1 = u64::MAX;
    assert!(!block.can_update(&other));
    block.opcode_record[17].1 = 0;
    block.opcode_record[0].2 = i128::MAX;
    assert!(!block.can_update(&other));
    block.opcode_record[0].2 = i128::MIN;
    other.opcode_record[0].2 = -1;
    assert!(!block.can_update(&other));
    other.opcode_record[0].2 = 0;
    assert!(block.can_update(&other));
    block.sload_percentile.us_percentile[5] = u64::MAX;
    assert!(!block.can_update(&other));
    // whether the aggregate was updated before makes no difference
    block.is_updated = false;
    assert!(!block.can_update(&other));
    block.sload_percentile.us_percentile[5] = 0;
    assert!(block.can_update(&other));
    // a bucket out of use is added like any other
    block.sload_percentile.ns_percentile[120] = u64::MAX;
    assert!(block.can_update(&other));
    other.sload_percentile.ns_percentile[120] = 1;
    assert!(!block.can_update(&other));
    other.sload_percentile.ns_percentile[120] = 0;
    // and a record that was never updated adds nothing
    block.is_updated = true;
    other.is_updated = false;
    assert!(block.can_update(&other));
}
