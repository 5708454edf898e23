use perf_metrics::utils::metrics::instruction::InstructionMetricRecoder;
use perf_metrics::utils::metrics::metric::{
    after_execute_record, before_execute_record, execute_record, get_cache_record, get_op_record,
    get_transact_time, handler_end_record, hit_record, miss_record,
    preverify_transaction_inner_record, record_before_op, record_gas, record_op, start_record_op,
    transact_record, transact_start_record, transact_sub_record, Metric,
};
use perf_metrics::utils::metrics::transact::{TransactDurationRecorder, TransactPhase};
use perf_metrics::utils::metrics::types::{CacheDbRecord, Function, OpcodeRecord, TransactTime};
use perf_metrics::utils::metrics::wrapper::{
    ExecuteEndRecord, HandlerEndRecord, HitRecord, MissRecord, OpcodeExecuteRecord,
    PreverifyTransactionInnerRecord,
};
use perf_metrics::utils::time_utils::cycles::CycleClock;
use perf_metrics::utils::time_utils::instant::Instant;

fn one_ghz() -> CycleClock {
    CycleClock::new(1_000_000_000).expect("a positive rate")
}

fn at(cycles: u64) -> Instant {
    Instant::from_cycles(cycles)
}

#[test]
fn three_sloads_are_counted_timed_and_distributed() {
    let clock = one_ghz();
    let mut recorder = InstructionMetricRecoder::default();
    recorder.start_record(at(1_000));
    recorder.record_before_op(0x54);
    assert!(recorder.can_record_op(0x54, at(1_100), &clock));
    recorder.record_op(0x54, at(1_100), &clock);
    recorder.record_before_op(0x54);
    recorder.record_op(0x54, at(5_100), &clock);
    recorder.record_before_op(0x54);
    recorder.record_op(0x54, at(5_250), &clock);

    let record = recorder.get_record();
    assert_eq!(record.opcode_record[0x54], (3, 4_250, 0));
    assert_eq!(record.total_time, 4_250);
    assert!(record.not_empty());
    let fine: u64 = record.sload_percentile.ns_percentile.iter().sum();
    let coarse: u64 = record.sload_percentile.us_percentile.iter().sum();
    assert_eq!(fine, 2);
    assert_eq!(coarse, 3);
    assert_eq!(record.sload_percentile.ns_percentile[1], 2);
    assert_eq!(record.sload_percentile.us_percentile[0], 2);
    assert_eq!(record.sload_percentile.us_percentile[4], 1);
}

#[test]
fn only_sload_enters_the_distribution() {
    let clock = one_ghz();
    let mut recorder = InstructionMetricRecoder::default();
    recorder.start_record(at(0));
    recorder.record_op(0x01, at(100), &clock);
    recorder.record_op(0x55, at(300), &clock);
    let record = recorder.get_record();
    assert_eq!(record.opcode_record[0x01], (1, 100, 0));
    assert_eq!(record.opcode_record[0x55], (1, 200, 0));
    assert_eq!(record.total_time, 300);
    assert_eq!(record.sload_percentile.us_percentile.iter().sum::<u64>(), 0);
}

#[test]
fn a_retrieval_resets_the_recorder() {
    let clock = one_ghz();
    let mut recorder = InstructionMetricRecoder::default();
    recorder.start_record(at(10));
    recorder.record_before_op(0x01);
    recorder.record_op(0x01, at(20), &clock);
    recorder.record_gas(0x01, 3);
    let first = recorder.get_record();
    assert_eq!(first.opcode_record[0x01], (1, 10, 3));
    assert!(first.not_empty());
    assert!(!recorder.started);
    assert_eq!(recorder.start_time, None);
    assert_eq!(recorder.pre_time, None);
    assert_eq!(recorder.pre_opcode, None);

    let second = recorder.get_record();
    assert!(!second.not_empty());
    assert_eq!(second, OpcodeRecord::default());
}

#[test]
fn an_opcode_cannot_be_recorded_before_the_start() {
    let clock = one_ghz();
    let recorder = InstructionMetricRecoder::default();
    assert!(!recorder.can_record_op(0x01, at(5), &clock));
    assert!(!recorder.can_record_time(at(5), 0x01));
    assert!(recorder.can_start(at(5)));
    assert!(recorder.can_record_gas(0x01, u64::MAX));
}

#[test]
fn gas_is_recorded_per_opcode() {
    let mut recorder = InstructionMetricRecoder::default();
    recorder.record_gas(0x54, 2100);
    recorder.record_gas(0x54, 100);
    recorder.record_gas(0x01, 3);
    assert_eq!(recorder.record.opcode_record[0x54], (0, 0, 2200));
    assert_eq!(recorder.record.opcode_record[0x01], (0, 0, 3));
    // gas alone does not mark the record as updated
    assert!(!recorder.record.not_empty());
    recorder.record.opcode_record[0x02].2 = i128::MAX - 5;
    assert!(recorder.can_record_gas(0x02, 5));
    assert!(!recorder.can_record_gas(0x02, 6));
}

#[test]
fn a_call_enters_the_interpreter_again() {
    let clock = one_ghz();
    let mut recorder = InstructionMetricRecoder::default();
    recorder.start_record(at(100));
    assert!(!recorder.has_call_opcode());
    recorder.record_before_op(0xF1);
    assert!(recorder.has_call_opcode());
    // the call runs for 40 cycles before the inner interpreter starts
    assert!(recorder.can_start(at(140)));
    recorder.start_record(at(140));
    assert_eq!(recorder.record.opcode_record[0xF1], (0, 40, 0));
    assert_eq!(recorder.record.additional_count, [1, 0, 0, 0]);
    assert_eq!(recorder.record.total_time, 40);
    assert_eq!(recorder.start_time, Some(at(100)));
    assert_eq!(recorder.pre_time, Some(at(140)));
    // an opcode of the inner interpreter
    recorder.record_before_op(0x01);
    recorder.record_op(0x01, at(150), &clock);
    // the inner interpreter ends and the call completes
    recorder.record_op(0xF1, at(175), &clock);
    let record = recorder.get_record();
    assert_eq!(record.opcode_record[0xF1], (1, 65, 0));
    assert_eq!(record.opcode_record[0x01], (1, 10, 0));
    assert_eq!(record.total_time, 75);
}

#[test]
fn a_later_start_after_another_opcode_changes_nothing() {
    let clock = one_ghz();
    let mut recorder = InstructionMetricRecoder::default();
    recorder.start_record(at(100));
    recorder.record_before_op(0x01);
    recorder.record_op(0x01, at(110), &clock);
    let before = recorder.record;
    recorder.start_record(at(500));
    assert_eq!(recorder.record, before);
    assert_eq!(recorder.pre_time, Some(at(110)));
    assert_eq!(recorder.start_time, Some(at(100)));
    assert!(recorder.started);
}

#[test]
fn each_call_like_opcode_counts_its_own_entries() {
    let mut recorder = InstructionMetricRecoder::default();
    recorder.start_record(at(0));
    for (opcode, time) in [(0xF2u8, 10u64), (0xF4, 20), (0xFA, 30), (0xFA, 40)] {
        recorder.record_before_op(opcode);
        recorder.start_record(at(time));
    }
    assert_eq!(recorder.record.additional_count, [0, 1, 1, 2]);
    assert_eq!(recorder.record.opcode_record[0xF2].1, 10);
    assert_eq!(recorder.record.opcode_record[0xF4].1, 10);
    assert_eq!(recorder.record.opcode_record[0xFA].1, 20);
    assert_eq!(recorder.record.total_time, 40);
}

#[test]
fn a_clock_that_goes_back_counts_as_zero() {
    let clock = one_ghz();
    let mut recorder = InstructionMetricRecoder::default();
    recorder.start_record(at(1_000));
    recorder.record_op(0x01, at(900), &clock);
    assert_eq!(recorder.record.opcode_record[0x01], (1, 0, 0));
    assert_eq!(recorder.record.total_time, 0);
    assert_eq!(recorder.pre_time, Some(at(900)));

    let mut transact = TransactDurationRecorder::default();
    transact.start_record(at(1_000));
    transact.start_sub_record(at(1_000));
    transact.handler_end_record(at(10));
    assert_eq!(transact.transact_time, TransactTime::default());
}

#[test]
fn three_chained_parts_cover_the_whole_span() {
    let (d1, d2, d3) = (120u64, 4_500u64, 33u64);
    let start = 1_000_000u64;
    let mut recorder = TransactDurationRecorder::default();
    recorder.start_record(at(start));
    recorder.start_sub_record(at(start));
    recorder.before_execute_record(at(start + d1));
    recorder.execute_record(at(start + d1 + d2));
    recorder.after_execute_record(at(start + d1 + d2 + d3));
    let time = recorder.transact_time;
    assert_eq!(time.transact_preverified_inner.before_execute, d1);
    assert_eq!(time.transact_preverified_inner.execute, d2);
    assert_eq!(time.transact_preverified_inner.after_execute, d3);
    assert_eq!(
        time.transact_preverified_inner.before_execute
            + time.transact_preverified_inner.execute
            + time.transact_preverified_inner.after_execute,
        d1 + d2 + d3
    );
    assert_eq!(recorder.sub_record, at(start + d1 + d2 + d3));
    assert_eq!(time.preverify_transaction_inner, 0);
    assert_eq!(time.handle_end, 0);
    assert_eq!(time.total, 0);
}

#[test]
fn the_parts_of_a_transaction_sum_to_its_total() {
    let mut recorder = TransactDurationRecorder::default();
    recorder.start_record(at(50));
    recorder.start_sub_record(at(50));
    recorder.preverify_transaction_inner_record(at(60));
    recorder.before_execute_record(at(75));
    recorder.execute_record(at(175));
    recorder.after_execute_record(at(180));
    assert!(recorder.can_lap(TransactPhase::HandleEnd, at(200)));
    assert!(recorder.can_total(at(200)));
    recorder.handler_end_record(at(200));
    let time = recorder.get_transact_time();
    assert_eq!(time.preverify_transaction_inner, 10);
    assert_eq!(time.transact_preverified_inner.before_execute, 15);
    assert_eq!(time.transact_preverified_inner.execute, 100);
    assert_eq!(time.transact_preverified_inner.after_execute, 5);
    assert_eq!(time.handle_end, 20);
    assert_eq!(time.total, 150);
    // retrieved once, then zero
    assert_eq!(recorder.get_transact_time(), TransactTime::default());
    assert_eq!(recorder.sub_record, at(200));
    assert_eq!(recorder.start_record, at(50));
}

#[test]
fn times_accumulate_over_transactions() {
    let mut recorder = TransactDurationRecorder::default();
    for start in [100u64, 1_000, 10_000] {
        recorder.start_record(at(start));
        recorder.start_sub_record(at(start));
        recorder.execute_record(at(start + 7));
        recorder.record_total_time(at(start + 9));
    }
    assert_eq!(recorder.transact_time.transact_preverified_inner.execute, 21);
    assert_eq!(recorder.transact_time.total, 27);
    let (cycles, now) = recorder.record_sub_time(at(10_100));
    assert_eq!(cycles, 93);
    assert_eq!(now, at(10_100));
    assert_eq!(recorder.sub_record, at(10_100));
}

#[test]
fn a_full_counter_is_told_beforehand() {
    let mut recorder = TransactDurationRecorder::default();
    recorder.transact_time.handle_end = u64::MAX - 10;
    recorder.start_sub_record(at(100));
    assert!(recorder.can_lap(TransactPhase::HandleEnd, at(110)));
    assert!(!recorder.can_lap(TransactPhase::HandleEnd, at(111)));
    assert!(recorder.can_lap(TransactPhase::Execute, at(111)));
    recorder.transact_time.total = u64::MAX;
    assert!(recorder.can_total(at(0)));
    assert!(!recorder.can_total(at(1)));
}

#[test]
fn the_engine_records_through_its_measuring_points() {
    let clock = one_ghz();
    let mut metric = Metric::default();
    start_record_op(&mut metric, at(0));
    record_before_op(&mut metric, 0x54);
    record_op(&mut metric, 0x54, at(100), &clock);
    record_gas(&mut metric, 0x54, 2100);
    hit_record(&mut metric, Function::Storage);
    miss_record(&mut metric, Function::Storage, 500, &clock);
    transact_record(&mut metric, at(1000));
    preverify_transaction_inner_record(&mut metric, at(1010));
    before_execute_record(&mut metric, at(1030));
    execute_record(&mut metric, at(1060));
    after_execute_record(&mut metric, at(1100));
    transact_sub_record(&mut metric, at(1200));
    handler_end_record(&mut metric, at(1250));

    let op = get_op_record(&mut metric);
    assert_eq!(op.opcode_record[0x54], (1, 100, 2100));
    assert_eq!(op.sload_percentile.ns_percentile[1], 1);
    let cache = get_cache_record(&mut metric);
    assert_eq!(cache.hit_stats().function, [0, 1, 0, 0, 0]);
    assert_eq!(cache.miss_stats().function, [0, 1, 0, 0, 0]);
    assert_eq!(cache.penalty_stats().time.function, [0, 500, 0, 0, 0]);
    let time = get_transact_time(&mut metric);
    assert_eq!(time.preverify_transaction_inner, 10);
    assert_eq!(time.transact_preverified_inner.before_execute, 20);
    assert_eq!(time.transact_preverified_inner.execute, 30);
    assert_eq!(time.transact_preverified_inner.after_execute, 40);
    assert_eq!(time.handle_end, 50);
    assert_eq!(time.total, 250);

    // every retrieval has reset what it retrieved
    assert_eq!(get_op_record(&mut metric), OpcodeRecord::default());
    assert_eq!(get_cache_record(&mut metric), CacheDbRecord::default());
    assert_eq!(get_transact_time(&mut metric), TransactTime::default());
}

#[test]
fn retrievals_do_not_touch_each_other() {
    let clock = one_ghz();
    let mut metric = Metric::default();
    start_record_op(&mut metric, at(0));
    record_op(&mut metric, 0x01, at(5), &clock);
    hit_record(&mut metric, Function::BlockHash);
    transact_start_record(&mut metric, at(7));
    let _ = get_cache_record(&mut metric);
    assert_eq!(metric.instruction_record.record.opcode_record[0x01], (1, 5, 0));
    assert_eq!(metric.transact_record.start_record, at(7));
    let _ = get_op_record(&mut metric);
    assert_eq!(metric.transact_record.start_record, at(7));
    assert_eq!(metric.cachedb_record, CacheDbRecord::default());
}

#[test]
fn a_hit_is_counted_on_release() {
    let mut metric = Metric::default();
    let guard = HitRecord::new(Function::CodeByHash);
    assert_eq!(metric.cachedb_record.hit_stats().function, [0; 5]);
    guard.release(&mut metric);
    assert_eq!(metric.cachedb_record.hit_stats().function, [1, 0, 0, 0, 0]);
}

#[test]
fn a_miss_is_counted_with_its_penalty_on_release() {
    let clock = one_ghz();
    let mut metric = Metric::default();
    let guard = MissRecord::new(Function::LoadCacheAccount, at(2_000));
    guard.release(&mut metric, at(2_750), &clock);
    assert_eq!(metric.cachedb_record.miss_stats().function, [0, 0, 0, 1, 0]);
    assert_eq!(metric.cachedb_record.penalty_stats().time.function, [0, 0, 0, 750, 0]);
    assert_eq!(metric.cachedb_record.penalty_stats().percentile.ns_percentile[7], 1);
    // a clock that went back gives a penalty of zero
    let guard = MissRecord::new(Function::LoadCacheAccount, at(2_000));
    guard.release(&mut metric, at(1_000), &clock);
    assert_eq!(metric.cachedb_record.miss_stats().function, [0, 0, 0, 2, 0]);
    assert_eq!(metric.cachedb_record.penalty_stats().time.function, [0, 0, 0, 750, 0]);
}

#[test]
fn chained_guards_account_for_every_cycle_once() {
    let (d1, d2, d3) = (11u64, 222u64, 3_333u64);
    let mut metric = Metric::default();
    transact_record(&mut metric, at(500));
    let preverify = PreverifyTransactionInnerRecord::new(&mut metric, at(500));
    preverify.release(&mut metric, at(500 + d1));
    let execute_end = ExecuteEndRecord::new(&mut metric, at(500 + d1 + d2));
    execute_end.release(&mut metric, at(500 + d1 + d2 + d3));
    let time = metric.transact_record.transact_time;
    assert_eq!(time.preverify_transaction_inner, d1);
    assert_eq!(time.transact_preverified_inner.execute, d2);
    assert_eq!(time.transact_preverified_inner.after_execute, d3);
    assert_eq!(
        time.preverify_transaction_inner
            + time.transact_preverified_inner.execute
            + time.transact_preverified_inner.after_execute,
        d1 + d2 + d3
    );
    let handler = HandlerEndRecord::new(&mut metric, at(4_100));
    handler.release(&mut metric, at(4_200));
    let time = get_transact_time(&mut metric);
    assert_eq!(time.handle_end, 100);
    assert_eq!(time.total, 3_700);
}

#[test]
fn an_opcode_is_recorded_on_release() {
    let clock = one_ghz();
    let mut metric = Metric::default();
    start_record_op(&mut metric, at(0));
    let guard = OpcodeExecuteRecord::new(&mut metric, 0xF4);
    assert_eq!(metric.instruction_record.pre_opcode, Some(0xF4));
    assert_eq!(metric.instruction_record.record.opcode_record[0xF4], (0, 0, 0));
    guard.release(&mut metric, at(64), &clock);
    assert_eq!(metric.instruction_record.record.opcode_record[0xF4], (1, 64, 0));
    assert!(metric.instruction_record.record.not_empty());
}
