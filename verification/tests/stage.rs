use perf_metrics::metrics::duration::{
    ExecutePhase, ExecuteTxsRecord, ExecutionDurationRecord, WriteKind, WritePhase,
    WriteToDbRecord,
};
use perf_metrics::metrics::execute_measure::execute_inner::{
    record_after_block_with_senders, record_after_get_tps, record_after_take_output_state,
    record_after_td, record_at_end, record_before_loop, record_before_td, start_record,
};
use perf_metrics::metrics::execute_measure::execute_txs::{
    add_receipt_record, apply_post_execution_state_change_record, commit_changes_record,
    get_execute_tx_record, merge_transactions_record, save_receipts_record,
    start_execute_tx_record, start_execute_tx_sub_record, transact_record, verify_receipt_record,
    VerifyAndSaveReceiptsRecord,
};
use perf_metrics::metrics::execute_measure::revm_measure::record_opcode;
use perf_metrics::metrics::execute_measure::write_to_db::{
    record_receipts_append_time, record_revert_account_time, record_revert_storage_size,
    record_revert_storage_time, record_sort_time, record_state_account_time,
    record_state_bytecode_time, record_state_storage_time, record_write_receipts_time,
    start_write_record, start_write_to_db_record, start_write_to_db_sub_record, ReceiptsWrite,
    RevertsAccountWrite, RevertsStorageWrite, StateAccountWrite, StateBytecodeWrite,
    StateStorageWrite,
};
use perf_metrics::metrics::metric::{MetricEvent, PerfMetric, RecordingState};
use perf_metrics::metrics::tps_gas::{TpsAndGasMessage, TpsGasRecord};
use perf_metrics::utils::metrics::metric::{
    handler_end_record, hit_record, miss_record, record_op, start_record_op, Metric,
};
use perf_metrics::utils::metrics::types::{CacheDbRecord, Function, OpcodeRecord};
use perf_metrics::utils::time_utils::cycles::CycleClock;
use perf_metrics::utils::time_utils::instant::Instant;

fn one_ghz() -> CycleClock {
    CycleClock::new(1_000_000_000).expect("a positive rate")
}

fn at(cycles: u64) -> Instant {
    Instant::from_cycles(cycles)
}

#[test]
fn tps_and_gas_accumulate() {
    let mut record = TpsGasRecord::default();
    record.record(7, 100, 2_000_000);
    record.record(8, 50, 1_000_000);
    assert_eq!(record, TpsGasRecord { block_number: 8, txs: 150, gas: 3_000_000 });
    assert!(record.can_record(u128::MAX - 150, 0));
    assert!(!record.can_record(u128::MAX - 149, 0));
    assert!(!record.can_record(0, u128::MAX));
}

#[test]
fn the_stage_records_its_parts() {
    let mut metric = PerfMetric::default();
    start_record(&mut metric, at(1_000));
    record_before_td(&mut metric, 42, at(1_010));
    assert_eq!(metric.block_number, 42);
    record_after_td(&mut metric, at(1_030));
    record_after_block_with_senders(&mut metric, at(1_100));
    let record = metric.duration_record;
    assert_eq!(record.total_recorder, at(1_000));
    assert_eq!(record.time_recorder, at(1_100));
    assert_eq!(record.block_td, 20);
    assert_eq!(record.block_with_senders, 70);
    assert_eq!(record.total, 0);
    assert_eq!(record.execution, ExecuteTxsRecord::default());
    assert_eq!(record.write_to_db, WriteToDbRecord::default());
}

#[test]
fn switching_is_told_with_the_block_in_flight() {
    let mut metric = PerfMetric::default();
    record_before_td(&mut metric, 9, at(5));
    assert_eq!(
        record_before_loop(&metric),
        MetricEvent::BlockTpsAndGas { block_number: 9, record: TpsAndGasMessage::Switch(true) }
    );
    let event = record_after_take_output_state(&mut metric, at(77));
    assert_eq!(
        event,
        MetricEvent::BlockTpsAndGas { block_number: 9, record: TpsAndGasMessage::Switch(false) }
    );
    assert_eq!(metric.duration_record.time_recorder, at(77));
}

#[test]
fn counts_are_told_as_they_stand() {
    let mut metric = PerfMetric::default();
    record_before_td(&mut metric, 10, at(0));
    let first = record_after_get_tps(&mut metric, 10, 120, 9_000);
    assert_eq!(
        first,
        MetricEvent::BlockTpsAndGas {
            block_number: 10,
            record: TpsAndGasMessage::Record(TpsGasRecord {
                block_number: 10,
                txs: 120,
                gas: 9_000
            }),
        }
    );
    record_before_td(&mut metric, 11, at(0));
    let second = record_after_get_tps(&mut metric, 11, 30, 1_000);
    assert_eq!(
        second,
        MetricEvent::BlockTpsAndGas {
            block_number: 11,
            record: TpsAndGasMessage::Record(TpsGasRecord {
                block_number: 11,
                txs: 150,
                gas: 10_000
            }),
        }
    );
}

#[test]
fn the_end_of_a_unit_tells_three_events_in_order() {
    let clock = one_ghz();
    let mut revm = Metric::default();
    hit_record(&mut revm, Function::Storage);
    hit_record(&mut revm, Function::Storage);
    miss_record(&mut revm, Function::Storage, 500, &clock);
    start_record_op(&mut revm, at(0));
    record_op(&mut revm, 0x54, at(40), &clock);
    let mut metric = PerfMetric::default();
    assert_eq!(metric.state, RecordingState::Idle);
    start_record(&mut metric, at(100));
    assert_eq!(metric.state, RecordingState::Recording);
    record_before_td(&mut metric, 77, at(100));
    record_after_td(&mut metric, at(130));
    record_opcode(&mut metric, &mut revm);
    let opcodes = metric.op_record;
    assert!(opcodes.not_empty());

    let events = record_at_end(&mut metric, &mut revm, at(600), 4096);
    assert_eq!(events.len(), 3);
    match events[0] {
        MetricEvent::ExecutionStageTime { block_number, record } => {
            assert_eq!(block_number, 77);
            assert_eq!(record.total, 500);
            assert_eq!(record.block_td, 30);
            assert_eq!(record.total_recorder, at(100));
        }
        _ => panic!("the time of the stage comes first"),
    }
    match events[1] {
        MetricEvent::CacheDbInfo { block_number, size, record } => {
            assert_eq!(block_number, 77);
            assert_eq!(size, 4096);
            assert_eq!(record.hit_stats().function, [0, 2, 0, 0, 0]);
            assert_eq!(record.miss_stats().function, [0, 1, 0, 0, 0]);
            assert_eq!(record.penalty_stats().time.function, [0, 500, 0, 0, 0]);
        }
        _ => panic!("the cache comes second"),
    }
    assert_eq!(events[2], MetricEvent::OpcodeInfo { block_number: 77, record: opcodes });
    // the record of the engine was retrieved and reset
    assert_eq!(revm.cachedb_record, CacheDbRecord::default());
}

#[test]
fn the_next_unit_starts_from_zero() {
    let clock = one_ghz();
    let mut revm = Metric::default();
    let mut metric = PerfMetric::default();
    start_record(&mut metric, at(1_000));
    record_before_td(&mut metric, 5, at(1_000));
    record_after_td(&mut metric, at(1_010));
    let _ = record_after_get_tps(&mut metric, 5, 10, 1_000);
    hit_record(&mut revm, Function::CodeByHash);
    start_record_op(&mut revm, at(1_010));
    record_op(&mut revm, 0x01, at(1_020), &clock);
    record_opcode(&mut metric, &mut revm);
    let _ = record_at_end(&mut metric, &mut revm, at(1_100), 0);

    assert_eq!(metric.state, RecordingState::Finalized);
    assert_eq!(metric.duration_record, ExecutionDurationRecord::default());
    assert_eq!(metric.cachedb_record, CacheDbRecord::default());
    assert_eq!(metric.op_record, OpcodeRecord::default());
    // what identifies the work and the running counts are kept
    assert_eq!(metric.block_number, 5);
    assert_eq!(metric.tps_gas_record, TpsGasRecord { block_number: 5, txs: 10, gas: 1_000 });

    // a second end with nothing recorded in between tells empty records
    let events = record_at_end(&mut metric, &mut revm, at(1_200), 0);
    assert_eq!(
        events,
        vec![
            MetricEvent::ExecutionStageTime {
                block_number: 5,
                record: ExecutionDurationRecord {
                    total: 1_200,
                    ..ExecutionDurationRecord::default()
                },
            },
            MetricEvent::CacheDbInfo { block_number: 5, size: 0, record: CacheDbRecord::default() },
            MetricEvent::OpcodeInfo { block_number: 5, record: OpcodeRecord::default() },
        ]
    );
}

#[test]
fn each_unit_tells_its_own_measurements() {
    let clock = one_ghz();
    let mut revm = Metric::default();
    let mut metric = PerfMetric::default();
    for block in 1..=3u64 {
        start_record(&mut metric, at(block * 1_000));
        record_before_td(&mut metric, block, at(block * 1_000));
        hit_record(&mut revm, Function::CodeByHash);
        miss_record(&mut revm, Function::BlockHash, 100 * block, &clock);
        let events = record_at_end(&mut metric, &mut revm, at(block * 1_000 + 10), 0);
        assert_eq!(events.len(), 3);
        match events[0] {
            MetricEvent::ExecutionStageTime { block_number, record } => {
                assert_eq!(block_number, block);
                assert_eq!(record.total, 10);
            }
            _ => panic!("the time of the stage comes first"),
        }
        match events[1] {
            MetricEvent::CacheDbInfo { record, .. } => {
                assert_eq!(record.hit_stats().function, [1, 0, 0, 0, 0]);
                assert_eq!(record.miss_stats().function, [0, 0, 1, 0, 0]);
                assert_eq!(record.penalty_stats().time.function, [0, 0, 100 * block, 0, 0]);
            }
            _ => panic!("the cache comes second"),
        }
    }
    assert_eq!(metric.block_number, 3);
}

#[test]
fn opcode_statistics_merge_per_transaction() {
    let clock = one_ghz();
    let mut revm = Metric::default();
    let mut metric = PerfMetric::default();
    // a transaction that executed nothing
    record_opcode(&mut metric, &mut revm);
    assert_eq!(metric.op_record, OpcodeRecord::default());
    // a transaction with two opcodes
    start_record_op(&mut revm, at(0));
    record_op(&mut revm, 0x01, at(10), &clock);
    record_op(&mut revm, 0x54, at(210), &clock);
    let populated = revm.instruction_record.record;
    record_opcode(&mut metric, &mut revm);
    assert_eq!(metric.op_record, populated);
    assert_eq!(revm.instruction_record.record, OpcodeRecord::default());
    assert!(!revm.instruction_record.started);
    // another one
    start_record_op(&mut revm, at(1_000));
    record_op(&mut revm, 0x01, at(1_030), &clock);
    record_opcode(&mut metric, &mut revm);
    assert_eq!(metric.op_record.opcode_record[0x01], (2, 40, 0));
    assert_eq!(metric.op_record.opcode_record[0x54], (1, 200, 0));
    assert_eq!(metric.op_record.total_time, 240);
    // and again nothing
    let before = metric.op_record;
    record_opcode(&mut metric, &mut revm);
    assert_eq!(metric.op_record, before);
}

#[test]
fn the_execution_of_transactions_is_broken_down() {
    let mut revm = Metric::default();
    let mut metric = PerfMetric::default();
    start_execute_tx_record(&mut metric, at(100));
    start_execute_tx_sub_record(&mut metric, at(100));
    // the engine measured the transaction
    perf_metrics::utils::metrics::metric::transact_record(&mut revm, at(100));
    handler_end_record(&mut revm, at(130));
    transact_record(&mut metric, &mut revm, at(140));
    commit_changes_record(&mut metric, at(150));
    add_receipt_record(&mut metric, at(155));
    apply_post_execution_state_change_record(&mut metric, at(175));
    merge_transactions_record(&mut metric, at(178));
    verify_receipt_record(&mut metric, at(200));
    save_receipts_record(&mut metric, at(260));

    let record = get_execute_tx_record(&metric);
    assert_eq!(record.transact, 40);
    assert_eq!(record.revm_transact.handle_end, 30);
    assert_eq!(record.revm_transact.total, 30);
    assert_eq!(record.commit_changes, 10);
    assert_eq!(record.add_receipt, 5);
    assert_eq!(record.apply_post_execution_state_change, 20);
    assert_eq!(record.merge_transactions, 3);
    assert_eq!(record.verify_receipt, 22);
    assert_eq!(record.save_receipts, 60);
    assert_eq!(record.total, 160);
    assert_eq!(record.misc(), 0);
    assert!(record.can_misc());
    // the times of the engine were retrieved and reset
    assert_eq!(revm.transact_record.transact_time.total, 0);
    assert_eq!(revm.transact_record.transact_time.handle_end, 0);
}

#[test]
fn three_chained_parts_of_the_execution_cover_the_span() {
    let (d1, d2, d3) = (7u64, 70u64, 700u64);
    let mut record = ExecuteTxsRecord::default();
    record.start_record(at(10));
    record.start_sub_record(at(10));
    assert_eq!(record.commit_changes_record(at(10 + d1)), at(10 + d1));
    record.add_receipt_record(at(10 + d1 + d2));
    record.save_receipts_record(at(10 + d1 + d2 + d3));
    assert_eq!(record.commit_changes, d1);
    assert_eq!(record.add_receipt, d2);
    assert_eq!(record.save_receipts, d3);
    assert_eq!(record.commit_changes + record.add_receipt + record.save_receipts, d1 + d2 + d3);
    assert_eq!(record.total, d1 + d2 + d3);
    assert_eq!(record.misc(), 0);
}

#[test]
fn time_between_parts_is_unaccounted() {
    let mut record = ExecuteTxsRecord::default();
    record.start_record(at(0));
    record.start_sub_record(at(0));
    record.commit_changes_record(at(10));
    // something unmeasured happens until 50, then a part starts anew
    record.start_sub_record(at(50));
    record.save_receipts_record(at(60));
    assert_eq!(record.total, 60);
    assert_eq!(record.commit_changes, 10);
    assert_eq!(record.save_receipts, 10);
    assert_eq!(record.misc(), 40);
    let wrong = ExecuteTxsRecord { total: 5, commit_changes: 6, ..ExecuteTxsRecord::default() };
    assert!(!wrong.can_misc());
}

#[test]
fn a_guard_spans_verifying_and_saving_receipts() {
    let mut metric = PerfMetric::default();
    start_execute_tx_record(&mut metric, at(1_000));
    start_execute_tx_sub_record(&mut metric, at(1_000));
    let guard = VerifyAndSaveReceiptsRecord::new(&mut metric, at(1_040));
    assert_eq!(metric.duration_record.execution.verify_receipt, 40);
    assert_eq!(metric.duration_record.execution.save_receipts, 0);
    guard.release(&mut metric, at(1_100));
    assert_eq!(metric.duration_record.execution.save_receipts, 60);
    assert_eq!(metric.duration_record.execution.total, 100);
}

#[test]
fn writing_to_the_database_is_broken_down() {
    let mut metric = PerfMetric::default();
    start_write_to_db_record(&mut metric, at(0));
    start_write_to_db_sub_record(&mut metric, at(0));
    record_revert_storage_time(&mut metric, at(10));
    record_revert_account_time(&mut metric, at(30));
    record_write_receipts_time(&mut metric, at(60));
    record_sort_time(&mut metric, at(100));
    record_state_account_time(&mut metric, at(150));
    record_state_bytecode_time(&mut metric, at(210));
    record_state_storage_time(&mut metric, at(280));
    let record = metric.duration_record.write_to_db;
    assert_eq!(record.revert_storage_time, 10);
    assert_eq!(record.revert_account_time, 20);
    assert_eq!(record.write_receipts_time, 30);
    assert_eq!(record.sort_time, 40);
    assert_eq!(record.state_account_time, 50);
    assert_eq!(record.state_bytecode_time, 60);
    assert_eq!(record.state_storage_time, 70);
    assert_eq!(record.total, 280);
    assert_eq!(record.time_of(WritePhase::Sort), 40);
    assert!(record.can_lap(WritePhase::Sort, at(u64::MAX)));
}

#[test]
fn single_writes_commit_their_time_and_their_size() {
    let mut metric = PerfMetric::default();
    start_write_to_db_record(&mut metric, at(0));
    start_write_to_db_sub_record(&mut metric, at(0));
    for (start, size) in [(10u64, 100usize), (30, 250), (70, 1)] {
        let write = RevertsStorageWrite::new(&mut metric, size, at(start));
        write.release(&mut metric, at(start + 5));
    }
    record_revert_storage_time(&mut metric, at(90));
    let record = metric.duration_record.write_to_db;
    assert_eq!(record.revert_storage_append_time, 15);
    assert_eq!(record.revert_storage_size, 351);
    assert_eq!(record.revert_storage_time, 90);
    assert_eq!(record.iter_time(WriteKind::RevertStorage), 75);
    assert_eq!(record.total_size(), 351);
    assert_eq!(record.write_time_of(WriteKind::RevertStorage), 15);
    assert_eq!(record.size_of(WriteKind::RevertStorage), 351);
}

#[test]
fn each_kind_of_write_has_its_own_counters() {
    let mut metric = PerfMetric::default();
    RevertsStorageWrite::new(&mut metric, 1, at(0)).release(&mut metric, at(1));
    RevertsAccountWrite::new(&mut metric, 2, at(10)).release(&mut metric, at(12));
    ReceiptsWrite::new(&mut metric, 3, at(20)).release(&mut metric, at(23));
    StateAccountWrite::new(&mut metric, 4, at(30)).release(&mut metric, at(34));
    StateBytecodeWrite::new(&mut metric, 5, at(40)).release(&mut metric, at(45));
    StateStorageWrite::new(&mut metric, 6, at(50)).release(&mut metric, at(56));
    let record = metric.duration_record.write_to_db;
    assert_eq!(record.revert_storage_append_time, 1);
    assert_eq!(record.revert_account_append_time, 2);
    assert_eq!(record.receipts_append_time, 3);
    assert_eq!(record.state_account_upsert_time, 4);
    assert_eq!(record.state_bytecode_upsert_time, 5);
    assert_eq!(record.state_storage_upsert_time, 6);
    assert_eq!(record.revert_storage_size, 1);
    assert_eq!(record.revert_account_size, 2);
    assert_eq!(record.write_receipts_size, 3);
    assert_eq!(record.state_account_size, 4);
    assert_eq!(record.state_bytecode_size, 5);
    assert_eq!(record.state_storage_size, 6);
    assert_eq!(record.total_size(), 21);
    assert_eq!(record.write_start_record, at(56));
    assert_eq!(record.total, 0);
}

#[test]
fn writes_and_sizes_can_be_recorded_apart() {
    let mut metric = PerfMetric::default();
    start_write_record(&mut metric, at(100));
    record_receipts_append_time(&mut metric, at(108));
    record_revert_storage_size(&mut metric, 64);
    let record = metric.duration_record.write_to_db;
    assert_eq!(record.receipts_append_time, 8);
    assert_eq!(record.revert_storage_size, 64);
    assert!(record.can_size(WriteKind::RevertStorage, usize::MAX - 64));
    assert!(!record.can_size(WriteKind::RevertStorage, usize::MAX - 63));
    assert!(record.can_write(WriteKind::Receipts, at(200)));
    assert!(!record.can_iter_time(WriteKind::Receipts));
    assert!(record.can_iter_time(WriteKind::StateStorage));
    assert!(record.can_total_size());
    assert!(record.can_total(at(u64::MAX)));
}

#[test]
fn the_stage_has_an_unaccounted_remainder() {
    let mut record = ExecutionDurationRecord::default();
    record.start_total_record(at(0));
    record.start_time_record(at(5));
    assert!(record.can_add_block_td(at(15)));
    record.add_block_td_duration(at(15));
    record.start_time_record(at(15));
    record.add_block_with_senders_duration(at(40));
    record.execution.total = 100;
    record.write_to_db.total = 200;
    assert!(record.can_add_total(at(400)));
    record.add_total_duration(at(400));
    assert_eq!(record.block_td, 10);
    assert_eq!(record.block_with_senders, 25);
    assert_eq!(record.total, 400);
    assert!(record.can_misc());
    assert_eq!(record.misc(), 65);
    record.total = u64::MAX;
    assert!(!record.can_add_total(at(1)));
    assert!(record.can_add_total(at(0)));
    assert!(!record.can_add_block_with_senders(at(u64::MAX)));
    assert!(record.can_add_block_with_senders(at(u64::MAX - 10)));
}

#[test]
fn a_full_phase_is_told_beforehand() {
    let mut record = ExecuteTxsRecord::default();
    record.start_sub_record(at(100));
    record.verify_receipt = u64::MAX - 1;
    assert!(record.can_lap(ExecutePhase::VerifyReceipt, at(101)));
    assert!(!record.can_lap(ExecutePhase::VerifyReceipt, at(102)));
    assert!(record.can_lap(ExecutePhase::Transact, at(102)));
    assert!(record.can_total(at(u64::MAX)));
}
