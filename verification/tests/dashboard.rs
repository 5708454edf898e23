use perf_metrics::dashboard::cache::{can_sum_slots, sum_slots, CacheStat, CacheStats};
use perf_metrics::dashboard::commons::{
    can_total_count, distribution_rows, total_count, DistributionRow,
};
use perf_metrics::dashboard::listener::{DashboardListener, Display};
use perf_metrics::dashboard::tps_gas::{TpsAndGasDisplayer, TpsGasReport};
use perf_metrics::metrics::duration::ExecutionDurationRecord;
use perf_metrics::metrics::metric::MetricEvent;
use perf_metrics::metrics::tps_gas::{TpsAndGasMessage, TpsGasRecord};
use perf_metrics::utils::metrics::distribution::TimeDistributionStats;
use perf_metrics::utils::metrics::types::{AccessStats, CacheDbRecord, Function, OpcodeRecord};
use perf_metrics::utils::time_utils::cycles::CycleClock;
use perf_metrics::utils::time_utils::instant::Instant;

fn one_ghz() -> CycleClock {
    CycleClock::new(1_000_000_000).expect("a positive rate")
}

fn at(cycles: u64) -> Instant {
    Instant::from_cycles(cycles)
}

fn storage_record() -> CacheDbRecord {
    let clock = one_ghz();
    let mut record = CacheDbRecord::default();
    for _ in 0..100 {
        record.hit(Function::Storage);
    }
    for _ in 0..10 {
        record.miss(Function::Storage, 500, &clock);
    }
    record
}

#[test]
fn the_cache_report_has_a_row_per_function_and_the_totals() {
    let clock = one_ghz();
    let mut record = storage_record();
    record.hit(Function::CodeByHash);
    record.miss(Function::BlockHash, 40, &clock);
    assert!(CacheStats::can_report(&record));
    let stats = CacheStats::from_record(&record);
    assert_eq!(stats.functions[0], CacheStat { hits: 1, misses: 0, penalty: 0 });
    assert_eq!(stats.functions[1], CacheStat { hits: 100, misses: 10, penalty: 5000 });
    assert_eq!(stats.functions[2], CacheStat { hits: 0, misses: 1, penalty: 40 });
    assert_eq!(stats.functions[3], CacheStat::default());
    assert_eq!(stats.functions[4], CacheStat { hits: 101, misses: 11, penalty: 5040 });
}

#[test]
fn the_miss_ratio_of_storage() {
    let stats = CacheStats::from_record(&storage_record());
    let storage = stats.functions[1];
    assert_eq!(storage.hits + storage.misses, 110);
    // 10 / 110 = 9.09 %
    assert_eq!(storage.miss_ratio(), Some(90_909));
    assert_eq!(storage.avg_penalty(), Some(500));
    assert_eq!(storage.penalty, 5000);
    assert_eq!(stats.functions[4].miss_ratio(), Some(90_909));
}

#[test]
fn a_function_that_never_fired_has_no_ratio() {
    let stats = CacheStats::from_record(&storage_record());
    let unused = stats.functions[0];
    assert_eq!(unused.miss_ratio(), None);
    assert_eq!(unused.avg_penalty(), None);
    let hits_only = CacheStat { hits: 5, misses: 0, penalty: 0 };
    assert_eq!(hits_only.miss_ratio(), Some(0));
    assert_eq!(hits_only.avg_penalty(), None);
    let misses_only = CacheStat { hits: 0, misses: 3, penalty: 10 };
    assert_eq!(misses_only.miss_ratio(), Some(1_000_000));
    assert_eq!(misses_only.avg_penalty(), Some(3));
    let huge = CacheStat { hits: u64::MAX, misses: u64::MAX, penalty: u64::MAX };
    assert_eq!(huge.miss_ratio(), Some(500_000));
    assert_eq!(huge.avg_penalty(), Some(1));
}

#[test]
fn slots_sum_up() {
    let stats = AccessStats { function: [1, 2, 3, 4, 5] };
    assert!(can_sum_slots(&stats));
    assert_eq!(sum_slots(&stats), 15);
    let full = AccessStats { function: [u64::MAX, 0, 0, 0, 0] };
    assert!(can_sum_slots(&full));
    assert_eq!(sum_slots(&full), u64::MAX);
    let over = AccessStats { function: [u64::MAX, 0, 0, 0, 1] };
    assert!(!can_sum_slots(&over));
    let way_over = AccessStats { function: [u64::MAX; 5] };
    assert!(!can_sum_slots(&way_over));
}

#[test]
fn a_distribution_counts_its_samples() {
    let mut stats = TimeDistributionStats::default();
    assert_eq!(total_count(&stats), 0);
    for sample in [5u64, 500, 5_000, 50_000, 500_000, 5_000_000] {
        stats.record(sample);
    }
    assert!(can_total_count(&stats));
    assert_eq!(total_count(&stats), 6);
    stats.us_percentile[100] = u64::MAX;
    assert!(!can_total_count(&stats));
}

#[test]
fn the_rows_of_a_distribution() {
    let mut stats = TimeDistributionStats::default();
    stats.record(100);
    stats.record(150);
    stats.record(3_999);
    stats.record(4_000);
    stats.record(4_500);
    stats.record(1_000_000);
    let rows = distribution_rows(&stats);
    // forty fine rows, then the coarse rows from the fifth bucket on
    assert_eq!(rows.len(), 40 + 196);
    assert_eq!(rows[0], DistributionRow { time_in_ns: 100, count: 0 });
    assert_eq!(rows[1], DistributionRow { time_in_ns: 200, count: 2 });
    assert_eq!(rows[39], DistributionRow { time_in_ns: 4_000, count: 1 });
    assert_eq!(rows[40], DistributionRow { time_in_ns: 5_000, count: 2 });
    assert_eq!(rows[41], DistributionRow { time_in_ns: 6_000, count: 0 });
    assert_eq!(rows[235], DistributionRow { time_in_ns: 200_000, count: 1 });
    let counted: u64 = rows.iter().map(|row| row.count).sum();
    assert_eq!(counted, total_count(&stats));
}

#[test]
fn the_rows_follow_the_spans() {
    let small = TimeDistributionStats::new(3, 25);
    let rows = distribution_rows(&small);
    // the fine window ends at 2500 ns: the coarse rows start at the third bucket
    assert_eq!(rows.len(), 25 + 1);
    assert_eq!(rows[24].time_in_ns, 2_500);
    assert_eq!(rows[25].time_in_ns, 3_000);
    let fine_only = TimeDistributionStats::new(1, 40);
    assert_eq!(distribution_rows(&fine_only).len(), 40);
    let coarse_only = TimeDistributionStats::new(4, 0);
    let rows = distribution_rows(&coarse_only);
    assert_eq!(rows.len(), 4);
    assert_eq!(rows[0].time_in_ns, 1_000);
    assert_eq!(rows[3].time_in_ns, 4_000);
    assert_eq!(distribution_rows(&TimeDistributionStats::new(0, 0)).len(), 0);
}

#[test]
fn a_report_covers_what_came_since_the_report_before() {
    let clock = one_ghz();
    let mut displayer = TpsAndGasDisplayer::default();
    displayer.start_record(at(0));
    // block 999 is not reported
    assert_eq!(displayer.update_tps_and_gas(999, 5_000, 70_000, at(1_000_000_000), &clock), None);
    assert_eq!(displayer.last_txs, 5_000);
    assert_eq!(displayer.pre_txs, 0);
    // block 1000 is: two seconds have gone
    assert!(displayer.can_report(10_000, 150_000, at(2_000_000_000), &clock));
    let report = displayer.update_tps_and_gas(1000, 10_000, 150_000, at(2_000_000_000), &clock);
    assert_eq!(
        report,
        Some(TpsGasReport {
            block_number: 1000,
            tps: 5_000,
            delta_gas: 150_000,
            elapsed_ns: 2_000_000_000
        })
    );
    assert_eq!(displayer.pre_txs, 10_000);
    assert_eq!(displayer.pre_gas, 150_000);
    assert_eq!(displayer.pre_instant, at(2_000_000_000));
    // the next report starts from there
    let report = displayer.print_content(1500, 10_300, 150_001, at(2_500_000_000), &clock);
    assert_eq!(
        report,
        TpsGasReport { block_number: 1500, tps: 600, delta_gas: 1, elapsed_ns: 500_000_000 }
    );
}

#[test]
fn no_report_without_time_or_with_counts_that_went_back() {
    let clock = one_ghz();
    let mut displayer = TpsAndGasDisplayer::default();
    displayer.start_record(at(100));
    displayer.last_txs = 10;
    displayer.last_gas = 10;
    displayer.start_record(at(100));
    assert!(!displayer.can_report(20, 20, at(100), &clock));
    assert!(!displayer.can_report(20, 20, at(50), &clock));
    assert!(displayer.can_report(20, 20, at(101), &clock));
    assert!(!displayer.can_report(9, 20, at(101), &clock));
    assert!(!displayer.can_report(20, 9, at(101), &clock));
    assert!(!displayer.can_report(u128::MAX, 20, at(101), &clock));
    assert!(displayer.can_report(10, 10, at(101), &clock));
}

#[test]
fn messages_drive_the_displayer() {
    let clock = one_ghz();
    let mut displayer = TpsAndGasDisplayer::default();
    assert!(displayer.can_print(TpsAndGasMessage::Switch(true), at(10), &clock));
    assert_eq!(displayer.print(1, TpsAndGasMessage::Switch(true), at(10), &clock), None);
    assert_eq!(displayer.pre_instant, at(10));
    let counts = TpsGasRecord { block_number: 1, txs: 40, gas: 800 };
    assert_eq!(displayer.print(1, TpsAndGasMessage::Record(counts), at(20), &clock), None);
    let counts = TpsGasRecord { block_number: 2, txs: 100, gas: 2_000 };
    assert_eq!(displayer.print(2, TpsAndGasMessage::Record(counts), at(30), &clock), None);
    assert!(displayer.can_print(TpsAndGasMessage::Switch(false), at(1_010), &clock));
    let report = displayer.print(2, TpsAndGasMessage::Switch(false), at(1_010), &clock);
    // 100 transactions in a microsecond
    assert_eq!(
        report,
        Some(TpsGasReport { block_number: 2, tps: 100_000_000, delta_gas: 2_000, elapsed_ns: 1_000 })
    );
    // switching off again at once cannot report: no time has gone
    assert!(!displayer.can_print(TpsAndGasMessage::Switch(false), at(1_010), &clock));
}

#[test]
fn the_listener_works_out_what_to_show() {
    let clock = one_ghz();
    let mut listener = DashboardListener::new();
    assert_eq!(listener, DashboardListener::default());

    let duration = ExecutionDurationRecord { total: 99, ..ExecutionDurationRecord::default() };
    let event = MetricEvent::ExecutionStageTime { block_number: 5, record: duration };
    assert!(listener.can_handle(&event, at(0), &clock));
    assert_eq!(
        listener.handle_event(event, at(0), &clock),
        Display::ExecutionStageTime { block_number: 5, record: duration }
    );

    let event = MetricEvent::OpcodeInfo { block_number: 5, record: OpcodeRecord::default() };
    assert_eq!(
        listener.handle_event(event, at(0), &clock),
        Display::OpcodeInfo { block_number: 5, record: OpcodeRecord::default() }
    );

    let record = storage_record();
    let event = MetricEvent::CacheDbInfo { block_number: 5, size: 1 << 20, record };
    assert!(listener.can_handle(&event, at(0), &clock));
    match listener.handle_event(event, at(0), &clock) {
        Display::CacheDbInfo { block_number, size, stats, penalty } => {
            assert_eq!(block_number, 5);
            assert_eq!(size, 1 << 20);
            assert_eq!(stats, CacheStats::from_record(&record));
            assert_eq!(penalty, record.penalty_stats().percentile);
        }
        _ => panic!("the cache is shown for an event of the cache"),
    }
    assert_eq!(listener, DashboardListener::default());
}

#[test]
fn the_listener_follows_transactions_and_gas_in_order() {
    let clock = one_ghz();
    let mut listener = DashboardListener::new();
    let events = [
        (TpsAndGasMessage::Switch(true), 1_000u64),
        (TpsAndGasMessage::Record(TpsGasRecord { block_number: 1, txs: 10, gas: 100 }), 2_000),
        (TpsAndGasMessage::Record(TpsGasRecord { block_number: 2, txs: 30, gas: 500 }), 3_000),
        (TpsAndGasMessage::Switch(false), 5_000),
    ];
    let mut shown = Vec::new();
    for (record, time) in events {
        let event = MetricEvent::BlockTpsAndGas { block_number: 2, record };
        assert!(listener.can_handle(&event, at(time), &clock));
        shown.push(listener.handle_event(event, at(time), &clock));
    }
    assert_eq!(shown[0], Display::BlockTpsAndGas { report: None });
    assert_eq!(shown[1], Display::BlockTpsAndGas { report: None });
    assert_eq!(shown[2], Display::BlockTpsAndGas { report: None });
    assert_eq!(
        shown[3],
        Display::BlockTpsAndGas {
            report: Some(TpsGasReport {
                block_number: 2,
                tps: 7_500_000,
                delta_gas: 500,
                elapsed_ns: 4_000
            })
        }
    );
    assert_eq!(listener.tps_gas_displayer.pre_txs, 30);
    assert_eq!(listener.tps_gas_displayer.pre_instant, at(5_000));
}
