use perf_metrics::utils::time_utils::cycles::{
    converged, convert_cycles_to_duration, convert_cycles_to_ms, convert_cycles_to_ns,
    estimate_rate, window_elapsed, Calibration, CycleClock, CALIBRATION_MAX_ROUNDS,
};
use perf_metrics::utils::time_utils::instant::Instant;
use std::time::Duration;

fn clock(cycles_per_sec: u64) -> CycleClock {
    CycleClock::new(cycles_per_sec).expect("a positive rate")
}

#[test]
fn clock_of_rate_zero_does_not_exist() {
    assert!(CycleClock::new(0).is_none());
    assert_eq!(clock(1).per_sec(), 1);
    assert_eq!(clock(3_000_000_000).per_sec(), 3_000_000_000);
}

#[test]
fn cycles_convert_to_whole_nanoseconds() {
    let three_ghz = clock(3_000_000_000);
    assert_eq!(convert_cycles_to_ns(&three_ghz, 0), 0);
    assert_eq!(convert_cycles_to_ns(&three_ghz, 3), 1);
    assert_eq!(convert_cycles_to_ns(&three_ghz, 3000), 1000);
    // rounded down
    assert_eq!(convert_cycles_to_ns(&three_ghz, 5), 1);
    assert_eq!(convert_cycles_to_ns(&three_ghz, 2), 0);
    let one_ghz = clock(1_000_000_000);
    assert_eq!(convert_cycles_to_ns(&one_ghz, 4000), 4000);
    assert_eq!(convert_cycles_to_ns(&one_ghz, u64::MAX), u64::MAX);
}

#[test]
fn conversion_saturates_at_the_largest_count() {
    let slow = clock(1);
    assert_eq!(convert_cycles_to_ns(&slow, 1), 1_000_000_000);
    assert_eq!(convert_cycles_to_ns(&slow, u64::MAX), u64::MAX);
    assert_eq!(convert_cycles_to_ns(&slow, 18_446_744_074), u64::MAX);
    assert_eq!(convert_cycles_to_ns(&slow, 18_446_744_073), 18_446_744_073_000_000_000);
}

#[test]
fn cycles_convert_to_thousands_of_nanoseconds() {
    let three_ghz = clock(3_000_000_000);
    assert_eq!(convert_cycles_to_ms(&three_ghz, 3000), 1);
    assert_eq!(convert_cycles_to_ms(&three_ghz, 2999), 0);
    assert_eq!(convert_cycles_to_ms(&three_ghz, 3_000_000_000), 1_000_000);
    assert_eq!(convert_cycles_to_ms(&clock(1), u64::MAX), u64::MAX);
}

#[test]
fn cycles_convert_to_a_duration() {
    let three_ghz = clock(3_000_000_000);
    assert_eq!(convert_cycles_to_duration(&three_ghz, 3000), Duration::from_nanos(1000));
    assert_eq!(convert_cycles_to_duration(&three_ghz, 3000), Duration::from_micros(1));
    assert_ne!(convert_cycles_to_duration(&three_ghz, 3000), Duration::from_secs(3000));
    assert_eq!(convert_cycles_to_duration(&three_ghz, 0), Duration::ZERO);
}

#[test]
fn instants_subtract_in_cycles() {
    let early = Instant::from_cycles(100);
    let late = Instant::from_cycles(350);
    assert_eq!(late.as_cycles(), 350);
    assert_eq!(late.checked_cycles_since(early), Some(250));
    assert_eq!(late.checked_cycles_since(late), Some(0));
    assert_eq!(late.cycles_since(early), 250);
    assert_eq!(Instant::default(), Instant::from_cycles(0));
}

#[test]
fn an_instant_before_the_earlier_one_gives_no_measurement() {
    let early = Instant::from_cycles(100);
    let late = Instant::from_cycles(350);
    assert_eq!(early.checked_cycles_since(late), None);
    assert_eq!(early.cycles_since(late), 0);
    let one_ghz = clock(1_000_000_000);
    assert_eq!(early.checked_nanos_since(late, &one_ghz), None);
    assert_eq!(early.checked_duration_since(late, &one_ghz), None);
}

#[test]
fn instants_subtract_in_time() {
    let two_ghz = clock(2_000_000_000);
    let early = Instant::from_cycles(1_000);
    let late = Instant::from_cycles(5_000);
    assert_eq!(late.checked_nanos_since(early, &two_ghz), Some(2_000));
    assert_eq!(late.checked_duration_since(early, &two_ghz), Some(Duration::from_nanos(2_000)));
}

#[test]
fn a_window_must_be_longer_than_ten_milliseconds() {
    assert!(!window_elapsed(0));
    assert!(!window_elapsed(10_000_000));
    assert!(window_elapsed(10_000_001));
}

#[test]
fn a_window_shows_a_rate() {
    // 30 million cycles in 10 ms: 3 GHz
    assert_eq!(estimate_rate(30_000_000, 10_000_000), 3_000_000_000);
    assert_eq!(estimate_rate(0, 10_000_001), 0);
    assert_eq!(estimate_rate(7, 2_000_000_000), 3);
    assert_eq!(estimate_rate(u64::MAX, 1), u64::MAX);
}

#[test]
fn estimates_agree_within_one_part_in_a_hundred_thousand() {
    assert!(converged(3_000_000_000, 3_000_000_000));
    assert!(converged(3_000_000_000, 3_000_029_999));
    assert!(converged(3_000_029_999, 3_000_000_000));
    // one part in a hundred thousand of 3_000_000_000 is 30_000
    assert!(!converged(2_999_970_000, 3_000_000_000));
    assert!(converged(2_999_970_001, 3_000_000_000));
    assert!(!converged(0, 3_000_000_000));
    assert!(!converged(0, 0));
}

#[test]
fn calibration_ends_when_two_windows_agree() {
    let mut calibration = Calibration::default();
    assert_eq!(calibration.step(60_000_000, 20_000_000), None);
    assert_eq!(calibration.last_rate, 3_000_000_000);
    assert_eq!(calibration.rounds, 1);
    assert_eq!(calibration.step(62_000_000, 20_000_000), None);
    assert_eq!(calibration.rounds, 2);
    let settled = calibration.step(62_000_002, 20_000_000);
    assert_eq!(settled, CycleClock::new(3_100_000_100));
    assert_eq!(calibration.rounds, 3);
}

#[test]
fn calibration_gives_up_after_the_last_window() {
    let mut calibration = Calibration::default();
    let mut cycles: u64 = 10_000_000;
    let mut result = None;
    let mut rounds = 0;
    while result.is_none() {
        cycles = if cycles == 10_000_000 { 20_000_000 } else { 10_000_000 };
        result = calibration.step(cycles, 10_000_001);
        rounds += 1;
        assert!(rounds <= CALIBRATION_MAX_ROUNDS);
    }
    assert_eq!(rounds, CALIBRATION_MAX_ROUNDS);
    assert_eq!(result.map(|clock| clock.per_sec()), Some(estimate_rate(cycles, 10_000_001)));
}

#[test]
fn calibration_never_yields_a_rate_of_zero() {
    let mut calibration = Calibration { last_rate: 0, rounds: CALIBRATION_MAX_ROUNDS - 1 };
    let settled = calibration.step(0, 10_000_001);
    assert_eq!(settled.map(|clock| clock.per_sec()), Some(1));
}
