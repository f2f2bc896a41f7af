use jitter_meter::controller::plan_workers;
use jitter_meter::jitter::{JitterWorker, TickError, TickOutcome};
use jitter_meter::worker::WorkerConfig;

const MS: u128 = 1_000_000;

fn run_ticks(worker: &mut JitterWorker, times: &[u128]) -> Vec<TickOutcome> {
    times
        .iter()
        .map(|&t| worker.tick(t, false).expect("tick refused"))
        .collect()
}

#[test]
fn scenario_one_ms_interval_jitter_and_single_gauge_emission() {
    let config = WorkerConfig::new(1, 1000);
    let mut worker = JitterWorker::new(&config);
    // inter-tick deltas of 1.0, 1.2, 0.9 and 1.0 ms
    let t0 = 5 * MS;
    let times = [t0, t0 + MS, t0 + 2_200_000, t0 + 3_100_000, t0 + 4_100_000];
    let outs = run_ticks(&mut worker, &times);
    let jitters: Vec<Option<u128>> = outs.iter().map(|o| o.jitter_us).collect();
    assert_eq!(jitters, vec![None, Some(0), Some(200), Some(100), Some(0)]);
    let emitted: Vec<u128> = outs.iter().filter_map(|o| o.new_max_us).collect();
    assert_eq!(emitted, vec![200]);
    assert_eq!(worker.max_jitter_us(), 200);
}

#[test]
fn first_tick_records_nothing() {
    let config = WorkerConfig::new(2, 500);
    let mut worker = JitterWorker::new(&config);
    let out = worker.tick(123_456, false).unwrap();
    assert_eq!(out.jitter_us, None);
    assert_eq!(out.new_max_us, None);
    assert!(!out.count_iteration);
    assert!(!out.stopped);
}

#[test]
fn jitter_is_absolute_and_rounds_down_to_microseconds() {
    let config = WorkerConfig::new(3, 1000);
    let mut worker = JitterWorker::new(&config);
    // early by 250.9 us, then late by 1999 ns
    let outs = run_ticks(&mut worker, &[0, 749_100, 749_100 + 1_001_999]);
    assert_eq!(outs[1].jitter_us, Some(250));
    assert_eq!(outs[2].jitter_us, Some(1));
}

#[test]
fn gauge_is_not_set_on_tie_or_decrease() {
    let config = WorkerConfig::new(4, 1000);
    let mut worker = JitterWorker::new(&config);
    // jitters 300, 300, 100, 400 us
    let outs = run_ticks(
        &mut worker,
        &[0, 1_300_000, 2_600_000, 3_500_000, 4_900_000],
    );
    let gauges: Vec<Option<u128>> = outs.iter().map(|o| o.new_max_us).collect();
    assert_eq!(gauges, vec![None, Some(300), None, None, Some(400)]);
}

#[test]
fn zero_jitter_never_sets_gauge() {
    let config = WorkerConfig::new(5, 1000);
    let mut worker = JitterWorker::new(&config);
    let outs = run_ticks(&mut worker, &[0, MS, 2 * MS, 3 * MS]);
    assert!(outs.iter().all(|o| o.new_max_us.is_none()));
    assert_eq!(outs.iter().filter(|o| o.jitter_us.is_some()).count(), 3);
}

#[test]
fn only_cpu_zero_counts_iterations() {
    let configs = plan_workers(&[0, 1], 1000);
    let mut primary = JitterWorker::new(&configs[0]);
    let mut other = JitterWorker::new(&configs[1]);
    let times = [0, MS, 2 * MS, 3 * MS];
    let counted_primary = run_ticks(&mut primary, &times)
        .iter()
        .filter(|o| o.count_iteration)
        .count();
    let counted_other = run_ticks(&mut other, &times)
        .iter()
        .filter(|o| o.count_iteration)
        .count();
    assert_eq!(counted_primary, 4);
    assert_eq!(counted_other, 0);
}

#[test]
fn stop_flag_stops_after_the_tick() {
    let config = WorkerConfig::new(0, 1000);
    let mut worker = JitterWorker::new(&config);
    worker.tick(0, false).unwrap();
    assert!(!worker.is_stopped());
    let out = worker.tick(MS + 7_000, true).unwrap();
    assert!(out.stopped);
    assert_eq!(out.jitter_us, Some(7));
    assert!(out.count_iteration);
    assert!(worker.is_stopped());
    assert_eq!(worker.tick(2 * MS, false), Err(TickError::Stopped));
}

#[test]
fn clock_going_backwards_is_refused() {
    let config = WorkerConfig::new(6, 1000);
    let mut worker = JitterWorker::new(&config);
    worker.tick(10 * MS, false).unwrap();
    assert_eq!(worker.tick(9 * MS, false), Err(TickError::ClockWentBackwards));
    // the refused reading left the state alone
    let out = worker.tick(11 * MS, false).unwrap();
    assert_eq!(out.jitter_us, Some(0));
}
