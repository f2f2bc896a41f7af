use jitter_meter::controller::{interval_or_default, plan_workers, DEFAULT_INTERVAL_US};
use jitter_meter::naming::{gauge_name, histogram_name, worker_name};
use jitter_meter::topology::{count_processors, cpu_ids, enumerate_cpus};
use jitter_meter::worker::{WorkerConfig, WORKER_PRIORITY};

fn cpuinfo(n: usize) -> String {
    let mut s = String::new();
    for i in 0..n {
        s.push_str(&format!(
            "processor\t: {i}\nvendor_id\t: GenuineIntel\nmodel name\t: a processor\n\n"
        ));
    }
    s
}

#[test]
fn scenario_four_cpus_four_workers() {
    let text = cpuinfo(4);
    let n = count_processors(text.as_bytes());
    assert_eq!(n, 4);
    let cpus = cpu_ids(n);
    assert_eq!(cpus, vec![0, 1, 2, 3]);
    let configs = plan_workers(&cpus, 1000);
    assert_eq!(configs.len(), 4);
    for (i, c) in configs.iter().enumerate() {
        assert_eq!(c.cpu_id(), i);
        assert_eq!(c.interval_us(), 1000);
        assert_eq!(c.worker_cpu_ids(), Some(&[i][..]));
    }
}

#[test]
fn processor_only_counts_at_line_start() {
    assert_eq!(count_processors(b""), 0);
    assert_eq!(count_processors(b"model name: processor x\n"), 0);
    assert_eq!(count_processors(b"processor"), 1);
    assert_eq!(count_processors(b"processo\nprocessor: 1\r\nxprocessor\n"), 1);
    assert_eq!(count_processors(cpuinfo(13).as_bytes()), 13);
}

#[test]
fn no_cpus_no_workers() {
    assert!(cpu_ids(0).is_empty());
    assert!(plan_workers(&[], 1000).is_empty());
}

#[test]
fn names_are_zero_padded_to_two_digits() {
    assert_eq!(worker_name(0), "jmCPU00");
    assert_eq!(worker_name(7), "jmCPU07");
    assert_eq!(worker_name(42), "jmCPU42");
    assert_eq!(gauge_name(3), "CPU03::jitter::abs_max");
    assert_eq!(histogram_name(3), "CPU03::jitter");
    assert_eq!(gauge_name(10), "CPU10::jitter::abs_max");
    assert_eq!(histogram_name(128), "CPU128::jitter");
}

#[test]
fn worker_options() {
    let c = WorkerConfig::new(9, 250);
    assert_eq!(c.worker_name(), "jmCPU09");
    assert_eq!(c.worker_priority(), Some(90));
    assert_eq!(WORKER_PRIORITY, 90);
    assert!(c.worker_is_blocking());
    assert_eq!(c.worker_cpu_ids(), Some(&[9usize][..]));
}

#[test]
fn default_interval_is_one_millisecond() {
    assert_eq!(DEFAULT_INTERVAL_US, 1000);
    assert_eq!(interval_or_default(None), 1000);
    assert_eq!(interval_or_default(Some(250)), 250);
}

#[test]
fn table_without_processor_lines_is_refused() {
    assert_eq!(enumerate_cpus(b""), None);
    assert_eq!(enumerate_cpus(b"vendor_id\t: GenuineIntel\nmodel name\t: a processor\n"), None);
}

#[test]
fn enumeration_lists_cpus_in_ascending_order() {
    assert_eq!(enumerate_cpus(cpuinfo(4).as_bytes()), Some(vec![0, 1, 2, 3]));
    assert_eq!(enumerate_cpus(b"processor : 0\n"), Some(vec![0]));
}
