//! Tests for one SCA display tick: reports of fresh PIDs, labels of PIDs
//! that went quiet, and when endpoint rediscovery runs.

use std::collections::HashMap;

use bpfagent::programs::sca::{latency_tick, pid_avg_latency_us, REPOPULATION_INTERVAL_NS};

fn samples(entries: &[(u32, u64, u64)]) -> HashMap<u32, (u64, u64)> {
    entries.iter().map(|&(pid, sum, count)| (pid, (sum, count))).collect()
}

#[test]
fn average_is_sum_over_count_in_microseconds() {
    assert_eq!(pid_avg_latency_us(5_000_000, 5), 1000);
    assert_eq!(pid_avg_latency_us(5_000_000, 0), 0);
    assert_eq!(pid_avg_latency_us(1999, 1), 1);
}

#[test]
fn fresh_pids_are_reported_with_name_path_and_average() {
    let mut ledger = HashMap::new();
    let mut names = HashMap::new();
    names.insert(100, "FRAGMENTER".to_string());
    let mut paths = HashMap::new();
    paths.insert(100, "/tmp/WF_L_TO_FRAG".to_string());
    let tick = latency_tick(&mut ledger, &samples(&[(100, 6_000_000, 3)]), &names, &paths, None);
    assert_eq!(tick.fresh, vec![100]);
    assert_eq!(tick.reports.len(), 1);
    let r = &tick.reports[0];
    assert_eq!(r.pid, 100);
    assert_eq!(r.name, "FRAGMENTER");
    assert_eq!(r.path, "/tmp/WF_L_TO_FRAG");
    assert_eq!(r.label, "FRAGMENTER (PID 100)");
    assert_eq!(r.avg_latency_us, 2000);
    assert_eq!(r.count, 3);
    assert!(!tick.rediscover);
}

#[test]
fn quiet_pids_get_their_series_removed_once() {
    let mut ledger = HashMap::new();
    let names = HashMap::new();
    let paths = HashMap::new();
    let s = samples(&[(7, 10, 1)]);
    latency_tick(&mut ledger, &s, &names, &paths, None);
    let tick = latency_tick(&mut ledger, &s, &names, &paths, Some(0));
    assert_eq!(tick.newly_stale, vec![7]);
    assert_eq!(tick.stale_labels, vec!["unknown (PID 7)".to_string()]);
    assert!(tick.reports.is_empty());
    let tick = latency_tick(&mut ledger, &s, &names, &paths, Some(0));
    assert!(tick.stale_labels.is_empty());
}

#[test]
fn rediscovery_runs_when_quiet_and_rate_limited() {
    let mut ledger = HashMap::new();
    let names = HashMap::new();
    let paths = HashMap::new();
    let empty = samples(&[]);
    assert!(latency_tick(&mut ledger, &empty, &names, &paths, None).rediscover);
    assert!(!latency_tick(&mut ledger, &empty, &names, &paths, Some(4_999_999_999)).rediscover);
    assert!(latency_tick(&mut ledger, &empty, &names, &paths, Some(REPOPULATION_INTERVAL_NS)).rediscover);
    // Fresh samples never trigger rediscovery
    assert!(!latency_tick(&mut ledger, &samples(&[(1, 1, 1)]), &names, &paths, None).rediscover);
}
