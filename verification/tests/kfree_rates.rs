//! Tests for the kfree_skb display tick, the drop table and its Prometheus
//! text exposition.

use std::collections::{HashMap, VecDeque};
use std::time::{Duration, Instant};

use bpfagent::programs::kfree_skb::{
    drop_rate_tick, drop_table, render_drop_metrics, sort_by_count_desc,
};

#[test]
fn tick_reports_reasons_with_drops_largest_first() {
    let mut last = HashMap::new();
    let mut windows: HashMap<u32, VecDeque<(Instant, u64)>> = HashMap::new();
    let t0 = Instant::now();
    let counts = vec![(3, 5), (10, 50), (64, 20)];
    let tick = drop_rate_tick(&mut last, &mut windows, &counts, t0).unwrap();
    assert_eq!(tick.rows, vec![(10, 50), (64, 20), (3, 5)]);
    assert!(tick.decayed.is_empty());
    // Next tick: only reason 3 grows; all windows still hold their deltas
    let counts = vec![(3, 9), (10, 50), (64, 20)];
    let tick = drop_rate_tick(&mut last, &mut windows, &counts, t0 + Duration::from_secs(3)).unwrap();
    assert_eq!(tick.rows, vec![(10, 50), (64, 20), (3, 9)]);
    // 11s later the first deltas aged out: only reason 3's second delta (t0+3) remains
    let tick = drop_rate_tick(&mut last, &mut windows, &counts, t0 + Duration::from_secs(11)).unwrap();
    assert_eq!(tick.rows, vec![(3, 4)]);
    let mut decayed = tick.decayed.clone();
    decayed.sort();
    assert_eq!(decayed, vec![10, 64]);
    assert!(!windows.contains_key(&10) && !windows.contains_key(&64));
}

#[test]
fn a_reason_without_drops_decays_immediately() {
    let mut last = HashMap::new();
    last.insert(5, 7);
    let mut windows = HashMap::new();
    let tick = drop_rate_tick(&mut last, &mut windows, &vec![(5, 7)], Instant::now()).unwrap();
    assert!(tick.rows.is_empty());
    assert_eq!(tick.decayed, vec![5]);
}

#[test]
fn a_large_count_read_twice_keeps_its_window_sum() {
    let mut last = HashMap::new();
    let mut windows: HashMap<u32, VecDeque<(Instant, u64)>> = HashMap::new();
    let t0 = Instant::now();
    let big = 1u64 << 63;
    let tick = drop_rate_tick(&mut last, &mut windows, &vec![(2, big)], t0).unwrap();
    assert_eq!(tick.rows, vec![(2, big)]);
    let tick = drop_rate_tick(&mut last, &mut windows, &vec![(2, big)], t0 + Duration::from_secs(1)).unwrap();
    assert_eq!(tick.rows, vec![(2, big)]);
    assert!(tick.decayed.is_empty());
}

#[test]
fn a_window_sum_beyond_u64_names_its_reason() {
    let t0 = Instant::now();
    let mut last = HashMap::new();
    last.insert(1, 0);
    last.insert(4, 0);
    let mut windows = HashMap::new();
    let mut w = VecDeque::new();
    w.push_back((t0, u64::MAX));
    windows.insert(4, w);
    let counts = vec![(1, 3), (4, 1)];
    let tick = drop_rate_tick(&mut last, &mut windows, &counts, t0 + Duration::from_secs(1));
    assert_eq!(tick.err(), Some(4));
    // The same window with no new drops still fits.
    let mut last = HashMap::new();
    last.insert(4, 1);
    let mut windows = HashMap::new();
    let mut w = VecDeque::new();
    w.push_back((t0, u64::MAX));
    windows.insert(4, w);
    let tick = drop_rate_tick(&mut last, &mut windows, &vec![(4, 1)], t0 + Duration::from_secs(1)).unwrap();
    assert_eq!(tick.rows, vec![(4, u64::MAX)]);
}

#[test]
fn sorting_keeps_every_row() {
    let rows = vec![(1, 5), (2, 9), (3, 5), (4, 0), (5, 9)];
    let sorted = sort_by_count_desc(&rows);
    assert_eq!(sorted, vec![(2, 9), (5, 9), (1, 5), (3, 5), (4, 0)]);
}

#[test]
fn drop_table_totals_the_counts() {
    let table = drop_table(&vec![(2, 3), (10, 30), (7, 12)]);
    assert_eq!(table.rows, vec![(10, 30), (7, 12), (2, 3)]);
    assert_eq!(table.total, 45);
    let empty = drop_table(&vec![]);
    assert!(empty.rows.is_empty());
    assert_eq!(empty.total, 0);
}

#[test]
fn exposition_lists_reasons_then_total() {
    let text = render_drop_metrics(&vec![(3, 4), (10, 6)]);
    assert_eq!(
        text,
        "# HELP kfree_skb_drops_total Number of packet drops by reason\n\
         # TYPE kfree_skb_drops_total counter\n\
         kfree_skb_drops_total{reason=\"TCP_CSUM\",reason_id=\"10\"} 6\n\
         kfree_skb_drops_total{reason=\"NO_SOCKET\",reason_id=\"3\"} 4\n\
         \n# HELP kfree_skb_drops_total_summary Total packet drops\n\
         # TYPE kfree_skb_drops_total_summary counter\n\
         kfree_skb_drops_total_summary 10\n"
    );
}

#[test]
fn exposition_of_unknown_codes_uses_the_max_reason() {
    let text = render_drop_metrics(&vec![(500, 1)]);
    assert!(text.contains("kfree_skb_drops_total{reason=\"MAX\",reason_id=\"500\"} 1\n"), "{}", text);
}
