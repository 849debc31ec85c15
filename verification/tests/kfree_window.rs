//! Tests for the kfree_skb moving-average window over per-tick drop deltas.

use std::collections::VecDeque;
use std::time::{Duration, Instant};

use bpfagent::programs::kfree_skb::{advance_window, evict_and_sum, update_window};

#[test]
fn deltas_accumulate_within_window() {
    let mut w = VecDeque::new();
    let t0 = Instant::now();
    assert_eq!(update_window(&mut w, t0, 3), 3);
    assert_eq!(update_window(&mut w, t0 + Duration::from_secs(3), 4), 7);
    assert_eq!(update_window(&mut w, t0 + Duration::from_secs(6), 0), 7);
}

#[test]
fn entries_older_than_the_window_are_evicted() {
    let mut w = VecDeque::new();
    let t0 = Instant::now();
    update_window(&mut w, t0, 10);
    // 11s later, beyond the 10s window: the old entry is gone even with no
    // new drops
    assert_eq!(update_window(&mut w, t0 + Duration::from_secs(11), 0), 0);
}

#[test]
fn rate_decays_as_entries_age_out() {
    let mut w = VecDeque::new();
    let t0 = Instant::now();
    update_window(&mut w, t0, 6);
    update_window(&mut w, t0 + Duration::from_secs(9), 6);
    // At t0+12 the first delta (t0) has aged out, the second (t0+9) remains
    assert_eq!(update_window(&mut w, t0 + Duration::from_secs(12), 0), 6);
}

#[test]
fn zero_deltas_are_not_stored() {
    let mut w = VecDeque::new();
    let t0 = Instant::now();
    assert_eq!(update_window(&mut w, t0, 0), 0);
    assert!(w.is_empty());
}

#[test]
fn an_entry_exactly_at_the_window_length_stays() {
    let mut w = VecDeque::new();
    let t0 = Instant::now();
    update_window(&mut w, t0, 5);
    // Eviction needs strictly more than 10s
    assert_eq!(update_window(&mut w, t0 + Duration::from_secs(10), 0), 5);
    assert_eq!(
        update_window(&mut w, t0 + Duration::from_secs(10) + Duration::from_nanos(1), 0),
        0
    );
}

#[test]
fn quiet_ticks_never_raise_the_sum() {
    let mut w = VecDeque::new();
    let t0 = Instant::now();
    let mut sum = update_window(&mut w, t0, 4);
    for s in [2u64, 5, 8, 10, 11, 15] {
        let next = update_window(&mut w, t0 + Duration::from_secs(s), 0);
        assert!(next <= sum);
        sum = next;
    }
    assert_eq!(sum, 0);
}

#[test]
fn eviction_follows_the_given_ages() {
    let t = Instant::now();
    let mut w: VecDeque<(Instant, u64)> = VecDeque::from(vec![(t, 3), (t, 4), (t, 5)]);
    // Only the leading entries older than 10 s go; a later old entry stays
    let sum = evict_and_sum(&mut w, &vec![11_000_000_000, 10_000_000_000, 12_000_000_000]);
    assert_eq!(sum, 9);
    assert_eq!(w.len(), 2);
    assert_eq!(evict_and_sum(&mut w, &vec![10_000_000_001, 10_000_000_001]), 0);
    assert!(w.is_empty());
}

#[test]
fn advancing_sums_beyond_u64() {
    let t0 = Instant::now();
    let mut w: VecDeque<(Instant, u64)> = VecDeque::new();
    assert_eq!(advance_window(&mut w, t0, u64::MAX), u64::MAX as u128);
    assert_eq!(advance_window(&mut w, t0 + Duration::from_secs(2), 2), u64::MAX as u128 + 2);
    assert_eq!(w.len(), 2);
    // 11 s after the first entry only the second is left
    assert_eq!(advance_window(&mut w, t0 + Duration::from_secs(11), 0), 2);
    assert_eq!(w.len(), 1);
}
