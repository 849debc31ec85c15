//! Tests for the IRSS cumulative-accumulator delta and per-tick average
//! latency computation.

use bpfagent::programs::irss::{avg_latency_us, latency_deltas};

#[test]
fn first_read_reports_full_values() {
    let (mut last_sum, mut last_count) = (0, 0);
    assert_eq!(
        latency_deltas(&mut last_sum, &mut last_count, 456, 3),
        (456, 3)
    );
}

#[test]
fn irss_delta_subsequent_reads_report_only_deltas() {
    let (mut last_sum, mut last_count) = (0, 0);
    latency_deltas(&mut last_sum, &mut last_count, 1000, 2);
    assert_eq!(
        latency_deltas(&mut last_sum, &mut last_count, 1500, 3),
        (500, 1)
    );
    assert_eq!(
        latency_deltas(&mut last_sum, &mut last_count, 1500, 3),
        (0, 0)
    );
}

#[test]
fn backwards_values_saturate_to_zero() {
    let (mut last_sum, mut last_count) = (0, 0);
    latency_deltas(&mut last_sum, &mut last_count, 1000, 2);
    // Maps were reset (program reload): accumulators went backwards
    assert_eq!(
        latency_deltas(&mut last_sum, &mut last_count, 50, 1),
        (0, 0)
    );
    // And the new baseline is used from then on
    assert_eq!(
        latency_deltas(&mut last_sum, &mut last_count, 150, 2),
        (100, 1)
    );
}

#[test]
fn average_is_none_without_samples() {
    assert_eq!(avg_latency_us(0, 0), None);
    // Leftover sum with no new samples still means no average
    assert_eq!(avg_latency_us(123, 0), None);
}

#[test]
fn average_converts_ns_to_us() {
    // 2 samples totaling 2_500_000 ns -> 1250 us average
    assert_eq!(avg_latency_us(2_500_000, 2), Some(1250));
    // Sub-microsecond averages truncate to 0
    assert_eq!(avg_latency_us(999, 1), Some(0));
}

#[test]
fn deltas_of_consecutive_ticks_add_up_to_the_growth() {
    let (mut last_sum, mut last_count) = (0, 0);
    latency_deltas(&mut last_sum, &mut last_count, 100, 1);
    let (a, c) = latency_deltas(&mut last_sum, &mut last_count, 400, 4);
    let (b, d) = latency_deltas(&mut last_sum, &mut last_count, 1000, 10);
    assert_eq!(a + b, 900);
    assert_eq!(c + d, 9);
    assert_eq!((last_sum, last_count), (1000, 10));
}

#[test]
fn average_truncates_each_division() {
    // 3 samples of 1_999_999 ns in total: 666_666 ns each, 666 us
    assert_eq!(avg_latency_us(1_999_999, 3), Some(666));
    assert_eq!(avg_latency_us(u64::MAX, 1), Some(u64::MAX / 1000));
}
