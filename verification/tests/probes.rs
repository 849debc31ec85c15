//! Tests for the decisions of the kernel-side programs.

use bpfagent::probes::irss::{
    accumulate_latency, forwarding_latency, keeps_received, listen_port, payload_key,
    payload_key_readable, raw_dest, received_tag, tx_dest, tx_dest_readable, tx_matches,
    SockaddrIn,
};
use bpfagent::probes::kfree_skb::next_drop_count;
use bpfagent::probes::sca::{
    be_u16, be_u32, buf_to_log_str, downstream_keys, header_from_bytes, header_source,
    individual_latency, moving_average_step, reply_latency, send_action, split_header_readable,
    HeaderSource, SendAction, WINDOW_SIZE_NS,
};
use bpfagent::sca_common::{pair_key, HopEndpoint};

fn endpoint(hop_index: u32, is_sender: u32) -> HopEndpoint {
    HopEndpoint { hop_index, is_sender, path: [0; 32] }
}

#[test]
fn drop_counters_start_at_one_and_wrap() {
    assert_eq!(next_drop_count(None), 1);
    assert_eq!(next_drop_count(Some(41)), 42);
    assert_eq!(next_drop_count(Some(u64::MAX)), 0);
}

#[test]
fn big_endian_reads() {
    assert_eq!(be_u32([0x12, 0x34, 0x56, 0x78]), 0x1234_5678);
    assert_eq!(be_u16([0xab, 0xcd]), 0xabcd);
    assert_eq!(payload_key([0, 0, 1, 0]), 256);
}

#[test]
fn header_location_follows_the_iovecs() {
    assert_eq!(header_source(true, 3, false, 100), HeaderSource::Absent);
    assert_eq!(header_source(false, 0, false, 100), HeaderSource::Absent);
    assert_eq!(header_source(false, 1, true, 100), HeaderSource::Absent);
    assert_eq!(header_source(false, 1, false, 15), HeaderSource::FirstIov);
    assert_eq!(header_source(false, 3, false, 14), HeaderSource::SplitIovs);
    assert!(split_header_readable(3, false, 4, false, 2));
    assert!(!split_header_readable(2, false, 4, false, 2));
    assert!(!split_header_readable(3, false, 3, false, 2));
    assert!(!split_header_readable(3, false, 4, true, 2));
}

#[test]
fn header_fields_sit_after_the_spf_header() {
    let mut msg = [0u8; 15];
    msg[9..13].copy_from_slice(&[0, 0, 0x80, 0x01]);
    msg[13..15].copy_from_slice(&[0x00, 0x02]);
    assert_eq!(header_from_bytes(&msg), Some((0x8001, 2)));
    assert_eq!(header_from_bytes(&msg[..14]), None);
}

#[test]
fn senders_store_and_receivers_match() {
    assert_eq!(
        send_action(Some(endpoint(2, 1)), Some((7, 1))),
        SendAction::StoreRequest { key: pair_key(2, 7) }
    );
    assert_eq!(
        send_action(Some(endpoint(2, 0)), Some((7, 1))),
        SendAction::MatchReply { key: pair_key(2, 7) }
    );
    assert_eq!(send_action(None, Some((7, 1))), SendAction::Skip);
    assert_eq!(send_action(Some(endpoint(2, 1)), None), SendAction::Skip);
    assert_eq!(reply_latency(Some(100), 350), 250);
    assert_eq!(reply_latency(None, 350), 0);
}

#[test]
fn downstream_latency_is_subtracted() {
    let first = downstream_keys(0, 9);
    assert_eq!(first.publish, None);
    assert_eq!(first.downstream, Some(pair_key(1, 9)));
    let last = downstream_keys(6, 9);
    assert_eq!(last.publish, Some(pair_key(6, 9)));
    assert_eq!(last.downstream, None);
    assert_eq!(individual_latency(1000, Some(300)), 700);
    assert_eq!(individual_latency(1000, Some(3000)), 0);
    assert_eq!(individual_latency(1000, None), 1000);
}

#[test]
fn moving_average_window_restarts_after_two_seconds() {
    let first = moving_average_step(None, None, None, 500, 10);
    assert_eq!((first.sum, first.count, first.window_start), (500, 1, Some(10)));
    let second = moving_average_step(Some(500), Some(1), Some(10), 300, 20);
    assert_eq!((second.sum, second.count, second.window_start), (800, 2, None));
    let late = moving_average_step(Some(800), Some(2), Some(10), 100, 10 + WINDOW_SIZE_NS + 1);
    assert_eq!((late.sum, late.count, late.window_start), (100, 1, Some(10 + WINDOW_SIZE_NS + 1)));
    let edge = moving_average_step(Some(800), Some(2), Some(10), 100, 10 + WINDOW_SIZE_NS);
    assert_eq!((edge.sum, edge.count), (900, 3));
}

#[test]
fn log_strings_blank_out_nul_and_non_ascii() {
    let mut out = [0u8; 6];
    let text = buf_to_log_str(b"ab\0\xffc\n", &mut out);
    assert_eq!(&out, b"ab  c\n");
    assert_eq!(text, "ab  c\n");
}

#[test]
fn irss_filters() {
    assert_eq!(listen_port(None), 5020);
    assert_eq!(listen_port(Some(6000)), 6000);
    assert_eq!(raw_dest(None, 77), 77);
    assert_eq!(raw_dest(Some(5), 77), 5);
    assert!(keeps_received(5020, 5020));
    assert!(!keeps_received(5021, 5020));
    assert!(tx_dest_readable(false, 16));
    assert!(!tx_dest_readable(false, 15));
    assert!(!tx_dest_readable(true, 16));
    let addr = SockaddrIn { sin_family: 2, sin_port: 0, sin_addr: 0xfd0a0a0a, sin_zero: [0; 8] };
    assert_eq!(tx_dest(&addr), Some(0xfd0a0a0a));
    let v6 = SockaddrIn { sin_family: 10, ..addr };
    assert_eq!(tx_dest(&v6), None);
    assert!(tx_matches(Some(3), 3));
    assert!(!tx_matches(Some(4), 3));
    assert!(!tx_matches(None, 3));
    assert!(payload_key_readable(false, 1, false, 4));
    assert!(!payload_key_readable(false, 1, false, 3));
    assert!(!payload_key_readable(false, 0, false, 4));
    assert!(received_tag(4));
    assert!(!received_tag(3));
    assert!(!received_tag(-11));
    assert_eq!(forwarding_latency(100, 40), 60);
    assert_eq!(forwarding_latency(40, 100), 0);
    assert_eq!(accumulate_latency(None, None, 60), (60, 1));
    assert_eq!(accumulate_latency(Some(100), Some(2), 60), (160, 3));
}
