//! Tests for the drop reason table: codes, names and decoding.

use bpfagent::kfree_skb_common::{reason_name, SkbDropReason, MAX_REASON_CODE};

#[test]
fn known_codes_decode_to_their_reason() {
    assert_eq!(SkbDropReason::from(0), SkbDropReason::NotSpecified);
    assert_eq!(SkbDropReason::from(3), SkbDropReason::NoSocket);
    assert_eq!(SkbDropReason::from(10), SkbDropReason::TcpCsum);
    assert_eq!(SkbDropReason::from(130), SkbDropReason::Max);
}

#[test]
fn codes_past_the_table_fold_into_max() {
    assert_eq!(SkbDropReason::from(131), SkbDropReason::Max);
    assert_eq!(SkbDropReason::from(u32::MAX), SkbDropReason::Max);
    assert_eq!(MAX_REASON_CODE, 130);
}

#[test]
fn every_code_round_trips() {
    for code in 0..=MAX_REASON_CODE {
        assert_eq!(SkbDropReason::from(code).code(), code);
    }
}

#[test]
fn names_match_the_kernel_enum() {
    assert_eq!(reason_name(SkbDropReason::NotSpecified), "NOT_SPECIFIED");
    assert_eq!(reason_name(SkbDropReason::NotSpecifiedReason), "NOT_SPECIFIED");
    assert_eq!(reason_name(SkbDropReason::Consumed), "CONSUMED");
    assert_eq!(reason_name(SkbDropReason::NoSocket), "NO_SOCKET");
    assert_eq!(reason_name(SkbDropReason::TcpCsum), "TCP_CSUM");
    assert_eq!(reason_name(SkbDropReason::from(64)), reason_name(SkbDropReason::from(64)));
    assert_eq!(reason_name(SkbDropReason::Max), "MAX");
}

#[test]
fn names_are_distinct_and_well_formed() {
    let mut seen = std::collections::HashMap::new();
    for code in 0..=MAX_REASON_CODE {
        let name = reason_name(SkbDropReason::from(code));
        assert!(!name.is_empty());
        assert!(name.bytes().all(|b| b.is_ascii_uppercase() || b.is_ascii_digit() || b == b'_'));
        if let Some(prev) = seen.insert(name, code) {
            assert_eq!((prev, code), (0, 2), "{} repeats", name);
        }
    }
}
