//! Tests for SCA hop discovery planning: which endpoints are inserted for
//! each hop, the display maps, and the cleanup after process restarts.

use std::collections::HashMap;

use bpfagent::programs::sca::{
    flow_process_names, hop_entry, latency_label, lookup_pid, pids_in_either, pids_named,
    plan_socket_hops, process_name_key, socket_fds, stale_endpoint_keys, stale_pids, UnixSockRec,
};
use bpfagent::sca_common::{data_flow, pair_key, DATA_FLOW_LEN, SOCKET_HOPS_MAP_MAX_ENTRIES};

fn sock(pid: u32, fd: u32, inode: u64, peer_inode: u64, path: Option<&str>) -> UnixSockRec {
    UnixSockRec { pid, fd, inode, peer_inode, path: path.map(str::to_string) }
}

#[test]
fn data_flow_has_seven_hops() {
    let flow = data_flow();
    assert_eq!(flow.len(), DATA_FLOW_LEN as usize);
    assert_eq!(SOCKET_HOPS_MAP_MAX_ENTRIES, 14);
    assert_eq!(flow[0], ("/tmp/DATA_L3_TO_INTERNAL_ROUTER", "DATA_SOURCE", "INTERNAL_ROUTER"));
    assert_eq!(flow[6], ("/tmp/DATA_L_TO_SINK", "RED_WF_COMM_L", "DATA_SINK"));
}

#[test]
fn process_names_are_listed_once_in_flow_order() {
    let names = flow_process_names(&data_flow());
    assert_eq!(
        names,
        vec![
            "DATA_SOURCE",
            "INTERNAL_ROUTER",
            "RED_WF_COMM_L",
            "FRAGMENTER",
            "RED_IRSS_COMM_L",
            "DATA_SINK"
        ]
    );
}

#[test]
fn endpoint_key_packs_pid_and_fd() {
    assert_eq!(pair_key(1, 2), (1u64 << 32) | 2);
    assert_eq!(pair_key(u32::MAX, u32::MAX), u64::MAX);
    assert_eq!(pair_key(0, 7), 7);
}

#[test]
fn hop_entry_truncates_the_path_to_32_bytes() {
    let s = sock(5, 9, 1, 2, None);
    let long = "/tmp/a_really_long_socket_path_name_beyond_32";
    let e = hop_entry(3, &s, 1, long);
    assert_eq!(e.key, (5u64 << 32) | 9);
    assert_eq!((e.hop_index, e.pid, e.fd), (3, 5, 9));
    assert_eq!((e.endpoint.hop_index, e.endpoint.is_sender), (3, 1));
    assert_eq!(&e.endpoint.path[..], &long.as_bytes()[..32]);
    let short = hop_entry(0, &s, 0, "/x");
    assert_eq!(&short.endpoint.path[..2], b"/x");
    assert!(short.endpoint.path[2..].iter().all(|&b| b == 0));
}

#[test]
fn plan_finds_both_endpoints_of_running_hops() {
    let flow = vec![
        ("/tmp/A", "SRC", "MID"),
        ("/tmp/B", "MID", "DST"),
        ("/tmp/C", "DST", "GONE"),
    ];
    let pids = vec![("SRC", 10), ("MID", 20), ("DST", 30)];
    let sockets = vec![
        sock(20, 5, 100, 101, Some("/tmp/A")),
        sock(10, 3, 101, 100, None),
        sock(30, 6, 200, 201, Some("/tmp/B")),
        sock(20, 7, 201, 200, None),
        sock(99, 1, 300, 301, None),
    ];
    let mut paths = HashMap::new();
    let mut names = HashMap::new();
    let plan = plan_socket_hops(&flow, &pids, &sockets, &mut paths, &mut names);
    let got: Vec<(u32, u32, u32, u32)> = plan
        .entries
        .iter()
        .map(|e| (e.hop_index, e.pid, e.fd, e.endpoint.is_sender))
        .collect();
    assert_eq!(got, vec![(0, 20, 5, 0), (0, 10, 3, 1), (1, 30, 6, 0), (1, 20, 7, 1)]);
    assert_eq!(plan.skipped, vec![2]);
    assert_eq!(names[&10], "SRC");
    assert_eq!(names[&20], "MID");
    assert_eq!(names[&30], "DST");
    assert_eq!(paths[&20], "/tmp/A");
    assert_eq!(paths[&30], "/tmp/B");
    assert_eq!(paths.len(), 2);
}

#[test]
fn a_process_receiving_on_several_hops_lists_every_path() {
    let flow = vec![("/tmp/A", "S", "R"), ("/tmp/B", "S", "R")];
    let pids = vec![("S", 1), ("R", 2)];
    let mut paths = HashMap::new();
    paths.insert(2, String::new());
    let mut names = HashMap::new();
    plan_socket_hops(&flow, &pids, &vec![], &mut paths, &mut names);
    assert_eq!(paths[&2], "/tmp/A, /tmp/B");
}

#[test]
fn pid_lookup_takes_the_first_match() {
    let pids = vec![("A", 1), ("B", 2), ("A", 3)];
    assert_eq!(lookup_pid(&pids, "A"), Some(1));
    assert_eq!(lookup_pid(&pids, "B"), Some(2));
    assert_eq!(lookup_pid(&pids, "C"), None);
}

#[test]
fn stale_keys_belong_to_dead_processes() {
    let keys = vec![pair_key(1, 3), pair_key(2, 4), pair_key(3, 5), pair_key(1, 9)];
    assert_eq!(stale_endpoint_keys(&keys, &vec![1, 3]), vec![pair_key(2, 4)]);
    assert_eq!(stale_endpoint_keys(&keys, &vec![]), keys);
    assert_eq!(stale_pids(&vec![5, 6, 7], &vec![6]), vec![5, 7]);
}

#[test]
fn pids_of_either_map_are_listed_once() {
    assert_eq!(pids_in_either(&vec![3, 1], &vec![1, 2, 3, 4]), vec![3, 1, 2, 4]);
    assert_eq!(pids_in_either(&vec![], &vec![]), Vec::<u32>::new());
}

#[test]
fn labels_name_the_process_and_pid() {
    let mut names = HashMap::new();
    names.insert(42, "FRAGMENTER".to_string());
    assert_eq!(latency_label(&names, 42), "FRAGMENTER (PID 42)");
    assert_eq!(latency_label(&names, 7), "unknown (PID 7)");
    assert_eq!(latency_label(&names, 0), "unknown (PID 0)");
    assert_eq!(latency_label(&names, u32::MAX), "unknown (PID 4294967295)");
}

#[test]
fn process_name_keys_are_zero_padded_and_truncated() {
    let key = process_name_key("DATA_SINK");
    assert_eq!(&key[..9], b"DATA_SINK");
    assert!(key[9..].iter().all(|&b| b == 0));
    let key = process_name_key("ABCDEFGHIJKLMNOPQRSTU");
    assert_eq!(&key[..], b"ABCDEFGHIJKLMNOP");
}

#[test]
fn processes_are_selected_by_command_name() {
    let procs = vec![
        (1, "FRAGMENTER".to_string()),
        (2, "DATA_SINK".to_string()),
        (3, "FRAGMENTER".to_string()),
    ];
    assert_eq!(pids_named(&procs, "FRAGMENTER"), vec![1, 3]);
    assert_eq!(pids_named(&procs, "NOBODY"), Vec::<u32>::new());
    assert_eq!(socket_fds(&vec![(0, false), (3, true), (4, false), (7, true)]), vec![3, 7]);
}
