//! Tests for the SCA `ss -xpH` output parsing used for hop discovery.

use bpfagent::programs::sca::{parse_ss_unix_stream, parse_ss_users};

const SAMPLE: &str = r#"
u_str ESTAB 0 0 /tmp/DATA_L3_TO_WF_L 1763138 * 1903128 users:(("RED_WF_COMM_L",pid=81593,fd=7))
u_str ESTAB 0 0 * 2371351 * 1887281 users:(("FRAGMENTER",pid=81594,fd=5))
u_str LISTEN 0 128 /tmp/DATA_L3_TO_WF_L 1763137 * 0 users:(("RED_WF_COMM_L",pid=81593,fd=3))
u_dgr ESTAB 0 0 /tmp/other 111 * 222 users:(("someone",pid=1,fd=2))
garbage line that should be skipped
"#;

#[test]
fn parses_users_column() {
    let pairs = parse_ss_users(r#"users:(("A",pid=123,fd=4),("B",pid=456,fd=7))"#);
    assert_eq!(pairs, vec![(123, 4), (456, 7)]);
}

#[test]
fn parses_users_column_single() {
    let pairs = parse_ss_users(r#"users:(("DATA_SINK",pid=76041,fd=4))"#);
    assert_eq!(pairs, vec![(76041, 4)]);
}

#[test]
fn parses_established_stream_with_path() {
    let recs = parse_ss_unix_stream(SAMPLE);
    let server = recs
        .iter()
        .find(|r| r.path.as_deref() == Some("/tmp/DATA_L3_TO_WF_L"))
        .expect("accepted socket with path should be parsed");
    assert_eq!(server.pid, 81593);
    assert_eq!(server.fd, 7);
    assert_eq!(server.inode, 1763138);
    assert_eq!(server.peer_inode, 1903128);
}

#[test]
fn parses_client_socket_without_path() {
    let recs = parse_ss_unix_stream(SAMPLE);
    let client = recs
        .iter()
        .find(|r| r.pid == 81594 && r.fd == 5)
        .expect("client socket should be parsed");
    assert_eq!(client.path, None);
    assert_eq!(client.inode, 2371351);
    assert_eq!(client.peer_inode, 1887281);
}

#[test]
fn skips_non_established_and_malformed_lines() {
    let recs = parse_ss_unix_stream(SAMPLE);
    // LISTEN and u_dgr lines and the garbage line must be skipped:
    // only the two u_str ESTAB records survive.
    assert_eq!(recs.len(), 2);
}

#[test]
fn empty_output_yields_nothing() {
    assert!(parse_ss_unix_stream("").is_empty());
}

#[test]
fn users_parsing_stops_at_a_malformed_entry() {
    // The second entry has no fd: parsing stops there
    let pairs = parse_ss_users(r#"users:(("A",pid=1,fd=2),("B",pid=3))"#);
    assert_eq!(pairs, vec![(1, 2)]);
    // A pid that does not fit in 32 bits stops parsing too
    assert_eq!(parse_ss_users("pid=99999999999,fd=1"), vec![]);
    assert_eq!(parse_ss_users(""), vec![]);
}

#[test]
fn one_record_per_process_sharing_a_socket() {
    let line = "u_str ESTAB 0 0 /tmp/x 10 * 20 users:((\"A\",pid=1,fd=3),(\"B\",pid=2,fd=4))";
    let recs = parse_ss_unix_stream(line);
    assert_eq!(recs.len(), 2);
    assert_eq!((recs[0].pid, recs[0].fd), (1, 3));
    assert_eq!((recs[1].pid, recs[1].fd), (2, 4));
    assert!(recs.iter().all(|r| r.inode == 10 && r.peer_inode == 20));
    assert!(recs.iter().all(|r| r.path.as_deref() == Some("/tmp/x")));
}

#[test]
fn lines_with_bad_inodes_or_too_few_fields_are_skipped() {
    let out = "u_str ESTAB 0 0 * abc * 20 users:((\"A\",pid=1,fd=3))\n\
               u_str ESTAB 0 0 * 10 * 20\n\
               u_str ESTAB 0 0 * +10 * 20 users:((\"A\",pid=1,fd=3))\r\n";
    let recs = parse_ss_unix_stream(out);
    assert_eq!(recs.len(), 1);
    assert_eq!(recs[0].inode, 10);
}

#[test]
fn parsing_is_line_by_line() {
    let a = "u_str ESTAB 0 0 /tmp/A 1 * 2 users:((\"X\",pid=1,fd=3))";
    let b = "u_str ESTAB 0 0 * 2 * 1 users:((\"Y\",pid=2,fd=4))\ngarbage";
    let key = |r: &bpfagent::programs::sca::UnixSockRec| (r.pid, r.fd, r.inode, r.peer_inode, r.path.clone());
    let joined: Vec<_> = parse_ss_unix_stream(&format!("{}\n{}", a, b)).iter().map(key).collect();
    let mut separate: Vec<_> = parse_ss_unix_stream(a).iter().map(key).collect();
    separate.extend(parse_ss_unix_stream(b).iter().map(key));
    assert_eq!(joined, separate);
    assert_eq!(joined.len(), 2);
}
