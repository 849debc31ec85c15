//! Definitions shared by the SCA eBPF program and its userspace side: the
//! hop endpoint record, the data flow of socket hops, and the tracepoints.

use vstd::prelude::*;

verus! {

/// One endpoint of a socket hop, as seen by the eBPF program.
///
/// The SOCKET_HOPS_MAP is keyed by (pid << 32) | fd so that every
/// (process, file descriptor) pair is unambiguous, and the value tells
/// the eBPF program which hop this endpoint belongs to and whether this
/// endpoint is the hop's sender (store timestamp) or receiver (look up
/// timestamp and report latency).
#[derive(Debug, Clone, Copy)]
pub struct HopEndpoint {
    /// Index into DATA_FLOW identifying the hop
    pub hop_index: u32,
    /// 1 if this endpoint is the sending process of the hop, 0 if it is
    /// the receiving (listening) process
    pub is_sender: u32,
    /// Unix socket path of the hop (NUL-padded, for logging)
    pub path: [u8; 32],
}

/// Number of hops in [`data_flow`].
pub const DATA_FLOW_LEN: u32 = 7;

/// Capacity of the socket hops map: each hop contributes up to two
/// entries, the sender's connected fd and the receiver's accepted fd.
pub const SOCKET_HOPS_MAP_MAX_ENTRIES: u32 = 14;

/// Data flow mapping: socket path -> (sending process name, receiving
/// process name). The index of each entry is the hop identifier used in the
/// timestamp map keys.
pub fn data_flow() -> (flow: Vec<(&'static str, &'static str, &'static str)>)
    ensures
        flow@ == seq![
            ("/tmp/DATA_L3_TO_INTERNAL_ROUTER", "DATA_SOURCE", "INTERNAL_ROUTER"),
            ("/tmp/DATA_L3_TO_WF_L", "INTERNAL_ROUTER", "RED_WF_COMM_L"),
            ("/tmp/WF_L_TO_FRAG", "RED_WF_COMM_L", "FRAGMENTER"),
            ("/tmp/FRAG_TO_IRSS_L", "FRAGMENTER", "RED_IRSS_COMM_L"),
            ("/tmp/IRSS_L_TO_FRAG", "RED_IRSS_COMM_L", "FRAGMENTER"),
            ("/tmp/FRAG_TO_COMM_WF_L", "FRAGMENTER", "RED_WF_COMM_L"),
            ("/tmp/DATA_L_TO_SINK", "RED_WF_COMM_L", "DATA_SINK"),
        ],
        flow.len() == DATA_FLOW_LEN,
        2 * flow.len() == SOCKET_HOPS_MAP_MAX_ENTRIES,
{
    vec![
        ("/tmp/DATA_L3_TO_INTERNAL_ROUTER", "DATA_SOURCE", "INTERNAL_ROUTER"),
        ("/tmp/DATA_L3_TO_WF_L", "INTERNAL_ROUTER", "RED_WF_COMM_L"),
        ("/tmp/WF_L_TO_FRAG", "RED_WF_COMM_L", "FRAGMENTER"),
        ("/tmp/FRAG_TO_IRSS_L", "FRAGMENTER", "RED_IRSS_COMM_L"),
        ("/tmp/IRSS_L_TO_FRAG", "RED_IRSS_COMM_L", "FRAGMENTER"),
        ("/tmp/FRAG_TO_COMM_WF_L", "FRAGMENTER", "RED_WF_COMM_L"),
        ("/tmp/DATA_L_TO_SINK", "RED_WF_COMM_L", "DATA_SINK"),
    ]
}

/// Tracepoint definitions, (eBPF program name, category, event): only the
/// send syscall is traced for latency calculation.
pub fn tracepoints() -> (points: Vec<(&'static str, &'static str, &'static str)>)
    ensures
        points@ == seq![("sys_enter_sendmsg", "syscalls", "sys_enter_sendmsg")],
{
    vec![("sys_enter_sendmsg", "syscalls", "sys_enter_sendmsg")]
}

/// The value of a map key packing `high` in the upper 32 bits and `low` in
/// the lower 32 bits.
pub open spec fn pair_value(high: u32, low: u32) -> int {
    high as int * 0x1_0000_0000 + low as int
}

/// Pack two u32s into a map key: `high` in the upper 32 bits, `low` in the
/// lower. Used for (pid, fd) endpoint keys and (hop_index, protocol) latency
/// keys alike.
pub fn pair_key(high: u32, low: u32) -> (key: u64)
    ensures
        key == pair_value(high, low),
{
    let key = ((high as u64) << 32) | (low as u64);
    assert(((high as u64) << 32) | (low as u64) == high as int * 0x1_0000_0000 + low as int)
        by (bit_vector);
    key
}

/// The upper half of a packed key (the pid of an endpoint key).
pub fn key_high(key: u64) -> (high: u32)
    ensures
        high == key / 0x1_0000_0000,
{
    let h = (key >> 32) as u32;
    assert((key >> 32) as u32 == key / 0x1_0000_0000) by (bit_vector);
    h
}

/// A packed key gives back both of its halves, so distinct pairs never
/// share a key.
pub proof fn lemma_pair_key_halves(high: u32, low: u32)
    ensures
        pair_value(high, low) / 0x1_0000_0000 == high,
        pair_value(high, low) % 0x1_0000_0000 == low,
        forall|h: u32, l: u32|
            #[trigger] pair_value(h, l) == pair_value(high, low) ==> h == high && l == low,
{
    assert forall|h: u32, l: u32| #[trigger]
        pair_value(h, l) == pair_value(high, low) implies h == high && l == low by {
        assert(pair_value(h, l) / 0x1_0000_0000 == h);
        assert(pair_value(high, low) / 0x1_0000_0000 == high);
    }
}

} // verus!
