//! The SCA `sys_enter_sendmsg` program: per-hop NNG request/reply latency.
//!
//! For each tracked socket hop, a send by the hop's sending process (the
//! request) stores a timestamp under (hop_index << 32) | protocol; the send
//! of the reply by the receiving process looks the timestamp up and yields
//! the raw latency. A reply only goes out after the downstream hop has
//! completed, so the downstream hop's latency for the same message is
//! subtracted: the reported latency is each hop's own contribution. Per PID,
//! latencies are summed over a 2-second window that restarts when a sample
//! arrives after the window has elapsed.

use vstd::prelude::*;

use crate::sca_common::{pair_key, pair_value, HopEndpoint, DATA_FLOW_LEN};

verus! {

/// Arguments of the sys_enter_sendmsg tracepoint: 8 bytes of common
/// tracepoint fields, then the syscall number, then the syscall arguments
/// as unsigned longs.
pub struct SysEnterSendmsgArgs {
    pub _common: [u8; 8],
    pub _syscall_nr: u32,
    pub _pad: u32,
    pub fd: u64,
    pub msg: u64,
}

/// One sendmsg() on a tracked hop endpoint: the endpoint, the NNG header
/// fields, and log-friendly process/socket names.
pub struct SendEvent<'a> {
    pub endpoint: &'a HopEndpoint,
    pub pid: u32,
    pub fd: u32,
    pub proc_name: &'a str,
    pub sock_path: &'a str,
    pub protocol: u32,
    pub msg_type: u16,
}

/// Moving average window size: 2 seconds in nanoseconds.
pub const WINDOW_SIZE_NS: u64 = 2_000_000_000;

/// NNG SPF (Socket Protocol Framework) header size.
pub const NNG_SPF_SIZE: usize = 9;

/// Size of the NNG protocol field (REQ/REP).
pub const NNG_PROTOCOL_SIZE: usize = 4;

/// Size of the NNG message type field.
pub const NNG_MSG_TYPE_SIZE: usize = 2;

/// Total NNG header: SPF | protocol | message type.
pub const NNG_HEADER_SIZE: usize = 15;

/// The value of a big-endian u32.
pub open spec fn be_u32_value(b: Seq<u8>) -> int {
    b[0] as int * 0x100_0000 + b[1] as int * 0x1_0000 + b[2] as int * 0x100 + b[3] as int
}

/// The value of a big-endian u16.
pub open spec fn be_u16_value(b: Seq<u8>) -> int {
    b[0] as int * 0x100 + b[1] as int
}

/// Read a big-endian u32 from its four bytes.
pub fn be_u32(b: [u8; 4]) -> (v: u32)
    ensures
        v == be_u32_value(b@),
{
    (b[0] as u32) * 0x100_0000 + (b[1] as u32) * 0x1_0000 + (b[2] as u32) * 0x100 + (b[3] as u32)
}

/// Read a big-endian u16 from its two bytes.
pub fn be_u16(b: [u8; 2]) -> (v: u16)
    ensures
        v == be_u16_value(b@),
{
    (b[0] as u16) * 0x100 + (b[1] as u16)
}

/// Where the NNG header of a sendmsg() message is read from.
#[derive(Debug, Clone, Copy, PartialEq, Eq, Structural)]
pub enum HeaderSource {
    /// No readable header
    Absent,
    /// The whole header sits in the first iovec: protocol at offset 9,
    /// message type at offset 13
    FirstIov,
    /// The header is split: SPF in the first iovec, protocol in the second,
    /// message type in the third
    SplitIovs,
}

/// Where the header is, from the message's iovec array and its first
/// iovec: none without iovecs or with a null first buffer; the first iovec
/// when it holds the whole header; the split layout otherwise.
pub fn header_source(iov_is_null: bool, iov_count: usize, first_base_is_null: bool, first_len: usize) -> (source: HeaderSource)
    ensures
        source == (if iov_is_null || iov_count == 0 || first_base_is_null {
            HeaderSource::Absent
        } else if first_len >= NNG_HEADER_SIZE {
            HeaderSource::FirstIov
        } else {
            HeaderSource::SplitIovs
        }),
{
    if iov_is_null || iov_count == 0 || first_base_is_null {
        HeaderSource::Absent
    } else if first_len >= NNG_HEADER_SIZE {
        HeaderSource::FirstIov
    } else {
        HeaderSource::SplitIovs
    }
}

/// Whether a split header can be read: there are at least three iovecs,
/// the second holds the protocol and the third the message type.
pub fn split_header_readable(
    iov_count: usize,
    second_is_null: bool,
    second_len: usize,
    third_is_null: bool,
    third_len: usize,
) -> (readable: bool)
    ensures
        readable == (iov_count >= 3 && !second_is_null && second_len >= NNG_PROTOCOL_SIZE
            && !third_is_null && third_len >= NNG_MSG_TYPE_SIZE),
{
    iov_count >= 3 && !second_is_null && second_len >= NNG_PROTOCOL_SIZE && !third_is_null
        && third_len >= NNG_MSG_TYPE_SIZE
}

/// The (protocol, message type) of an NNG header held whole in `bytes`.
pub fn header_from_bytes(bytes: &[u8]) -> (header: Option<(u32, u16)>)
    ensures
        match header {
            Some((protocol, msg_type)) => bytes@.len() >= NNG_HEADER_SIZE && protocol
                == be_u32_value(bytes@.subrange(9, 13)) && msg_type == be_u16_value(
                bytes@.subrange(13, 15),
            ),
            None => bytes@.len() < NNG_HEADER_SIZE,
        },
{
    if bytes.len() < NNG_HEADER_SIZE {
        return None;
    }
    let protocol = be_u32([bytes[9], bytes[10], bytes[11], bytes[12]]);
    let msg_type = be_u16([bytes[13], bytes[14]]);
    Some((protocol, msg_type))
}

/// What a traced sendmsg() does.
#[derive(Debug, Clone, Copy, PartialEq, Eq, Structural)]
pub enum SendAction {
    /// Not a tracked endpoint, or no NNG header
    Skip,
    /// A request by the hop's sender: store the send timestamp under `key`
    StoreRequest { key: u64 },
    /// A reply by the hop's receiver: match the timestamp stored under `key`
    MatchReply { key: u64 },
}

/// The action of a sendmsg() on `endpoint` (if the (pid, fd) is tracked)
/// carrying `header` (if it has an NNG header): the hop's sender stores,
/// any other role matches, both under (hop_index << 32) | protocol.
pub fn send_action(endpoint: Option<HopEndpoint>, header: Option<(u32, u16)>) -> (action: SendAction)
    ensures
        action == match (endpoint, header) {
            (Some(e), Some((protocol, _))) => if e.is_sender == 1 {
                SendAction::StoreRequest { key: pair_value(e.hop_index, protocol) as u64 }
            } else {
                SendAction::MatchReply { key: pair_value(e.hop_index, protocol) as u64 }
            },
            _ => SendAction::Skip,
        },
{
    match (endpoint, header) {
        (Some(e), Some((protocol, _))) => {
            let key = pair_key(e.hop_index, protocol);
            if e.is_sender == 1 {
                SendAction::StoreRequest { key }
            } else {
                SendAction::MatchReply { key }
            }
        },
        _ => SendAction::Skip,
    }
}

/// The raw latency of a reply: the time since the stored request, or 0
/// (no sample) when no request is stored.
pub fn reply_latency(stored: Option<u64>, now: u64) -> (latency: u64)
    requires
        stored matches Some(t) ==> t <= now,
    ensures
        latency == match stored {
            Some(t) => (now - t) as u64,
            None => 0,
        },
{
    match stored {
        Some(t) => now - t,
        None => 0,
    }
}

/// The map keys of the downstream-latency exchange of a completed hop.
pub struct DownstreamKeys {
    /// Where this hop publishes its raw latency for its upstream hop; hop 0
    /// has no upstream and publishes nothing
    pub publish: Option<u64>,
    /// Where the downstream hop published its latency for the same message;
    /// the terminal hop has no downstream
    pub downstream: Option<u64>,
}

/// The keys a completed hop uses: it publishes its raw latency under its own
/// (hop, protocol) key unless it is hop 0, and reads the next hop's key
/// unless it is the last hop of the data flow.
pub fn downstream_keys(hop_index: u32, protocol: u32) -> (keys: DownstreamKeys)
    requires
        hop_index < u32::MAX,
    ensures
        keys.publish == (if hop_index > 0 {
            Some(pair_value(hop_index, protocol) as u64)
        } else {
            None::<u64>
        }),
        keys.downstream == (if hop_index + 1 < DATA_FLOW_LEN {
            Some(pair_value((hop_index + 1) as u32, protocol) as u64)
        } else {
            None::<u64>
        }),
{
    let key = pair_key(hop_index, protocol);
    let publish = if hop_index > 0 {
        Some(key)
    } else {
        None
    };
    let next = hop_index + 1;
    let downstream = if next < DATA_FLOW_LEN {
        Some(pair_key(next, protocol))
    } else {
        None
    };
    DownstreamKeys { publish, downstream }
}

/// A hop's own latency: the raw latency minus the downstream hop's latency
/// for the same message (saturating at 0), or the raw latency when there is
/// no downstream sample.
pub open spec fn own_latency(latency: u64, downstream: Option<u64>) -> u64 {
    match downstream {
        Some(d) => if latency >= d {
            (latency - d) as u64
        } else {
            0
        },
        None => latency,
    }
}

/// A hop's own latency, see [`own_latency`].
pub fn individual_latency(latency: u64, downstream: Option<u64>) -> (individual: u64)
    ensures
        individual == own_latency(latency, downstream),
{
    match downstream {
        Some(d) => latency.saturating_sub(d),
        None => latency,
    }
}

/// A PID's moving-average accumulators after one sample.
pub struct AverageUpdate {
    pub sum: u64,
    pub count: u64,
    /// New start of the window, when it (re)starts with this sample
    pub window_start: Option<u64>,
}

/// Whether the window that started at `window_start` has elapsed at `now`.
pub open spec fn window_elapsed(window_start: u64, now: u64) -> bool {
    now - window_start > WINDOW_SIZE_NS
}

/// Add a latency sample to a PID's window (missing accumulators read as 0):
/// when more than the window size has passed since the window started, the
/// sum and count restart from this sample and the window restarts now; a
/// first sample in an empty window also starts it now.
pub fn moving_average_step(
    sum: Option<u64>,
    count: Option<u64>,
    window_start: Option<u64>,
    latency: u64,
    now: u64,
) -> (update: AverageUpdate)
    requires
        window_start.unwrap_or(0) <= now,
        !window_elapsed(window_start.unwrap_or(0), now) ==> sum.unwrap_or(0) + latency <= u64::MAX
            && count.unwrap_or(0) < u64::MAX,
    ensures
        ({
            let s = sum.unwrap_or(0);
            let c = count.unwrap_or(0);
            let start = window_start.unwrap_or(0);
            if window_elapsed(start, now) {
                update.sum == latency && update.count == 1 && update.window_start == Some(now)
            } else {
                &&& update.sum == s + latency
                &&& update.count == c + 1
                &&& update.window_start == (if c == 0 {
                    Some(now)
                } else {
                    None::<u64>
                })
            }
        }),
{
    let mut s = match sum {
        Some(v) => v,
        None => 0,
    };
    let mut c = match count {
        Some(v) => v,
        None => 0,
    };
    let start = match window_start {
        Some(v) => v,
        None => 0,
    };
    let mut restart = None;
    if now - start > WINDOW_SIZE_NS {
        s = 0;
        c = 0;
        restart = Some(now);
    } else if c == 0 {
        restart = Some(now);
    }
    AverageUpdate { sum: s + latency, count: c + 1, window_start: restart }
}

/// The byte shown for `b` in a log string: NUL and non-ASCII bytes become
/// spaces.
pub open spec fn log_byte(b: u8) -> u8 {
    if b == 0 || b >= 128 {
        32u8
    } else {
        b
    }
}

/// Copy a NUL-padded buffer (kernel comm, socket path) into a fixed-size,
/// space-padded ASCII buffer suitable for logging, and give it as text.
pub fn buf_to_log_str<const N: usize>(buf: &[u8; N], out: &mut [u8; N]) -> (text: String)
    ensures
        final(out)@.len() == N,
        forall|i: int| 0 <= i < N ==> #[trigger] final(out)@[i] == log_byte(buf@[i]),
        text@.len() == N,
        forall|i: int| 0 <= i < N ==> #[trigger] text@[i] as u32 == log_byte(buf@[i]) as u32,
{
    let mut chars: Vec<char> = Vec::new();
    let mut i: usize = 0;
    while i < N
        invariant
            i <= N,
            out@.len() == N,
            buf@.len() == N,
            chars@.len() == i,
            forall|j: int| 0 <= j < i ==> #[trigger] out@[j] == log_byte(buf@[j]),
            forall|j: int| 0 <= j < i ==> #[trigger] chars@[j] as u32 == log_byte(buf@[j]) as u32,
        decreases N - i,
    {
        let b = buf[i];
        let shown: u8 = if b == 0 || b >= 128 {
            32u8
        } else {
            b
        };
        out[i] = shown;
        chars.push(shown as char);
        i = i + 1;
    }
    crate::text::string_from_chars(&chars)
}


/// A hop's own latency never exceeds its raw latency, and adding back the
/// downstream latency it subtracted gives the raw latency again unless the
/// subtraction saturated.
pub proof fn lemma_individual_at_most_raw(latency: u64, downstream: Option<u64>)
    ensures
        own_latency(latency, downstream) <= latency,
        downstream is Some && downstream.unwrap() <= latency ==> own_latency(latency, downstream)
            + downstream.unwrap() == latency,
{
}

} // verus!
