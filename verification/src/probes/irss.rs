//! The IRSS programs: receipt timestamps of incoming UDP datagrams on the
//! listen port, matched by payload tag against outgoing raw-IP datagrams to
//! the configured destination; the forwarding latencies are accumulated for
//! the periodic moving average computed in userspace.

use vstd::prelude::*;

use crate::irss_common::{AF_INET, KEY_SIZE, LISTEN_PORT};
use crate::probes::sca::{be_u32, be_u32_value};

verus! {

/// Mirror of the sockaddr_in struct (IPv4 only).
pub struct SockaddrIn {
    pub sin_family: u16,
    /// big-endian
    pub sin_port: u16,
    /// big-endian
    pub sin_addr: u32,
    pub sin_zero: [u8; 8],
}

/// Arguments of the sys_enter_recvmsg and sys_enter_sendmsg tracepoints
/// (identical argument layout): 8 bytes of common tracepoint fields, then
/// the syscall number, then the syscall arguments as unsigned longs.
pub struct SysEnterMsgArgs {
    pub _common: [u8; 8],
    pub _syscall_nr: u32,
    pub _pad: u32,
    pub fd: u64,
    pub msg: u64,
}

/// Arguments of the sys_exit_recvmsg tracepoint: 8 bytes of common
/// tracepoint fields, then the syscall number, then the return value (bytes
/// received, or a negative errno).
pub struct SysExitArgs {
    pub _common: [u8; 8],
    pub _syscall_nr: i32,
    pub _pad: u32,
    pub ret: i64,
}

/// Size of a sockaddr_in in bytes.
pub const SOCKADDR_IN_SIZE: u32 = 16;

/// Offset of skc_num (the socket's local port, host byte order) in
/// `struct sock`.
pub const SK_NUM_OFFSET: usize = 14;

/// Single key of the latency accumulators.
pub const ACCUM_KEY: u32 = 0;

/// The UDP listen port the RX filter accepts: the configured one, or the
/// compiled-in default.
pub fn listen_port(configured: Option<u32>) -> (port: u32)
    ensures
        port == match configured {
            Some(p) => p,
            None => LISTEN_PORT as u32,
        },
{
    match configured {
        Some(p) => p,
        None => LISTEN_PORT as u32,
    }
}

/// The raw-IP destination the TX filter matches: the configured one, or the
/// compiled-in default in native byte order.
pub fn raw_dest(configured: Option<u32>, default_native: u32) -> (dest: u32)
    ensures
        dest == match configured {
            Some(d) => d,
            None => default_native,
        },
{
    match configured {
        Some(d) => d,
        None => default_native,
    }
}

/// Whether a received datagram is kept by the RX port filter: the
/// receiving socket's local port must be the configured listen port.
pub fn keeps_received(local_port: u16, configured_port: u32) -> (keep: bool)
    ensures
        keep == (local_port as u32 == configured_port),
{
    local_port as u32 == configured_port
}

/// Whether a sendmsg() names a destination address that can be read: a
/// non-null name at least as long as a sockaddr_in.
pub fn tx_dest_readable(name_is_null: bool, name_len: u32) -> (readable: bool)
    ensures
        readable == (!name_is_null && name_len >= SOCKADDR_IN_SIZE),
{
    !name_is_null && name_len >= SOCKADDR_IN_SIZE
}

/// The IPv4 destination of a sendmsg(), from its sockaddr: the address when
/// the family is AF_INET.
pub fn tx_dest(addr: &SockaddrIn) -> (dest: Option<u32>)
    ensures
        dest == (if addr.sin_family == AF_INET {
            Some(addr.sin_addr)
        } else {
            None::<u32>
        }),
{
    if addr.sin_family == AF_INET {
        Some(addr.sin_addr)
    } else {
        None
    }
}

/// Whether the payload tag can be read from a message: there is an iovec
/// array with a first iovec whose buffer is non-null and holds the tag.
pub fn payload_key_readable(iov_is_null: bool, iov_count: usize, first_base_is_null: bool, first_len: usize) -> (readable: bool)
    ensures
        readable == (!iov_is_null && iov_count > 0 && !first_base_is_null && first_len >= KEY_SIZE),
{
    !iov_is_null && iov_count > 0 && !first_base_is_null && first_len >= KEY_SIZE
}

/// The payload tag: the first four payload bytes, big-endian.
pub fn payload_key(first_bytes: [u8; 4]) -> (key: u32)
    ensures
        key == be_u32_value(first_bytes@),
{
    be_u32(first_bytes)
}

/// Whether a completed recvmsg() can carry a tag: it received at least
/// the tag's size.
pub fn received_tag(ret: i64) -> (carries: bool)
    ensures
        carries == (ret >= KEY_SIZE as i64),
{
    ret >= KEY_SIZE as i64
}

/// Whether a sendmsg() belongs to the data flow: it is addressed to the
/// configured raw-IP destination.
pub fn tx_matches(dest: Option<u32>, want: u32) -> (matches: bool)
    ensures
        matches == (dest == Some(want)),
{
    match dest {
        Some(d) => d == want,
        None => false,
    }
}

/// The forwarding latency of a matched datagram: the time since its receipt
/// (0 if the clock reads earlier).
pub fn forwarding_latency(now: u64, rx_timestamp: u64) -> (latency: u64)
    ensures
        latency == (if now >= rx_timestamp {
            (now - rx_timestamp) as u64
        } else {
            0
        }),
{
    now.saturating_sub(rx_timestamp)
}

/// The accumulators after one more matched latency (missing ones read as 0).
pub fn accumulate_latency(sum: Option<u64>, count: Option<u64>, latency: u64) -> (next: (u64, u64))
    requires
        sum.unwrap_or(0) + latency <= u64::MAX,
        count.unwrap_or(0) < u64::MAX,
    ensures
        next == ((sum.unwrap_or(0) + latency) as u64, (count.unwrap_or(0) + 1) as u64),
{
    let s = match sum {
        Some(v) => v,
        None => 0,
    };
    let c = match count {
        Some(v) => v,
        None => 0,
    };
    (s + latency, c + 1)
}

} // verus!
