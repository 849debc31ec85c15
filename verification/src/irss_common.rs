//! Definitions shared by the IRSS eBPF program and its userspace side.

use vstd::prelude::*;

verus! {

/// Kernel function the IRSS RX port filter kprobes on. Its first argument is
/// the struct sock of the receiving socket, whose local port (skc_num) is
/// what the filter checks.
pub const KPROBE_FUNCTION: &'static str = "udp_recvmsg";

/// Size of the payload tag used as the timestamp map key: the first 4 bytes
/// of the UDP payload (RX) and of the raw-IP payload (TX), read big-endian.
pub const KEY_SIZE: usize = 4;

/// UDP port the IRSS component listens on. The RX filter only timestamps
/// datagrams received on this port. Used as the default when userspace does
/// not configure another port.
pub const LISTEN_PORT: u16 = 5020;

/// Single key of the listen port map entry holding the configured port.
pub const LISTEN_PORT_KEY: u32 = 0;

/// Destination of the raw-IP datagrams. The TX hook only matches sendmsg()
/// calls addressed here, so unrelated sendmsg traffic on the host cannot
/// consume timestamp records. Used as the default when userspace does not
/// configure another address.
pub const RAW_DEST: [u8; 4] = [10, 10, 10, 253];

/// Single key of the raw destination map entry holding the configured
/// raw-IP destination (network-order address bytes as a native u32).
pub const RAW_DEST_KEY: u32 = 0;

/// AF_INET address family (Linux), checked in the sendmsg() destination.
pub const AF_INET: u16 = 2;

/// Tracepoint definitions: (eBPF program name, category, event).
///
/// RX is an enter/exit pair: at sys_enter the receive buffer is still empty,
/// so only the user_msghdr pointer is stashed; the payload tag is read at
/// sys_exit once the kernel has filled the buffer. The `irss_udp_recvmsg`
/// kprobe sits between them and vetoes sockets whose local port does not
/// match the configured listen port. TX needs only sys_enter because the
/// data being sent is already in user memory.
pub fn tracepoints() -> (points: Vec<(&'static str, &'static str, &'static str)>)
    ensures
        points@ == seq![
            ("irss_sys_enter_recvmsg", "syscalls", "sys_enter_recvmsg"),
            ("irss_sys_exit_recvmsg", "syscalls", "sys_exit_recvmsg"),
            ("irss_sys_enter_sendmsg", "syscalls", "sys_enter_sendmsg"),
        ],
{
    vec![
        ("irss_sys_enter_recvmsg", "syscalls", "sys_enter_recvmsg"),
        ("irss_sys_exit_recvmsg", "syscalls", "sys_exit_recvmsg"),
        ("irss_sys_enter_sendmsg", "syscalls", "sys_enter_sendmsg"),
    ]
}

} // verus!
