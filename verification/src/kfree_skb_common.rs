//! Packet drop reasons of the kernel's `enum skb_drop_reason`, as counted by
//! the `skb:kfree_skb` tracepoint, with their numeric codes and display names.

use vstd::prelude::*;

verus! {

/// Drop reason matching the kernel's `enum skb_drop_reason`.
///
/// Each variant stands for one numeric code (see [`SkbDropReason::code`]);
/// raw values past the last known code are folded into `Max`.
#[derive(Clone, Copy, Debug, PartialEq, Eq, Structural)]
pub enum SkbDropReason {
    /// Not dropped yet (code 0)
    NotSpecified,
    /// Packet has been consumed (code 1)
    Consumed,
    /// Drop reason is not specified (code 2)
    NotSpecifiedReason,
    /// No valid socket found (code 3)
    NoSocket,
    /// Socket is closed (code 4)
    SocketClose,
    /// Dropped by socket filter (code 5)
    SocketFilter,
    /// Socket receive buffer is full (code 6)
    SocketRcvbuff,
    /// Unix socket disconnect (code 7)
    UnixDisconnect,
    /// Unix socket OOB skipped (code 8)
    UnixSkipOob,
    /// Packet size too small (code 9)
    PktTooSmall,
    /// TCP checksum error (code 10)
    TcpCsum,
    /// UDP checksum error (code 11)
    UdpCsum,
    /// Dropped by netfilter (code 12)
    NetfilterDrop,
    /// Packet doesn't belong to current host (code 13)
    OtherHost,
    /// IP checksum error (code 14)
    IpCsum,
    /// IP header error (code 15)
    IpInhdr,
    /// IP reverse path filter failed (code 16)
    IpRpfilter,
    /// L2 multicast with L3 unicast (code 17)
    UnicastInL2Multicast,
    /// XFRM policy check failed (code 18)
    XfrmPolicy,
    /// IP protocol not supported (code 19)
    IpNoProto,
    /// Protocol memory limitation (code 20)
    ProtoMem,
    /// TCP auth header error (code 21)
    TcpAuthHdr,
    /// TCP MD5 hash not found (code 22)
    TcpMd5NotFound,
    /// TCP MD5 hash unexpected (code 23)
    TcpMd5Unexpected,
    /// TCP MD5 hash wrong (code 24)
    TcpMd5Failure,
    /// TCP AO hash not found (code 25)
    TcpAoNotFound,
    /// TCP AO hash unexpected (code 26)
    TcpAoUnexpected,
    /// TCP AO key not found (code 27)
    TcpAoKeyNotFound,
    /// TCP AO failure (code 28)
    TcpAoFailure,
    /// Socket backlog failed (code 29)
    SocketBacklog,
    /// TCP flags invalid (code 30)
    TcpFlags,
    /// TCP abort on data (code 31)
    TcpAbortOnData,
    /// TCP zero window (code 32)
    TcpZeroWindow,
    /// TCP old data (code 33)
    TcpOldData,
    /// TCP over window (code 34)
    TcpOverWindow,
    /// TCP OFO merge (code 35)
    TcpOfoMerge,
    /// TCP PAWS (code 36)
    TcpRfc7323Paws,
    /// TCP PAWS ACK (code 37)
    TcpRfc7323PawsAck,
    /// TCP TW PAWS (code 38)
    TcpRfc7323TwPaws,
    /// TCP TS ECR (code 39)
    TcpRfc7323Tsecr,
    /// TCP listen overflow (code 40)
    TcpListenOverflow,
    /// TCP old sequence (code 41)
    TcpOldSequence,
    /// TCP invalid sequence (code 42)
    TcpInvalidSequence,
    /// TCP invalid end sequence (code 43)
    TcpInvalidEndSequence,
    /// TCP invalid ACK sequence (code 44)
    TcpInvalidAckSequence,
    /// TCP reset (code 45)
    TcpReset,
    /// TCP invalid SYN (code 46)
    TcpInvalidSyn,
    /// TCP close (code 47)
    TcpClose,
    /// TCP fast open (code 48)
    TcpFastOpen,
    /// TCP old ACK (code 49)
    TcpOldAck,
    /// TCP too old ACK (code 50)
    TcpTooOldAck,
    /// TCP ACK unsent data (code 51)
    TcpAckUnsentData,
    /// TCP OFO queue prune (code 52)
    TcpOfoQueuePrune,
    /// TCP OFO drop (code 53)
    TcpOfoDrop,
    /// IP no routes (code 54)
    IpOutNoRoutes,
    /// BPF cgroup egress (code 55)
    BpfCgroupEgress,
    /// IPv6 disabled (code 56)
    Ipv6Disabled,
    /// Neighbor create failed (code 57)
    NeighCreateFail,
    /// Neighbor failed (code 58)
    NeighFailed,
    /// Neighbor queue full (code 59)
    NeighQueueFull,
    /// Neighbor dead (code 60)
    NeighDead,
    /// Neighbor HH fill failed (code 61)
    NeighHhFillFail,
    /// TC egress (code 62)
    TcEgress,
    /// Security hook (code 63)
    SecurityHook,
    /// Qdisc drop (code 64)
    QdiscDrop,
    /// Qdisc burst drop (code 65)
    QdiscBurstDrop,
    /// Qdisc overlimit (code 66)
    QdiscOverlimit,
    /// Qdisc congested (code 67)
    QdiscCongested,
    /// Cake flood (code 68)
    CakeFlood,
    /// FQ band limit (code 69)
    FqBandLimit,
    /// FQ horizon limit (code 70)
    FqHorizonLimit,
    /// FQ flow limit (code 71)
    FqFlowLimit,
    /// CPU backlog (code 72)
    CpuBacklog,
    /// XDP (code 73)
    Xdp,
    /// TC ingress (code 74)
    TcIngress,
    /// Unhandled protocol (code 75)
    UnhandledProto,
    /// SKB checksum (code 76)
    SkbCsum,
    /// SKB GSO segment (code 77)
    SkbGsoSeg,
    /// SKB bad GSO (code 78)
    SkbBadGso,
    /// SKB ucopy fault (code 79)
    SkbUcopyFault,
    /// Device header (code 80)
    DevHdr,
    /// Device ready (code 81)
    DevReady,
    /// Full ring (code 82)
    FullRing,
    /// No memory (code 83)
    NoMem,
    /// Header truncate (code 84)
    HdrTrunc,
    /// TAP filter (code 85)
    TapFilter,
    /// TAP TX filter (code 86)
    TapTxFilter,
    /// ICMP checksum (code 87)
    IcmpCsum,
    /// Invalid protocol (code 88)
    InvalidProto,
    /// IP address errors (code 89)
    IpInaddrErrors,
    /// IP no routes (code 90)
    IpInNoRoutes,
    /// IP local source (code 91)
    IpLocalSource,
    /// IP invalid source (code 92)
    IpInvalidSource,
    /// IP localnet (code 93)
    IpLocalnet,
    /// IP invalid dest (code 94)
    IpInvalidDest,
    /// Packet too big (code 95)
    PktTooBig,
    /// Duplicate fragment (code 96)
    DupFrag,
    /// Fragment reassembly timeout (code 97)
    FragReasmTimeout,
    /// Fragment too far (code 98)
    FragTooFar,
    /// TCP minimum TTL (code 99)
    TcpMinTtl,
    /// IPv6 bad ext header (code 100)
    Ipv6BadExthdr,
    /// IPv6 NDISC frag (code 101)
    Ipv6NdiscFrag,
    /// IPv6 NDISC hop limit (code 102)
    Ipv6NdiscHopLimit,
    /// IPv6 NDISC bad code (code 103)
    Ipv6NdiscBadCode,
    /// IPv6 NDISC bad options (code 104)
    Ipv6NdiscBadOptions,
    /// IPv6 NDISC NS otherhost (code 105)
    Ipv6NdiscNsOtherhost,
    /// Queue purge (code 106)
    QueuePurge,
    /// TC cookie error (code 107)
    TcCookieError,
    /// Packet socket error (code 108)
    PacketSocketError,
    /// TC chain not found (code 109)
    TcChainNotFound,
    /// TC reclassify loop (code 110)
    TcReclassifyLoop,
    /// VXLAN invalid header (code 111)
    VxlanInvalidHdr,
    /// VXLAN VNI not found (code 112)
    VxlanVniNotFound,
    /// MAC invalid source (code 113)
    MacInvalidSource,
    /// VXLAN entry exists (code 114)
    VxlanEntryExists,
    /// No TX target (code 115)
    NoTxTarget,
    /// IP tunnel ECN (code 116)
    IpTunnelEcn,
    /// Tunnel TX info (code 117)
    TunnelTxinfo,
    /// Local MAC (code 118)
    LocalMac,
    /// ARP PVLAN disable (code 119)
    ArpPvlanDisable,
    /// MAC IEEE MAC control (code 120)
    MacIeeeMacControl,
    /// Bridge ingress STP state (code 121)
    BridgeIngressStpState,
    /// CAN RX invalid frame (code 122)
    CanRxInvalidFrame,
    /// CAN FD RX invalid frame (code 123)
    CanfdRxInvalidFrame,
    /// CAN XL RX invalid frame (code 124)
    CanxlRxInvalidFrame,
    /// PFMEMALLOC (code 125)
    PmemAlloc,
    /// DualPI2 step drop (code 126)
    DualPi2StepDrop,
    /// PSP input (code 127)
    PspInput,
    /// PSP output (code 128)
    PspOutput,
    /// Recursion limit (code 129)
    RecursionLimit,
    /// MAX (code 130)
    Max,
}

/// Largest numeric drop-reason code that has a variant of its own.
pub const MAX_REASON_CODE: u32 = 130;

impl SkbDropReason {
    /// The numeric code of this reason in the kernel's enum.
    pub open spec fn spec_code(self) -> u32 {
        match self {
            SkbDropReason::NotSpecified => 0,
            SkbDropReason::Consumed => 1,
            SkbDropReason::NotSpecifiedReason => 2,
            SkbDropReason::NoSocket => 3,
            SkbDropReason::SocketClose => 4,
            SkbDropReason::SocketFilter => 5,
            SkbDropReason::SocketRcvbuff => 6,
            SkbDropReason::UnixDisconnect => 7,
            SkbDropReason::UnixSkipOob => 8,
            SkbDropReason::PktTooSmall => 9,
            SkbDropReason::TcpCsum => 10,
            SkbDropReason::UdpCsum => 11,
            SkbDropReason::NetfilterDrop => 12,
            SkbDropReason::OtherHost => 13,
            SkbDropReason::IpCsum => 14,
            SkbDropReason::IpInhdr => 15,
            SkbDropReason::IpRpfilter => 16,
            SkbDropReason::UnicastInL2Multicast => 17,
            SkbDropReason::XfrmPolicy => 18,
            SkbDropReason::IpNoProto => 19,
            SkbDropReason::ProtoMem => 20,
            SkbDropReason::TcpAuthHdr => 21,
            SkbDropReason::TcpMd5NotFound => 22,
            SkbDropReason::TcpMd5Unexpected => 23,
            SkbDropReason::TcpMd5Failure => 24,
            SkbDropReason::TcpAoNotFound => 25,
            SkbDropReason::TcpAoUnexpected => 26,
            SkbDropReason::TcpAoKeyNotFound => 27,
            SkbDropReason::TcpAoFailure => 28,
            SkbDropReason::SocketBacklog => 29,
            SkbDropReason::TcpFlags => 30,
            SkbDropReason::TcpAbortOnData => 31,
            SkbDropReason::TcpZeroWindow => 32,
            SkbDropReason::TcpOldData => 33,
            SkbDropReason::TcpOverWindow => 34,
            SkbDropReason::TcpOfoMerge => 35,
            SkbDropReason::TcpRfc7323Paws => 36,
            SkbDropReason::TcpRfc7323PawsAck => 37,
            SkbDropReason::TcpRfc7323TwPaws => 38,
            SkbDropReason::TcpRfc7323Tsecr => 39,
            SkbDropReason::TcpListenOverflow => 40,
            SkbDropReason::TcpOldSequence => 41,
            SkbDropReason::TcpInvalidSequence => 42,
            SkbDropReason::TcpInvalidEndSequence => 43,
            SkbDropReason::TcpInvalidAckSequence => 44,
            SkbDropReason::TcpReset => 45,
            SkbDropReason::TcpInvalidSyn => 46,
            SkbDropReason::TcpClose => 47,
            SkbDropReason::TcpFastOpen => 48,
            SkbDropReason::TcpOldAck => 49,
            SkbDropReason::TcpTooOldAck => 50,
            SkbDropReason::TcpAckUnsentData => 51,
            SkbDropReason::TcpOfoQueuePrune => 52,
            SkbDropReason::TcpOfoDrop => 53,
            SkbDropReason::IpOutNoRoutes => 54,
            SkbDropReason::BpfCgroupEgress => 55,
            SkbDropReason::Ipv6Disabled => 56,
            SkbDropReason::NeighCreateFail => 57,
            SkbDropReason::NeighFailed => 58,
            SkbDropReason::NeighQueueFull => 59,
            SkbDropReason::NeighDead => 60,
            SkbDropReason::NeighHhFillFail => 61,
            SkbDropReason::TcEgress => 62,
            SkbDropReason::SecurityHook => 63,
            SkbDropReason::QdiscDrop => 64,
            SkbDropReason::QdiscBurstDrop => 65,
            SkbDropReason::QdiscOverlimit => 66,
            SkbDropReason::QdiscCongested => 67,
            SkbDropReason::CakeFlood => 68,
            SkbDropReason::FqBandLimit => 69,
            SkbDropReason::FqHorizonLimit => 70,
            SkbDropReason::FqFlowLimit => 71,
            SkbDropReason::CpuBacklog => 72,
            SkbDropReason::Xdp => 73,
            SkbDropReason::TcIngress => 74,
            SkbDropReason::UnhandledProto => 75,
            SkbDropReason::SkbCsum => 76,
            SkbDropReason::SkbGsoSeg => 77,
            SkbDropReason::SkbBadGso => 78,
            SkbDropReason::SkbUcopyFault => 79,
            SkbDropReason::DevHdr => 80,
            SkbDropReason::DevReady => 81,
            SkbDropReason::FullRing => 82,
            SkbDropReason::NoMem => 83,
            SkbDropReason::HdrTrunc => 84,
            SkbDropReason::TapFilter => 85,
            SkbDropReason::TapTxFilter => 86,
            SkbDropReason::IcmpCsum => 87,
            SkbDropReason::InvalidProto => 88,
            SkbDropReason::IpInaddrErrors => 89,
            SkbDropReason::IpInNoRoutes => 90,
            SkbDropReason::IpLocalSource => 91,
            SkbDropReason::IpInvalidSource => 92,
            SkbDropReason::IpLocalnet => 93,
            SkbDropReason::IpInvalidDest => 94,
            SkbDropReason::PktTooBig => 95,
            SkbDropReason::DupFrag => 96,
            SkbDropReason::FragReasmTimeout => 97,
            SkbDropReason::FragTooFar => 98,
            SkbDropReason::TcpMinTtl => 99,
            SkbDropReason::Ipv6BadExthdr => 100,
            SkbDropReason::Ipv6NdiscFrag => 101,
            SkbDropReason::Ipv6NdiscHopLimit => 102,
            SkbDropReason::Ipv6NdiscBadCode => 103,
            SkbDropReason::Ipv6NdiscBadOptions => 104,
            SkbDropReason::Ipv6NdiscNsOtherhost => 105,
            SkbDropReason::QueuePurge => 106,
            SkbDropReason::TcCookieError => 107,
            SkbDropReason::PacketSocketError => 108,
            SkbDropReason::TcChainNotFound => 109,
            SkbDropReason::TcReclassifyLoop => 110,
            SkbDropReason::VxlanInvalidHdr => 111,
            SkbDropReason::VxlanVniNotFound => 112,
            SkbDropReason::MacInvalidSource => 113,
            SkbDropReason::VxlanEntryExists => 114,
            SkbDropReason::NoTxTarget => 115,
            SkbDropReason::IpTunnelEcn => 116,
            SkbDropReason::TunnelTxinfo => 117,
            SkbDropReason::LocalMac => 118,
            SkbDropReason::ArpPvlanDisable => 119,
            SkbDropReason::MacIeeeMacControl => 120,
            SkbDropReason::BridgeIngressStpState => 121,
            SkbDropReason::CanRxInvalidFrame => 122,
            SkbDropReason::CanfdRxInvalidFrame => 123,
            SkbDropReason::CanxlRxInvalidFrame => 124,
            SkbDropReason::PmemAlloc => 125,
            SkbDropReason::DualPi2StepDrop => 126,
            SkbDropReason::PspInput => 127,
            SkbDropReason::PspOutput => 128,
            SkbDropReason::RecursionLimit => 129,
            SkbDropReason::Max => 130,
        }
    }

    /// The numeric code of this reason in the kernel's enum.
    pub fn code(self) -> (c: u32)
        ensures
            c == self.spec_code(),
    {
        match self {
            SkbDropReason::NotSpecified => 0,
            SkbDropReason::Consumed => 1,
            SkbDropReason::NotSpecifiedReason => 2,
            SkbDropReason::NoSocket => 3,
            SkbDropReason::SocketClose => 4,
            SkbDropReason::SocketFilter => 5,
            SkbDropReason::SocketRcvbuff => 6,
            SkbDropReason::UnixDisconnect => 7,
            SkbDropReason::UnixSkipOob => 8,
            SkbDropReason::PktTooSmall => 9,
            SkbDropReason::TcpCsum => 10,
            SkbDropReason::UdpCsum => 11,
            SkbDropReason::NetfilterDrop => 12,
            SkbDropReason::OtherHost => 13,
            SkbDropReason::IpCsum => 14,
            SkbDropReason::IpInhdr => 15,
            SkbDropReason::IpRpfilter => 16,
            SkbDropReason::UnicastInL2Multicast => 17,
            SkbDropReason::XfrmPolicy => 18,
            SkbDropReason::IpNoProto => 19,
            SkbDropReason::ProtoMem => 20,
            SkbDropReason::TcpAuthHdr => 21,
            SkbDropReason::TcpMd5NotFound => 22,
            SkbDropReason::TcpMd5Unexpected => 23,
            SkbDropReason::TcpMd5Failure => 24,
            SkbDropReason::TcpAoNotFound => 25,
            SkbDropReason::TcpAoUnexpected => 26,
            SkbDropReason::TcpAoKeyNotFound => 27,
            SkbDropReason::TcpAoFailure => 28,
            SkbDropReason::SocketBacklog => 29,
            SkbDropReason::TcpFlags => 30,
            SkbDropReason::TcpAbortOnData => 31,
            SkbDropReason::TcpZeroWindow => 32,
            SkbDropReason::TcpOldData => 33,
            SkbDropReason::TcpOverWindow => 34,
            SkbDropReason::TcpOfoMerge => 35,
            SkbDropReason::TcpRfc7323Paws => 36,
            SkbDropReason::TcpRfc7323PawsAck => 37,
            SkbDropReason::TcpRfc7323TwPaws => 38,
            SkbDropReason::TcpRfc7323Tsecr => 39,
            SkbDropReason::TcpListenOverflow => 40,
            SkbDropReason::TcpOldSequence => 41,
            SkbDropReason::TcpInvalidSequence => 42,
            SkbDropReason::TcpInvalidEndSequence => 43,
            SkbDropReason::TcpInvalidAckSequence => 44,
            SkbDropReason::TcpReset => 45,
            SkbDropReason::TcpInvalidSyn => 46,
            SkbDropReason::TcpClose => 47,
            SkbDropReason::TcpFastOpen => 48,
            SkbDropReason::TcpOldAck => 49,
            SkbDropReason::TcpTooOldAck => 50,
            SkbDropReason::TcpAckUnsentData => 51,
            SkbDropReason::TcpOfoQueuePrune => 52,
            SkbDropReason::TcpOfoDrop => 53,
            SkbDropReason::IpOutNoRoutes => 54,
            SkbDropReason::BpfCgroupEgress => 55,
            SkbDropReason::Ipv6Disabled => 56,
            SkbDropReason::NeighCreateFail => 57,
            SkbDropReason::NeighFailed => 58,
            SkbDropReason::NeighQueueFull => 59,
            SkbDropReason::NeighDead => 60,
            SkbDropReason::NeighHhFillFail => 61,
            SkbDropReason::TcEgress => 62,
            SkbDropReason::SecurityHook => 63,
            SkbDropReason::QdiscDrop => 64,
            SkbDropReason::QdiscBurstDrop => 65,
            SkbDropReason::QdiscOverlimit => 66,
            SkbDropReason::QdiscCongested => 67,
            SkbDropReason::CakeFlood => 68,
            SkbDropReason::FqBandLimit => 69,
            SkbDropReason::FqHorizonLimit => 70,
            SkbDropReason::FqFlowLimit => 71,
            SkbDropReason::CpuBacklog => 72,
            SkbDropReason::Xdp => 73,
            SkbDropReason::TcIngress => 74,
            SkbDropReason::UnhandledProto => 75,
            SkbDropReason::SkbCsum => 76,
            SkbDropReason::SkbGsoSeg => 77,
            SkbDropReason::SkbBadGso => 78,
            SkbDropReason::SkbUcopyFault => 79,
            SkbDropReason::DevHdr => 80,
            SkbDropReason::DevReady => 81,
            SkbDropReason::FullRing => 82,
            SkbDropReason::NoMem => 83,
            SkbDropReason::HdrTrunc => 84,
            SkbDropReason::TapFilter => 85,
            SkbDropReason::TapTxFilter => 86,
            SkbDropReason::IcmpCsum => 87,
            SkbDropReason::InvalidProto => 88,
            SkbDropReason::IpInaddrErrors => 89,
            SkbDropReason::IpInNoRoutes => 90,
            SkbDropReason::IpLocalSource => 91,
            SkbDropReason::IpInvalidSource => 92,
            SkbDropReason::IpLocalnet => 93,
            SkbDropReason::IpInvalidDest => 94,
            SkbDropReason::PktTooBig => 95,
            SkbDropReason::DupFrag => 96,
            SkbDropReason::FragReasmTimeout => 97,
            SkbDropReason::FragTooFar => 98,
            SkbDropReason::TcpMinTtl => 99,
            SkbDropReason::Ipv6BadExthdr => 100,
            SkbDropReason::Ipv6NdiscFrag => 101,
            SkbDropReason::Ipv6NdiscHopLimit => 102,
            SkbDropReason::Ipv6NdiscBadCode => 103,
            SkbDropReason::Ipv6NdiscBadOptions => 104,
            SkbDropReason::Ipv6NdiscNsOtherhost => 105,
            SkbDropReason::QueuePurge => 106,
            SkbDropReason::TcCookieError => 107,
            SkbDropReason::PacketSocketError => 108,
            SkbDropReason::TcChainNotFound => 109,
            SkbDropReason::TcReclassifyLoop => 110,
            SkbDropReason::VxlanInvalidHdr => 111,
            SkbDropReason::VxlanVniNotFound => 112,
            SkbDropReason::MacInvalidSource => 113,
            SkbDropReason::VxlanEntryExists => 114,
            SkbDropReason::NoTxTarget => 115,
            SkbDropReason::IpTunnelEcn => 116,
            SkbDropReason::TunnelTxinfo => 117,
            SkbDropReason::LocalMac => 118,
            SkbDropReason::ArpPvlanDisable => 119,
            SkbDropReason::MacIeeeMacControl => 120,
            SkbDropReason::BridgeIngressStpState => 121,
            SkbDropReason::CanRxInvalidFrame => 122,
            SkbDropReason::CanfdRxInvalidFrame => 123,
            SkbDropReason::CanxlRxInvalidFrame => 124,
            SkbDropReason::PmemAlloc => 125,
            SkbDropReason::DualPi2StepDrop => 126,
            SkbDropReason::PspInput => 127,
            SkbDropReason::PspOutput => 128,
            SkbDropReason::RecursionLimit => 129,
            SkbDropReason::Max => 130,
        }
    }
}

/// The reason that a raw tracepoint value denotes: the variant whose code it
/// is, or `Max` for any value past the known codes.
pub open spec fn reason_from_code(v: u32) -> SkbDropReason {
    match v {
        0u32 => SkbDropReason::NotSpecified,
        1u32 => SkbDropReason::Consumed,
        2u32 => SkbDropReason::NotSpecifiedReason,
        3u32 => SkbDropReason::NoSocket,
        4u32 => SkbDropReason::SocketClose,
        5u32 => SkbDropReason::SocketFilter,
        6u32 => SkbDropReason::SocketRcvbuff,
        7u32 => SkbDropReason::UnixDisconnect,
        8u32 => SkbDropReason::UnixSkipOob,
        9u32 => SkbDropReason::PktTooSmall,
        10u32 => SkbDropReason::TcpCsum,
        11u32 => SkbDropReason::UdpCsum,
        12u32 => SkbDropReason::NetfilterDrop,
        13u32 => SkbDropReason::OtherHost,
        14u32 => SkbDropReason::IpCsum,
        15u32 => SkbDropReason::IpInhdr,
        16u32 => SkbDropReason::IpRpfilter,
        17u32 => SkbDropReason::UnicastInL2Multicast,
        18u32 => SkbDropReason::XfrmPolicy,
        19u32 => SkbDropReason::IpNoProto,
        20u32 => SkbDropReason::ProtoMem,
        21u32 => SkbDropReason::TcpAuthHdr,
        22u32 => SkbDropReason::TcpMd5NotFound,
        23u32 => SkbDropReason::TcpMd5Unexpected,
        24u32 => SkbDropReason::TcpMd5Failure,
        25u32 => SkbDropReason::TcpAoNotFound,
        26u32 => SkbDropReason::TcpAoUnexpected,
        27u32 => SkbDropReason::TcpAoKeyNotFound,
        28u32 => SkbDropReason::TcpAoFailure,
        29u32 => SkbDropReason::SocketBacklog,
        30u32 => SkbDropReason::TcpFlags,
        31u32 => SkbDropReason::TcpAbortOnData,
        32u32 => SkbDropReason::TcpZeroWindow,
        33u32 => SkbDropReason::TcpOldData,
        34u32 => SkbDropReason::TcpOverWindow,
        35u32 => SkbDropReason::TcpOfoMerge,
        36u32 => SkbDropReason::TcpRfc7323Paws,
        37u32 => SkbDropReason::TcpRfc7323PawsAck,
        38u32 => SkbDropReason::TcpRfc7323TwPaws,
        39u32 => SkbDropReason::TcpRfc7323Tsecr,
        40u32 => SkbDropReason::TcpListenOverflow,
        41u32 => SkbDropReason::TcpOldSequence,
        42u32 => SkbDropReason::TcpInvalidSequence,
        43u32 => SkbDropReason::TcpInvalidEndSequence,
        44u32 => SkbDropReason::TcpInvalidAckSequence,
        45u32 => SkbDropReason::TcpReset,
        46u32 => SkbDropReason::TcpInvalidSyn,
        47u32 => SkbDropReason::TcpClose,
        48u32 => SkbDropReason::TcpFastOpen,
        49u32 => SkbDropReason::TcpOldAck,
        50u32 => SkbDropReason::TcpTooOldAck,
        51u32 => SkbDropReason::TcpAckUnsentData,
        52u32 => SkbDropReason::TcpOfoQueuePrune,
        53u32 => SkbDropReason::TcpOfoDrop,
        54u32 => SkbDropReason::IpOutNoRoutes,
        55u32 => SkbDropReason::BpfCgroupEgress,
        56u32 => SkbDropReason::Ipv6Disabled,
        57u32 => SkbDropReason::NeighCreateFail,
        58u32 => SkbDropReason::NeighFailed,
        59u32 => SkbDropReason::NeighQueueFull,
        60u32 => SkbDropReason::NeighDead,
        61u32 => SkbDropReason::NeighHhFillFail,
        62u32 => SkbDropReason::TcEgress,
        63u32 => SkbDropReason::SecurityHook,
        64u32 => SkbDropReason::QdiscDrop,
        65u32 => SkbDropReason::QdiscBurstDrop,
        66u32 => SkbDropReason::QdiscOverlimit,
        67u32 => SkbDropReason::QdiscCongested,
        68u32 => SkbDropReason::CakeFlood,
        69u32 => SkbDropReason::FqBandLimit,
        70u32 => SkbDropReason::FqHorizonLimit,
        71u32 => SkbDropReason::FqFlowLimit,
        72u32 => SkbDropReason::CpuBacklog,
        73u32 => SkbDropReason::Xdp,
        74u32 => SkbDropReason::TcIngress,
        75u32 => SkbDropReason::UnhandledProto,
        76u32 => SkbDropReason::SkbCsum,
        77u32 => SkbDropReason::SkbGsoSeg,
        78u32 => SkbDropReason::SkbBadGso,
        79u32 => SkbDropReason::SkbUcopyFault,
        80u32 => SkbDropReason::DevHdr,
        81u32 => SkbDropReason::DevReady,
        82u32 => SkbDropReason::FullRing,
        83u32 => SkbDropReason::NoMem,
        84u32 => SkbDropReason::HdrTrunc,
        85u32 => SkbDropReason::TapFilter,
        86u32 => SkbDropReason::TapTxFilter,
        87u32 => SkbDropReason::IcmpCsum,
        88u32 => SkbDropReason::InvalidProto,
        89u32 => SkbDropReason::IpInaddrErrors,
        90u32 => SkbDropReason::IpInNoRoutes,
        91u32 => SkbDropReason::IpLocalSource,
        92u32 => SkbDropReason::IpInvalidSource,
        93u32 => SkbDropReason::IpLocalnet,
        94u32 => SkbDropReason::IpInvalidDest,
        95u32 => SkbDropReason::PktTooBig,
        96u32 => SkbDropReason::DupFrag,
        97u32 => SkbDropReason::FragReasmTimeout,
        98u32 => SkbDropReason::FragTooFar,
        99u32 => SkbDropReason::TcpMinTtl,
        100u32 => SkbDropReason::Ipv6BadExthdr,
        101u32 => SkbDropReason::Ipv6NdiscFrag,
        102u32 => SkbDropReason::Ipv6NdiscHopLimit,
        103u32 => SkbDropReason::Ipv6NdiscBadCode,
        104u32 => SkbDropReason::Ipv6NdiscBadOptions,
        105u32 => SkbDropReason::Ipv6NdiscNsOtherhost,
        106u32 => SkbDropReason::QueuePurge,
        107u32 => SkbDropReason::TcCookieError,
        108u32 => SkbDropReason::PacketSocketError,
        109u32 => SkbDropReason::TcChainNotFound,
        110u32 => SkbDropReason::TcReclassifyLoop,
        111u32 => SkbDropReason::VxlanInvalidHdr,
        112u32 => SkbDropReason::VxlanVniNotFound,
        113u32 => SkbDropReason::MacInvalidSource,
        114u32 => SkbDropReason::VxlanEntryExists,
        115u32 => SkbDropReason::NoTxTarget,
        116u32 => SkbDropReason::IpTunnelEcn,
        117u32 => SkbDropReason::TunnelTxinfo,
        118u32 => SkbDropReason::LocalMac,
        119u32 => SkbDropReason::ArpPvlanDisable,
        120u32 => SkbDropReason::MacIeeeMacControl,
        121u32 => SkbDropReason::BridgeIngressStpState,
        122u32 => SkbDropReason::CanRxInvalidFrame,
        123u32 => SkbDropReason::CanfdRxInvalidFrame,
        124u32 => SkbDropReason::CanxlRxInvalidFrame,
        125u32 => SkbDropReason::PmemAlloc,
        126u32 => SkbDropReason::DualPi2StepDrop,
        127u32 => SkbDropReason::PspInput,
        128u32 => SkbDropReason::PspOutput,
        129u32 => SkbDropReason::RecursionLimit,
        130u32 => SkbDropReason::Max,
        _ => SkbDropReason::Max,
    }
}

impl From<u32> for SkbDropReason {
    fn from(val: u32) -> (r: Self) {
        match val {
            0u32 => SkbDropReason::NotSpecified,
            1u32 => SkbDropReason::Consumed,
            2u32 => SkbDropReason::NotSpecifiedReason,
            3u32 => SkbDropReason::NoSocket,
            4u32 => SkbDropReason::SocketClose,
            5u32 => SkbDropReason::SocketFilter,
            6u32 => SkbDropReason::SocketRcvbuff,
            7u32 => SkbDropReason::UnixDisconnect,
            8u32 => SkbDropReason::UnixSkipOob,
            9u32 => SkbDropReason::PktTooSmall,
            10u32 => SkbDropReason::TcpCsum,
            11u32 => SkbDropReason::UdpCsum,
            12u32 => SkbDropReason::NetfilterDrop,
            13u32 => SkbDropReason::OtherHost,
            14u32 => SkbDropReason::IpCsum,
            15u32 => SkbDropReason::IpInhdr,
            16u32 => SkbDropReason::IpRpfilter,
            17u32 => SkbDropReason::UnicastInL2Multicast,
            18u32 => SkbDropReason::XfrmPolicy,
            19u32 => SkbDropReason::IpNoProto,
            20u32 => SkbDropReason::ProtoMem,
            21u32 => SkbDropReason::TcpAuthHdr,
            22u32 => SkbDropReason::TcpMd5NotFound,
            23u32 => SkbDropReason::TcpMd5Unexpected,
            24u32 => SkbDropReason::TcpMd5Failure,
            25u32 => SkbDropReason::TcpAoNotFound,
            26u32 => SkbDropReason::TcpAoUnexpected,
            27u32 => SkbDropReason::TcpAoKeyNotFound,
            28u32 => SkbDropReason::TcpAoFailure,
            29u32 => SkbDropReason::SocketBacklog,
            30u32 => SkbDropReason::TcpFlags,
            31u32 => SkbDropReason::TcpAbortOnData,
            32u32 => SkbDropReason::TcpZeroWindow,
            33u32 => SkbDropReason::TcpOldData,
            34u32 => SkbDropReason::TcpOverWindow,
            35u32 => SkbDropReason::TcpOfoMerge,
            36u32 => SkbDropReason::TcpRfc7323Paws,
            37u32 => SkbDropReason::TcpRfc7323PawsAck,
            38u32 => SkbDropReason::TcpRfc7323TwPaws,
            39u32 => SkbDropReason::TcpRfc7323Tsecr,
            40u32 => SkbDropReason::TcpListenOverflow,
            41u32 => SkbDropReason::TcpOldSequence,
            42u32 => SkbDropReason::TcpInvalidSequence,
            43u32 => SkbDropReason::TcpInvalidEndSequence,
            44u32 => SkbDropReason::TcpInvalidAckSequence,
            45u32 => SkbDropReason::TcpReset,
            46u32 => SkbDropReason::TcpInvalidSyn,
            47u32 => SkbDropReason::TcpClose,
            48u32 => SkbDropReason::TcpFastOpen,
            49u32 => SkbDropReason::TcpOldAck,
            50u32 => SkbDropReason::TcpTooOldAck,
            51u32 => SkbDropReason::TcpAckUnsentData,
            52u32 => SkbDropReason::TcpOfoQueuePrune,
            53u32 => SkbDropReason::TcpOfoDrop,
            54u32 => SkbDropReason::IpOutNoRoutes,
            55u32 => SkbDropReason::BpfCgroupEgress,
            56u32 => SkbDropReason::Ipv6Disabled,
            57u32 => SkbDropReason::NeighCreateFail,
            58u32 => SkbDropReason::NeighFailed,
            59u32 => SkbDropReason::NeighQueueFull,
            60u32 => SkbDropReason::NeighDead,
            61u32 => SkbDropReason::NeighHhFillFail,
            62u32 => SkbDropReason::TcEgress,
            63u32 => SkbDropReason::SecurityHook,
            64u32 => SkbDropReason::QdiscDrop,
            65u32 => SkbDropReason::QdiscBurstDrop,
            66u32 => SkbDropReason::QdiscOverlimit,
            67u32 => SkbDropReason::QdiscCongested,
            68u32 => SkbDropReason::CakeFlood,
            69u32 => SkbDropReason::FqBandLimit,
            70u32 => SkbDropReason::FqHorizonLimit,
            71u32 => SkbDropReason::FqFlowLimit,
            72u32 => SkbDropReason::CpuBacklog,
            73u32 => SkbDropReason::Xdp,
            74u32 => SkbDropReason::TcIngress,
            75u32 => SkbDropReason::UnhandledProto,
            76u32 => SkbDropReason::SkbCsum,
            77u32 => SkbDropReason::SkbGsoSeg,
            78u32 => SkbDropReason::SkbBadGso,
            79u32 => SkbDropReason::SkbUcopyFault,
            80u32 => SkbDropReason::DevHdr,
            81u32 => SkbDropReason::DevReady,
            82u32 => SkbDropReason::FullRing,
            83u32 => SkbDropReason::NoMem,
            84u32 => SkbDropReason::HdrTrunc,
            85u32 => SkbDropReason::TapFilter,
            86u32 => SkbDropReason::TapTxFilter,
            87u32 => SkbDropReason::IcmpCsum,
            88u32 => SkbDropReason::InvalidProto,
            89u32 => SkbDropReason::IpInaddrErrors,
            90u32 => SkbDropReason::IpInNoRoutes,
            91u32 => SkbDropReason::IpLocalSource,
            92u32 => SkbDropReason::IpInvalidSource,
            93u32 => SkbDropReason::IpLocalnet,
            94u32 => SkbDropReason::IpInvalidDest,
            95u32 => SkbDropReason::PktTooBig,
            96u32 => SkbDropReason::DupFrag,
            97u32 => SkbDropReason::FragReasmTimeout,
            98u32 => SkbDropReason::FragTooFar,
            99u32 => SkbDropReason::TcpMinTtl,
            100u32 => SkbDropReason::Ipv6BadExthdr,
            101u32 => SkbDropReason::Ipv6NdiscFrag,
            102u32 => SkbDropReason::Ipv6NdiscHopLimit,
            103u32 => SkbDropReason::Ipv6NdiscBadCode,
            104u32 => SkbDropReason::Ipv6NdiscBadOptions,
            105u32 => SkbDropReason::Ipv6NdiscNsOtherhost,
            106u32 => SkbDropReason::QueuePurge,
            107u32 => SkbDropReason::TcCookieError,
            108u32 => SkbDropReason::PacketSocketError,
            109u32 => SkbDropReason::TcChainNotFound,
            110u32 => SkbDropReason::TcReclassifyLoop,
            111u32 => SkbDropReason::VxlanInvalidHdr,
            112u32 => SkbDropReason::VxlanVniNotFound,
            113u32 => SkbDropReason::MacInvalidSource,
            114u32 => SkbDropReason::VxlanEntryExists,
            115u32 => SkbDropReason::NoTxTarget,
            116u32 => SkbDropReason::IpTunnelEcn,
            117u32 => SkbDropReason::TunnelTxinfo,
            118u32 => SkbDropReason::LocalMac,
            119u32 => SkbDropReason::ArpPvlanDisable,
            120u32 => SkbDropReason::MacIeeeMacControl,
            121u32 => SkbDropReason::BridgeIngressStpState,
            122u32 => SkbDropReason::CanRxInvalidFrame,
            123u32 => SkbDropReason::CanfdRxInvalidFrame,
            124u32 => SkbDropReason::CanxlRxInvalidFrame,
            125u32 => SkbDropReason::PmemAlloc,
            126u32 => SkbDropReason::DualPi2StepDrop,
            127u32 => SkbDropReason::PspInput,
            128u32 => SkbDropReason::PspOutput,
            129u32 => SkbDropReason::RecursionLimit,
            130u32 => SkbDropReason::Max,
            _ => SkbDropReason::Max,
        }
    }
}

impl vstd::std_specs::convert::FromSpecImpl<u32> for SkbDropReason {
    open spec fn obeys_from_spec() -> bool {
        true
    }

    open spec fn from_spec(v: u32) -> Self {
        reason_from_code(v)
    }
}

/// The display name of each drop reason, as the kernel spells it.
#[verifier::opaque]
pub open spec fn reason_label(reason: SkbDropReason) -> Seq<char> {
    label_of(reason)
}

/// The table of display names, one per drop reason.
pub open spec fn label_of(reason: SkbDropReason) -> Seq<char> {
    match reason {
        SkbDropReason::NotSpecified => seq!['N', 'O', 'T', '_', 'S', 'P', 'E', 'C', 'I', 'F', 'I', 'E', 'D'],
        SkbDropReason::Consumed => seq!['C', 'O', 'N', 'S', 'U', 'M', 'E', 'D'],
        SkbDropReason::NotSpecifiedReason => seq!['N', 'O', 'T', '_', 'S', 'P', 'E', 'C', 'I', 'F', 'I', 'E', 'D'],
        SkbDropReason::NoSocket => seq!['N', 'O', '_', 'S', 'O', 'C', 'K', 'E', 'T'],
        SkbDropReason::SocketClose => seq!['S', 'O', 'C', 'K', 'E', 'T', '_', 'C', 'L', 'O', 'S', 'E'],
        SkbDropReason::SocketFilter => seq!['S', 'O', 'C', 'K', 'E', 'T', '_', 'F', 'I', 'L', 'T', 'E', 'R'],
        SkbDropReason::SocketRcvbuff => seq!['S', 'O', 'C', 'K', 'E', 'T', '_', 'R', 'C', 'V', 'B', 'U', 'F', 'F'],
        SkbDropReason::UnixDisconnect => seq!['U', 'N', 'I', 'X', '_', 'D', 'I', 'S', 'C', 'O', 'N', 'N', 'E', 'C', 'T'],
        SkbDropReason::UnixSkipOob => seq!['U', 'N', 'I', 'X', '_', 'S', 'K', 'I', 'P', '_', 'O', 'O', 'B'],
        SkbDropReason::PktTooSmall => seq!['P', 'K', 'T', '_', 'T', 'O', 'O', '_', 'S', 'M', 'A', 'L', 'L'],
        SkbDropReason::TcpCsum => seq!['T', 'C', 'P', '_', 'C', 'S', 'U', 'M'],
        SkbDropReason::UdpCsum => seq!['U', 'D', 'P', '_', 'C', 'S', 'U', 'M'],
        SkbDropReason::NetfilterDrop => seq!['N', 'E', 'T', 'F', 'I', 'L', 'T', 'E', 'R', '_', 'D', 'R', 'O', 'P'],
        SkbDropReason::OtherHost => seq!['O', 'T', 'H', 'E', 'R', 'H', 'O', 'S', 'T'],
        SkbDropReason::IpCsum => seq!['I', 'P', '_', 'C', 'S', 'U', 'M'],
        SkbDropReason::IpInhdr => seq!['I', 'P', '_', 'I', 'N', 'H', 'D', 'R'],
        SkbDropReason::IpRpfilter => seq!['I', 'P', '_', 'R', 'P', 'F', 'I', 'L', 'T', 'E', 'R'],
        SkbDropReason::UnicastInL2Multicast => seq!['U', 'N', 'I', 'C', 'A', 'S', 'T', '_', 'I', 'N', '_', 'L', '2', '_', 'M', 'U', 'L', 'T', 'I', 'C', 'A', 'S', 'T'],
        SkbDropReason::XfrmPolicy => seq!['X', 'F', 'R', 'M', '_', 'P', 'O', 'L', 'I', 'C', 'Y'],
        SkbDropReason::IpNoProto => seq!['I', 'P', '_', 'N', 'O', 'P', 'R', 'O', 'T', 'O'],
        SkbDropReason::ProtoMem => seq!['P', 'R', 'O', 'T', 'O', '_', 'M', 'E', 'M'],
        SkbDropReason::TcpAuthHdr => seq!['T', 'C', 'P', '_', 'A', 'U', 'T', 'H', '_', 'H', 'D', 'R'],
        SkbDropReason::TcpMd5NotFound => seq!['T', 'C', 'P', '_', 'M', 'D', '5', 'N', 'O', 'T', 'F', 'O', 'U', 'N', 'D'],
        SkbDropReason::TcpMd5Unexpected => seq!['T', 'C', 'P', '_', 'M', 'D', '5', 'U', 'N', 'E', 'X', 'P', 'E', 'C', 'T', 'E', 'D'],
        SkbDropReason::TcpMd5Failure => seq!['T', 'C', 'P', '_', 'M', 'D', '5', 'F', 'A', 'I', 'L', 'U', 'R', 'E'],
        SkbDropReason::TcpAoNotFound => seq!['T', 'C', 'P', '_', 'A', 'O', 'N', 'O', 'T', 'F', 'O', 'U', 'N', 'D'],
        SkbDropReason::TcpAoUnexpected => seq!['T', 'C', 'P', '_', 'A', 'O', 'U', 'N', 'E', 'X', 'P', 'E', 'C', 'T', 'E', 'D'],
        SkbDropReason::TcpAoKeyNotFound => seq!['T', 'C', 'P', '_', 'A', 'O', 'K', 'E', 'Y', 'N', 'O', 'T', 'F', 'O', 'U', 'N', 'D'],
        SkbDropReason::TcpAoFailure => seq!['T', 'C', 'P', '_', 'A', 'O', 'F', 'A', 'I', 'L', 'U', 'R', 'E'],
        SkbDropReason::SocketBacklog => seq!['S', 'O', 'C', 'K', 'E', 'T', '_', 'B', 'A', 'C', 'K', 'L', 'O', 'G'],
        SkbDropReason::TcpFlags => seq!['T', 'C', 'P', '_', 'F', 'L', 'A', 'G', 'S'],
        SkbDropReason::TcpAbortOnData => seq!['T', 'C', 'P', '_', 'A', 'B', 'O', 'R', 'T', '_', 'O', 'N', '_', 'D', 'A', 'T', 'A'],
        SkbDropReason::TcpZeroWindow => seq!['T', 'C', 'P', '_', 'Z', 'E', 'R', 'O', 'W', 'I', 'N', 'D', 'O', 'W'],
        SkbDropReason::TcpOldData => seq!['T', 'C', 'P', '_', 'O', 'L', 'D', '_', 'D', 'A', 'T', 'A'],
        SkbDropReason::TcpOverWindow => seq!['T', 'C', 'P', '_', 'O', 'V', 'E', 'R', 'W', 'I', 'N', 'D', 'O', 'W'],
        SkbDropReason::TcpOfoMerge => seq!['T', 'C', 'P', '_', 'O', 'F', 'O', 'M', 'E', 'R', 'G', 'E'],
        SkbDropReason::TcpRfc7323Paws => seq!['T', 'C', 'P', '_', 'R', 'F', 'C', '7', '3', '2', '3', '_', 'P', 'A', 'W', 'S'],
        SkbDropReason::TcpRfc7323PawsAck => seq!['T', 'C', 'P', '_', 'R', 'F', 'C', '7', '3', '2', '3', '_', 'P', 'A', 'W', 'S', '_', 'A', 'C', 'K'],
        SkbDropReason::TcpRfc7323TwPaws => seq!['T', 'C', 'P', '_', 'R', 'F', 'C', '7', '3', '2', '3', '_', 'T', 'W', '_', 'P', 'A', 'W', 'S'],
        SkbDropReason::TcpRfc7323Tsecr => seq!['T', 'C', 'P', '_', 'R', 'F', 'C', '7', '3', '2', '3', '_', 'T', 'S', 'E', 'C', 'R'],
        SkbDropReason::TcpListenOverflow => seq!['T', 'C', 'P', '_', 'L', 'I', 'S', 'T', 'E', 'N', '_', 'O', 'V', 'E', 'R', 'F', 'L', 'O', 'W'],
        SkbDropReason::TcpOldSequence => seq!['T', 'C', 'P', '_', 'O', 'L', 'D', '_', 'S', 'E', 'Q', 'U', 'E', 'N', 'C', 'E'],
        SkbDropReason::TcpInvalidSequence => seq!['T', 'C', 'P', '_', 'I', 'N', 'V', 'A', 'L', 'I', 'D', '_', 'S', 'E', 'Q', 'U', 'E', 'N', 'C', 'E'],
        SkbDropReason::TcpInvalidEndSequence => seq!['T', 'C', 'P', '_', 'I', 'N', 'V', 'A', 'L', 'I', 'D', '_', 'E', 'N', 'D', '_', 'S', 'E', 'Q', 'U', 'E', 'N', 'C', 'E'],
        SkbDropReason::TcpInvalidAckSequence => seq!['T', 'C', 'P', '_', 'I', 'N', 'V', 'A', 'L', 'I', 'D', '_', 'A', 'C', 'K', '_', 'S', 'E', 'Q', 'U', 'E', 'N', 'C', 'E'],
        SkbDropReason::TcpReset => seq!['T', 'C', 'P', '_', 'R', 'E', 'S', 'E', 'T'],
        SkbDropReason::TcpInvalidSyn => seq!['T', 'C', 'P', '_', 'I', 'N', 'V', 'A', 'L', 'I', 'D', '_', 'S', 'Y', 'N'],
        SkbDropReason::TcpClose => seq!['T', 'C', 'P', '_', 'C', 'L', 'O', 'S', 'E'],
        SkbDropReason::TcpFastOpen => seq!['T', 'C', 'P', '_', 'F', 'A', 'S', 'T', 'O', 'P', 'E', 'N'],
        SkbDropReason::TcpOldAck => seq!['T', 'C', 'P', '_', 'O', 'L', 'D', '_', 'A', 'C', 'K'],
        SkbDropReason::TcpTooOldAck => seq!['T', 'C', 'P', '_', 'T', 'O', 'O', '_', 'O', 'L', 'D', '_', 'A', 'C', 'K'],
        SkbDropReason::TcpAckUnsentData => seq!['T', 'C', 'P', '_', 'A', 'C', 'K', '_', 'U', 'N', 'S', 'E', 'N', 'T', '_', 'D', 'A', 'T', 'A'],
        SkbDropReason::TcpOfoQueuePrune => seq!['T', 'C', 'P', '_', 'O', 'F', 'O', '_', 'Q', 'U', 'E', 'U', 'E', '_', 'P', 'R', 'U', 'N', 'E'],
        SkbDropReason::TcpOfoDrop => seq!['T', 'C', 'P', '_', 'O', 'F', 'O', '_', 'D', 'R', 'O', 'P'],
        SkbDropReason::IpOutNoRoutes => seq!['I', 'P', '_', 'O', 'U', 'T', 'N', 'O', 'R', 'O', 'U', 'T', 'E', 'S'],
        SkbDropReason::BpfCgroupEgress => seq!['B', 'P', 'F', '_', 'C', 'G', 'R', 'O', 'U', 'P', '_', 'E', 'G', 'R', 'E', 'S', 'S'],
        SkbDropReason::Ipv6Disabled => seq!['I', 'P', 'V', '6', 'D', 'I', 'S', 'A', 'B', 'L', 'E', 'D'],
        SkbDropReason::NeighCreateFail => seq!['N', 'E', 'I', 'G', 'H', '_', 'C', 'R', 'E', 'A', 'T', 'E', 'F', 'A', 'I', 'L'],
        SkbDropReason::NeighFailed => seq!['N', 'E', 'I', 'G', 'H', '_', 'F', 'A', 'I', 'L', 'E', 'D'],
        SkbDropReason::NeighQueueFull => seq!['N', 'E', 'I', 'G', 'H', '_', 'Q', 'U', 'E', 'U', 'E', 'F', 'U', 'L', 'L'],
        SkbDropReason::NeighDead => seq!['N', 'E', 'I', 'G', 'H', '_', 'D', 'E', 'A', 'D'],
        SkbDropReason::NeighHhFillFail => seq!['N', 'E', 'I', 'G', 'H', '_', 'H', 'H', '_', 'F', 'I', 'L', 'L', 'F', 'A', 'I', 'L'],
        SkbDropReason::TcEgress => seq!['T', 'C', '_', 'E', 'G', 'R', 'E', 'S', 'S'],
        SkbDropReason::SecurityHook => seq!['S', 'E', 'C', 'U', 'R', 'I', 'T', 'Y', '_', 'H', 'O', 'O', 'K'],
        SkbDropReason::QdiscDrop => seq!['Q', 'D', 'I', 'S', 'C', '_', 'D', 'R', 'O', 'P'],
        SkbDropReason::QdiscBurstDrop => seq!['Q', 'D', 'I', 'S', 'C', '_', 'B', 'U', 'R', 'S', 'T', '_', 'D', 'R', 'O', 'P'],
        SkbDropReason::QdiscOverlimit => seq!['Q', 'D', 'I', 'S', 'C', '_', 'O', 'V', 'E', 'R', 'L', 'I', 'M', 'I', 'T'],
        SkbDropReason::QdiscCongested => seq!['Q', 'D', 'I', 'S', 'C', '_', 'C', 'O', 'N', 'G', 'E', 'S', 'T', 'E', 'D'],
        SkbDropReason::CakeFlood => seq!['C', 'A', 'K', 'E', '_', 'F', 'L', 'O', 'O', 'D'],
        SkbDropReason::FqBandLimit => seq!['F', 'Q', '_', 'B', 'A', 'N', 'D', '_', 'L', 'I', 'M', 'I', 'T'],
        SkbDropReason::FqHorizonLimit => seq!['F', 'Q', '_', 'H', 'O', 'R', 'I', 'Z', 'O', 'N', '_', 'L', 'I', 'M', 'I', 'T'],
        SkbDropReason::FqFlowLimit => seq!['F', 'Q', '_', 'F', 'L', 'O', 'W', '_', 'L', 'I', 'M', 'I', 'T'],
        SkbDropReason::CpuBacklog => seq!['C', 'P', 'U', '_', 'B', 'A', 'C', 'K', 'L', 'O', 'G'],
        SkbDropReason::Xdp => seq!['X', 'D', 'P'],
        SkbDropReason::TcIngress => seq!['T', 'C', '_', 'I', 'N', 'G', 'R', 'E', 'S', 'S'],
        SkbDropReason::UnhandledProto => seq!['U', 'N', 'H', 'A', 'N', 'D', 'L', 'E', 'D', '_', 'P', 'R', 'O', 'T', 'O'],
        SkbDropReason::SkbCsum => seq!['S', 'K', 'B', '_', 'C', 'S', 'U', 'M'],
        SkbDropReason::SkbGsoSeg => seq!['S', 'K', 'B', '_', 'G', 'S', 'O', '_', 'S', 'E', 'G'],
        SkbDropReason::SkbBadGso => seq!['S', 'K', 'B', '_', 'B', 'A', 'D', '_', 'G', 'S', 'O'],
        SkbDropReason::SkbUcopyFault => seq!['S', 'K', 'B', '_', 'U', 'C', 'O', 'P', 'Y', '_', 'F', 'A', 'U', 'L', 'T'],
        SkbDropReason::DevHdr => seq!['D', 'E', 'V', '_', 'H', 'D', 'R'],
        SkbDropReason::DevReady => seq!['D', 'E', 'V', '_', 'R', 'E', 'A', 'D', 'Y'],
        SkbDropReason::FullRing => seq!['F', 'U', 'L', 'L', '_', 'R', 'I', 'N', 'G'],
        SkbDropReason::NoMem => seq!['N', 'O', 'M', 'E', 'M'],
        SkbDropReason::HdrTrunc => seq!['H', 'D', 'R', '_', 'T', 'R', 'U', 'N', 'C'],
        SkbDropReason::TapFilter => seq!['T', 'A', 'P', '_', 'F', 'I', 'L', 'T', 'E', 'R'],
        SkbDropReason::TapTxFilter => seq!['T', 'A', 'P', '_', 'T', 'X', 'F', 'I', 'L', 'T', 'E', 'R'],
        SkbDropReason::IcmpCsum => seq!['I', 'C', 'M', 'P', '_', 'C', 'S', 'U', 'M'],
        SkbDropReason::InvalidProto => seq!['I', 'N', 'V', 'A', 'L', 'I', 'D', '_', 'P', 'R', 'O', 'T', 'O'],
        SkbDropReason::IpInaddrErrors => seq!['I', 'P', '_', 'I', 'N', 'A', 'D', 'D', 'R', 'E', 'R', 'R', 'O', 'R', 'S'],
        SkbDropReason::IpInNoRoutes => seq!['I', 'P', '_', 'I', 'N', 'N', 'O', 'R', 'O', 'U', 'T', 'E', 'S'],
        SkbDropReason::IpLocalSource => seq!['I', 'P', '_', 'L', 'O', 'C', 'A', 'L', '_', 'S', 'O', 'U', 'R', 'C', 'E'],
        SkbDropReason::IpInvalidSource => seq!['I', 'P', '_', 'I', 'N', 'V', 'A', 'L', 'I', 'D', '_', 'S', 'O', 'U', 'R', 'C', 'E'],
        SkbDropReason::IpLocalnet => seq!['I', 'P', '_', 'L', 'O', 'C', 'A', 'L', 'N', 'E', 'T'],
        SkbDropReason::IpInvalidDest => seq!['I', 'P', '_', 'I', 'N', 'V', 'A', 'L', 'I', 'D', '_', 'D', 'E', 'S', 'T'],
        SkbDropReason::PktTooBig => seq!['P', 'K', 'T', '_', 'T', 'O', 'O', '_', 'B', 'I', 'G'],
        SkbDropReason::DupFrag => seq!['D', 'U', 'P', '_', 'F', 'R', 'A', 'G'],
        SkbDropReason::FragReasmTimeout => seq!['F', 'R', 'A', 'G', '_', 'R', 'E', 'A', 'S', 'M', '_', 'T', 'I', 'M', 'E', 'O', 'U', 'T'],
        SkbDropReason::FragTooFar => seq!['F', 'R', 'A', 'G', '_', 'T', 'O', 'O', '_', 'F', 'A', 'R'],
        SkbDropReason::TcpMinTtl => seq!['T', 'C', 'P', '_', 'M', 'I', 'N', 'T', 'T', 'L'],
        SkbDropReason::Ipv6BadExthdr => seq!['I', 'P', 'V', '6', '_', 'B', 'A', 'D', '_', 'E', 'X', 'T', 'H', 'D', 'R'],
        SkbDropReason::Ipv6NdiscFrag => seq!['I', 'P', 'V', '6', '_', 'N', 'D', 'I', 'S', 'C', '_', 'F', 'R', 'A', 'G'],
        SkbDropReason::Ipv6NdiscHopLimit => seq!['I', 'P', 'V', '6', '_', 'N', 'D', 'I', 'S', 'C', '_', 'H', 'O', 'P', '_', 'L', 'I', 'M', 'I', 'T'],
        SkbDropReason::Ipv6NdiscBadCode => seq!['I', 'P', 'V', '6', '_', 'N', 'D', 'I', 'S', 'C', '_', 'B', 'A', 'D', '_', 'C', 'O', 'D', 'E'],
        SkbDropReason::Ipv6NdiscBadOptions => seq!['I', 'P', 'V', '6', '_', 'N', 'D', 'I', 'S', 'C', '_', 'B', 'A', 'D', '_', 'O', 'P', 'T', 'I', 'O', 'N', 'S'],
        SkbDropReason::Ipv6NdiscNsOtherhost => seq!['I', 'P', 'V', '6', '_', 'N', 'D', 'I', 'S', 'C', '_', 'N', 'S', '_', 'O', 'T', 'H', 'E', 'R', 'H', 'O', 'S', 'T'],
        SkbDropReason::QueuePurge => seq!['Q', 'U', 'E', 'U', 'E', '_', 'P', 'U', 'R', 'G', 'E'],
        SkbDropReason::TcCookieError => seq!['T', 'C', '_', 'C', 'O', 'O', 'K', 'I', 'E', '_', 'E', 'R', 'R', 'O', 'R'],
        SkbDropReason::PacketSocketError => seq!['P', 'A', 'C', 'K', 'E', 'T', '_', 'S', 'O', 'C', 'K', '_', 'E', 'R', 'R', 'O', 'R'],
        SkbDropReason::TcChainNotFound => seq!['T', 'C', '_', 'C', 'H', 'A', 'I', 'N', '_', 'N', 'O', 'T', 'F', 'O', 'U', 'N', 'D'],
        SkbDropReason::TcReclassifyLoop => seq!['T', 'C', '_', 'R', 'E', 'C', 'L', 'A', 'S', 'S', 'I', 'F', 'Y', '_', 'L', 'O', 'O', 'P'],
        SkbDropReason::VxlanInvalidHdr => seq!['V', 'X', 'L', 'A', 'N', '_', 'I', 'N', 'V', 'A', 'L', 'I', 'D', '_', 'H', 'D', 'R'],
        SkbDropReason::VxlanVniNotFound => seq!['V', 'X', 'L', 'A', 'N', '_', 'V', 'N', 'I', '_', 'N', 'O', 'T', '_', 'F', 'O', 'U', 'N', 'D'],
        SkbDropReason::MacInvalidSource => seq!['M', 'A', 'C', '_', 'I', 'N', 'V', 'A', 'L', 'I', 'D', '_', 'S', 'O', 'U', 'R', 'C', 'E'],
        SkbDropReason::VxlanEntryExists => seq!['V', 'X', 'L', 'A', 'N', '_', 'E', 'N', 'T', 'R', 'Y', '_', 'E', 'X', 'I', 'S', 'T', 'S'],
        SkbDropReason::NoTxTarget => seq!['N', 'O', '_', 'T', 'X', '_', 'T', 'A', 'R', 'G', 'E', 'T'],
        SkbDropReason::IpTunnelEcn => seq!['I', 'P', '_', 'T', 'U', 'N', 'N', 'E', 'L', '_', 'E', 'C', 'N'],
        SkbDropReason::TunnelTxinfo => seq!['T', 'U', 'N', 'N', 'E', 'L', '_', 'T', 'X', 'I', 'N', 'F', 'O'],
        SkbDropReason::LocalMac => seq!['L', 'O', 'C', 'A', 'L', '_', 'M', 'A', 'C'],
        SkbDropReason::ArpPvlanDisable => seq!['A', 'R', 'P', '_', 'P', 'V', 'L', 'A', 'N', '_', 'D', 'I', 'S', 'A', 'B', 'L', 'E'],
        SkbDropReason::MacIeeeMacControl => seq!['M', 'A', 'C', '_', 'I', 'E', 'E', 'E', '_', 'M', 'A', 'C', '_', 'C', 'O', 'N', 'T', 'R', 'O', 'L'],
        SkbDropReason::BridgeIngressStpState => seq!['B', 'R', 'I', 'D', 'G', 'E', '_', 'I', 'N', 'G', 'R', 'E', 'S', 'S', '_', 'S', 'T', 'P', '_', 'S', 'T', 'A', 'T', 'E'],
        SkbDropReason::CanRxInvalidFrame => seq!['C', 'A', 'N', '_', 'R', 'X', '_', 'I', 'N', 'V', 'A', 'L', 'I', 'D', '_', 'F', 'R', 'A', 'M', 'E'],
        SkbDropReason::CanfdRxInvalidFrame => seq!['C', 'A', 'N', 'F', 'D', '_', 'R', 'X', '_', 'I', 'N', 'V', 'A', 'L', 'I', 'D', '_', 'F', 'R', 'A', 'M', 'E'],
        SkbDropReason::CanxlRxInvalidFrame => seq!['C', 'A', 'N', 'X', 'L', '_', 'R', 'X', '_', 'I', 'N', 'V', 'A', 'L', 'I', 'D', '_', 'F', 'R', 'A', 'M', 'E'],
        SkbDropReason::PmemAlloc => seq!['P', 'F', 'M', 'E', 'M', 'A', 'L', 'L', 'O', 'C'],
        SkbDropReason::DualPi2StepDrop => seq!['D', 'U', 'A', 'L', 'P', 'I', '2', '_', 'S', 'T', 'E', 'P', '_', 'D', 'R', 'O', 'P'],
        SkbDropReason::PspInput => seq!['P', 'S', 'P', '_', 'I', 'N', 'P', 'U', 'T'],
        SkbDropReason::PspOutput => seq!['P', 'S', 'P', '_', 'O', 'U', 'T', 'P', 'U', 'T'],
        SkbDropReason::RecursionLimit => seq!['R', 'E', 'C', 'U', 'R', 'S', 'I', 'O', 'N', '_', 'L', 'I', 'M', 'I', 'T'],
        SkbDropReason::Max => seq!['M', 'A', 'X'],
    }
}

/// Display name of a drop reason (e.g. `TCP_CSUM` for code 10).
pub fn reason_name(reason: SkbDropReason) -> (name: &'static str)
    ensures
        name@ == reason_label(reason),
        name@ == kernel_reason_name(reason.spec_code()),
{
    proof {
        lemma_reason_name_is_kernel_name(reason.spec_code());
        lemma_code_round_trip(reason);
        reveal(reason_label);
    }
    match reason {
        SkbDropReason::NotSpecified => {
            proof {
                reveal_strlit("NOT_SPECIFIED");
                assert("NOT_SPECIFIED"@ =~= seq!['N', 'O', 'T', '_', 'S', 'P', 'E', 'C', 'I', 'F', 'I', 'E', 'D']);
            }
            "NOT_SPECIFIED"
        },
        SkbDropReason::Consumed => {
            proof {
                reveal_strlit("CONSUMED");
                assert("CONSUMED"@ =~= seq!['C', 'O', 'N', 'S', 'U', 'M', 'E', 'D']);
            }
            "CONSUMED"
        },
        SkbDropReason::NotSpecifiedReason => {
            proof {
                reveal_strlit("NOT_SPECIFIED");
                assert("NOT_SPECIFIED"@ =~= seq!['N', 'O', 'T', '_', 'S', 'P', 'E', 'C', 'I', 'F', 'I', 'E', 'D']);
            }
            "NOT_SPECIFIED"
        },
        SkbDropReason::NoSocket => {
            proof {
                reveal_strlit("NO_SOCKET");
                assert("NO_SOCKET"@ =~= seq!['N', 'O', '_', 'S', 'O', 'C', 'K', 'E', 'T']);
            }
            "NO_SOCKET"
        },
        SkbDropReason::SocketClose => {
            proof {
                reveal_strlit("SOCKET_CLOSE");
                assert("SOCKET_CLOSE"@ =~= seq!['S', 'O', 'C', 'K', 'E', 'T', '_', 'C', 'L', 'O', 'S', 'E']);
            }
            "SOCKET_CLOSE"
        },
        SkbDropReason::SocketFilter => {
            proof {
                reveal_strlit("SOCKET_FILTER");
                assert("SOCKET_FILTER"@ =~= seq!['S', 'O', 'C', 'K', 'E', 'T', '_', 'F', 'I', 'L', 'T', 'E', 'R']);
            }
            "SOCKET_FILTER"
        },
        SkbDropReason::SocketRcvbuff => {
            proof {
                reveal_strlit("SOCKET_RCVBUFF");
                assert("SOCKET_RCVBUFF"@ =~= seq!['S', 'O', 'C', 'K', 'E', 'T', '_', 'R', 'C', 'V', 'B', 'U', 'F', 'F']);
            }
            "SOCKET_RCVBUFF"
        },
        SkbDropReason::UnixDisconnect => {
            proof {
                reveal_strlit("UNIX_DISCONNECT");
                assert("UNIX_DISCONNECT"@ =~= seq!['U', 'N', 'I', 'X', '_', 'D', 'I', 'S', 'C', 'O', 'N', 'N', 'E', 'C', 'T']);
            }
            "UNIX_DISCONNECT"
        },
        SkbDropReason::UnixSkipOob => {
            proof {
                reveal_strlit("UNIX_SKIP_OOB");
                assert("UNIX_SKIP_OOB"@ =~= seq!['U', 'N', 'I', 'X', '_', 'S', 'K', 'I', 'P', '_', 'O', 'O', 'B']);
            }
            "UNIX_SKIP_OOB"
        },
        SkbDropReason::PktTooSmall => {
            proof {
                reveal_strlit("PKT_TOO_SMALL");
                assert("PKT_TOO_SMALL"@ =~= seq!['P', 'K', 'T', '_', 'T', 'O', 'O', '_', 'S', 'M', 'A', 'L', 'L']);
            }
            "PKT_TOO_SMALL"
        },
        SkbDropReason::TcpCsum => {
            proof {
                reveal_strlit("TCP_CSUM");
                assert("TCP_CSUM"@ =~= seq!['T', 'C', 'P', '_', 'C', 'S', 'U', 'M']);
            }
            "TCP_CSUM"
        },
        SkbDropReason::UdpCsum => {
            proof {
                reveal_strlit("UDP_CSUM");
                assert("UDP_CSUM"@ =~= seq!['U', 'D', 'P', '_', 'C', 'S', 'U', 'M']);
            }
            "UDP_CSUM"
        },
        SkbDropReason::NetfilterDrop => {
            proof {
                reveal_strlit("NETFILTER_DROP");
                assert("NETFILTER_DROP"@ =~= seq!['N', 'E', 'T', 'F', 'I', 'L', 'T', 'E', 'R', '_', 'D', 'R', 'O', 'P']);
            }
            "NETFILTER_DROP"
        },
        SkbDropReason::OtherHost => {
            proof {
                reveal_strlit("OTHERHOST");
                assert("OTHERHOST"@ =~= seq!['O', 'T', 'H', 'E', 'R', 'H', 'O', 'S', 'T']);
            }
            "OTHERHOST"
        },
        SkbDropReason::IpCsum => {
            proof {
                reveal_strlit("IP_CSUM");
                assert("IP_CSUM"@ =~= seq!['I', 'P', '_', 'C', 'S', 'U', 'M']);
            }
            "IP_CSUM"
        },
        SkbDropReason::IpInhdr => {
            proof {
                reveal_strlit("IP_INHDR");
                assert("IP_INHDR"@ =~= seq!['I', 'P', '_', 'I', 'N', 'H', 'D', 'R']);
            }
            "IP_INHDR"
        },
        SkbDropReason::IpRpfilter => {
            proof {
                reveal_strlit("IP_RPFILTER");
                assert("IP_RPFILTER"@ =~= seq!['I', 'P', '_', 'R', 'P', 'F', 'I', 'L', 'T', 'E', 'R']);
            }
            "IP_RPFILTER"
        },
        SkbDropReason::UnicastInL2Multicast => {
            proof {
                reveal_strlit("UNICAST_IN_L2_MULTICAST");
                assert("UNICAST_IN_L2_MULTICAST"@ =~= seq!['U', 'N', 'I', 'C', 'A', 'S', 'T', '_', 'I', 'N', '_', 'L', '2', '_', 'M', 'U', 'L', 'T', 'I', 'C', 'A', 'S', 'T']);
            }
            "UNICAST_IN_L2_MULTICAST"
        },
        SkbDropReason::XfrmPolicy => {
            proof {
                reveal_strlit("XFRM_POLICY");
                assert("XFRM_POLICY"@ =~= seq!['X', 'F', 'R', 'M', '_', 'P', 'O', 'L', 'I', 'C', 'Y']);
            }
            "XFRM_POLICY"
        },
        SkbDropReason::IpNoProto => {
            proof {
                reveal_strlit("IP_NOPROTO");
                assert("IP_NOPROTO"@ =~= seq!['I', 'P', '_', 'N', 'O', 'P', 'R', 'O', 'T', 'O']);
            }
            "IP_NOPROTO"
        },
        SkbDropReason::ProtoMem => {
            proof {
                reveal_strlit("PROTO_MEM");
                assert("PROTO_MEM"@ =~= seq!['P', 'R', 'O', 'T', 'O', '_', 'M', 'E', 'M']);
            }
            "PROTO_MEM"
        },
        SkbDropReason::TcpAuthHdr => {
            proof {
                reveal_strlit("TCP_AUTH_HDR");
                assert("TCP_AUTH_HDR"@ =~= seq!['T', 'C', 'P', '_', 'A', 'U', 'T', 'H', '_', 'H', 'D', 'R']);
            }
            "TCP_AUTH_HDR"
        },
        SkbDropReason::TcpMd5NotFound => {
            proof {
                reveal_strlit("TCP_MD5NOTFOUND");
                assert("TCP_MD5NOTFOUND"@ =~= seq!['T', 'C', 'P', '_', 'M', 'D', '5', 'N', 'O', 'T', 'F', 'O', 'U', 'N', 'D']);
            }
            "TCP_MD5NOTFOUND"
        },
        SkbDropReason::TcpMd5Unexpected => {
            proof {
                reveal_strlit("TCP_MD5UNEXPECTED");
                assert("TCP_MD5UNEXPECTED"@ =~= seq!['T', 'C', 'P', '_', 'M', 'D', '5', 'U', 'N', 'E', 'X', 'P', 'E', 'C', 'T', 'E', 'D']);
            }
            "TCP_MD5UNEXPECTED"
        },
        SkbDropReason::TcpMd5Failure => {
            proof {
                reveal_strlit("TCP_MD5FAILURE");
                assert("TCP_MD5FAILURE"@ =~= seq!['T', 'C', 'P', '_', 'M', 'D', '5', 'F', 'A', 'I', 'L', 'U', 'R', 'E']);
            }
            "TCP_MD5FAILURE"
        },
        SkbDropReason::TcpAoNotFound => {
            proof {
                reveal_strlit("TCP_AONOTFOUND");
                assert("TCP_AONOTFOUND"@ =~= seq!['T', 'C', 'P', '_', 'A', 'O', 'N', 'O', 'T', 'F', 'O', 'U', 'N', 'D']);
            }
            "TCP_AONOTFOUND"
        },
        SkbDropReason::TcpAoUnexpected => {
            proof {
                reveal_strlit("TCP_AOUNEXPECTED");
                assert("TCP_AOUNEXPECTED"@ =~= seq!['T', 'C', 'P', '_', 'A', 'O', 'U', 'N', 'E', 'X', 'P', 'E', 'C', 'T', 'E', 'D']);
            }
            "TCP_AOUNEXPECTED"
        },
        SkbDropReason::TcpAoKeyNotFound => {
            proof {
                reveal_strlit("TCP_AOKEYNOTFOUND");
                assert("TCP_AOKEYNOTFOUND"@ =~= seq!['T', 'C', 'P', '_', 'A', 'O', 'K', 'E', 'Y', 'N', 'O', 'T', 'F', 'O', 'U', 'N', 'D']);
            }
            "TCP_AOKEYNOTFOUND"
        },
        SkbDropReason::TcpAoFailure => {
            proof {
                reveal_strlit("TCP_AOFAILURE");
                assert("TCP_AOFAILURE"@ =~= seq!['T', 'C', 'P', '_', 'A', 'O', 'F', 'A', 'I', 'L', 'U', 'R', 'E']);
            }
            "TCP_AOFAILURE"
        },
        SkbDropReason::SocketBacklog => {
            proof {
                reveal_strlit("SOCKET_BACKLOG");
                assert("SOCKET_BACKLOG"@ =~= seq!['S', 'O', 'C', 'K', 'E', 'T', '_', 'B', 'A', 'C', 'K', 'L', 'O', 'G']);
            }
            "SOCKET_BACKLOG"
        },
        SkbDropReason::TcpFlags => {
            proof {
                reveal_strlit("TCP_FLAGS");
                assert("TCP_FLAGS"@ =~= seq!['T', 'C', 'P', '_', 'F', 'L', 'A', 'G', 'S']);
            }
            "TCP_FLAGS"
        },
        SkbDropReason::TcpAbortOnData => {
            proof {
                reveal_strlit("TCP_ABORT_ON_DATA");
                assert("TCP_ABORT_ON_DATA"@ =~= seq!['T', 'C', 'P', '_', 'A', 'B', 'O', 'R', 'T', '_', 'O', 'N', '_', 'D', 'A', 'T', 'A']);
            }
            "TCP_ABORT_ON_DATA"
        },
        SkbDropReason::TcpZeroWindow => {
            proof {
                reveal_strlit("TCP_ZEROWINDOW");
                assert("TCP_ZEROWINDOW"@ =~= seq!['T', 'C', 'P', '_', 'Z', 'E', 'R', 'O', 'W', 'I', 'N', 'D', 'O', 'W']);
            }
            "TCP_ZEROWINDOW"
        },
        SkbDropReason::TcpOldData => {
            proof {
                reveal_strlit("TCP_OLD_DATA");
                assert("TCP_OLD_DATA"@ =~= seq!['T', 'C', 'P', '_', 'O', 'L', 'D', '_', 'D', 'A', 'T', 'A']);
            }
            "TCP_OLD_DATA"
        },
        SkbDropReason::TcpOverWindow => {
            proof {
                reveal_strlit("TCP_OVERWINDOW");
                assert("TCP_OVERWINDOW"@ =~= seq!['T', 'C', 'P', '_', 'O', 'V', 'E', 'R', 'W', 'I', 'N', 'D', 'O', 'W']);
            }
            "TCP_OVERWINDOW"
        },
        SkbDropReason::TcpOfoMerge => {
            proof {
                reveal_strlit("TCP_OFOMERGE");
                assert("TCP_OFOMERGE"@ =~= seq!['T', 'C', 'P', '_', 'O', 'F', 'O', 'M', 'E', 'R', 'G', 'E']);
            }
            "TCP_OFOMERGE"
        },
        SkbDropReason::TcpRfc7323Paws => {
            proof {
                reveal_strlit("TCP_RFC7323_PAWS");
                assert("TCP_RFC7323_PAWS"@ =~= seq!['T', 'C', 'P', '_', 'R', 'F', 'C', '7', '3', '2', '3', '_', 'P', 'A', 'W', 'S']);
            }
            "TCP_RFC7323_PAWS"
        },
        SkbDropReason::TcpRfc7323PawsAck => {
            proof {
                reveal_strlit("TCP_RFC7323_PAWS_ACK");
                assert("TCP_RFC7323_PAWS_ACK"@ =~= seq!['T', 'C', 'P', '_', 'R', 'F', 'C', '7', '3', '2', '3', '_', 'P', 'A', 'W', 'S', '_', 'A', 'C', 'K']);
            }
            "TCP_RFC7323_PAWS_ACK"
        },
        SkbDropReason::TcpRfc7323TwPaws => {
            proof {
                reveal_strlit("TCP_RFC7323_TW_PAWS");
                assert("TCP_RFC7323_TW_PAWS"@ =~= seq!['T', 'C', 'P', '_', 'R', 'F', 'C', '7', '3', '2', '3', '_', 'T', 'W', '_', 'P', 'A', 'W', 'S']);
            }
            "TCP_RFC7323_TW_PAWS"
        },
        SkbDropReason::TcpRfc7323Tsecr => {
            proof {
                reveal_strlit("TCP_RFC7323_TSECR");
                assert("TCP_RFC7323_TSECR"@ =~= seq!['T', 'C', 'P', '_', 'R', 'F', 'C', '7', '3', '2', '3', '_', 'T', 'S', 'E', 'C', 'R']);
            }
            "TCP_RFC7323_TSECR"
        },
        SkbDropReason::TcpListenOverflow => {
            proof {
                reveal_strlit("TCP_LISTEN_OVERFLOW");
                assert("TCP_LISTEN_OVERFLOW"@ =~= seq!['T', 'C', 'P', '_', 'L', 'I', 'S', 'T', 'E', 'N', '_', 'O', 'V', 'E', 'R', 'F', 'L', 'O', 'W']);
            }
            "TCP_LISTEN_OVERFLOW"
        },
        SkbDropReason::TcpOldSequence => {
            proof {
                reveal_strlit("TCP_OLD_SEQUENCE");
                assert("TCP_OLD_SEQUENCE"@ =~= seq!['T', 'C', 'P', '_', 'O', 'L', 'D', '_', 'S', 'E', 'Q', 'U', 'E', 'N', 'C', 'E']);
            }
            "TCP_OLD_SEQUENCE"
        },
        SkbDropReason::TcpInvalidSequence => {
            proof {
                reveal_strlit("TCP_INVALID_SEQUENCE");
                assert("TCP_INVALID_SEQUENCE"@ =~= seq!['T', 'C', 'P', '_', 'I', 'N', 'V', 'A', 'L', 'I', 'D', '_', 'S', 'E', 'Q', 'U', 'E', 'N', 'C', 'E']);
            }
            "TCP_INVALID_SEQUENCE"
        },
        SkbDropReason::TcpInvalidEndSequence => {
            proof {
                reveal_strlit("TCP_INVALID_END_SEQUENCE");
                assert("TCP_INVALID_END_SEQUENCE"@ =~= seq!['T', 'C', 'P', '_', 'I', 'N', 'V', 'A', 'L', 'I', 'D', '_', 'E', 'N', 'D', '_', 'S', 'E', 'Q', 'U', 'E', 'N', 'C', 'E']);
            }
            "TCP_INVALID_END_SEQUENCE"
        },
        SkbDropReason::TcpInvalidAckSequence => {
            proof {
                reveal_strlit("TCP_INVALID_ACK_SEQUENCE");
                assert("TCP_INVALID_ACK_SEQUENCE"@ =~= seq!['T', 'C', 'P', '_', 'I', 'N', 'V', 'A', 'L', 'I', 'D', '_', 'A', 'C', 'K', '_', 'S', 'E', 'Q', 'U', 'E', 'N', 'C', 'E']);
            }
            "TCP_INVALID_ACK_SEQUENCE"
        },
        SkbDropReason::TcpReset => {
            proof {
                reveal_strlit("TCP_RESET");
                assert("TCP_RESET"@ =~= seq!['T', 'C', 'P', '_', 'R', 'E', 'S', 'E', 'T']);
            }
            "TCP_RESET"
        },
        SkbDropReason::TcpInvalidSyn => {
            proof {
                reveal_strlit("TCP_INVALID_SYN");
                assert("TCP_INVALID_SYN"@ =~= seq!['T', 'C', 'P', '_', 'I', 'N', 'V', 'A', 'L', 'I', 'D', '_', 'S', 'Y', 'N']);
            }
            "TCP_INVALID_SYN"
        },
        SkbDropReason::TcpClose => {
            proof {
                reveal_strlit("TCP_CLOSE");
                assert("TCP_CLOSE"@ =~= seq!['T', 'C', 'P', '_', 'C', 'L', 'O', 'S', 'E']);
            }
            "TCP_CLOSE"
        },
        SkbDropReason::TcpFastOpen => {
            proof {
                reveal_strlit("TCP_FASTOPEN");
                assert("TCP_FASTOPEN"@ =~= seq!['T', 'C', 'P', '_', 'F', 'A', 'S', 'T', 'O', 'P', 'E', 'N']);
            }
            "TCP_FASTOPEN"
        },
        SkbDropReason::TcpOldAck => {
            proof {
                reveal_strlit("TCP_OLD_ACK");
                assert("TCP_OLD_ACK"@ =~= seq!['T', 'C', 'P', '_', 'O', 'L', 'D', '_', 'A', 'C', 'K']);
            }
            "TCP_OLD_ACK"
        },
        SkbDropReason::TcpTooOldAck => {
            proof {
                reveal_strlit("TCP_TOO_OLD_ACK");
                assert("TCP_TOO_OLD_ACK"@ =~= seq!['T', 'C', 'P', '_', 'T', 'O', 'O', '_', 'O', 'L', 'D', '_', 'A', 'C', 'K']);
            }
            "TCP_TOO_OLD_ACK"
        },
        SkbDropReason::TcpAckUnsentData => {
            proof {
                reveal_strlit("TCP_ACK_UNSENT_DATA");
                assert("TCP_ACK_UNSENT_DATA"@ =~= seq!['T', 'C', 'P', '_', 'A', 'C', 'K', '_', 'U', 'N', 'S', 'E', 'N', 'T', '_', 'D', 'A', 'T', 'A']);
            }
            "TCP_ACK_UNSENT_DATA"
        },
        SkbDropReason::TcpOfoQueuePrune => {
            proof {
                reveal_strlit("TCP_OFO_QUEUE_PRUNE");
                assert("TCP_OFO_QUEUE_PRUNE"@ =~= seq!['T', 'C', 'P', '_', 'O', 'F', 'O', '_', 'Q', 'U', 'E', 'U', 'E', '_', 'P', 'R', 'U', 'N', 'E']);
            }
            "TCP_OFO_QUEUE_PRUNE"
        },
        SkbDropReason::TcpOfoDrop => {
            proof {
                reveal_strlit("TCP_OFO_DROP");
                assert("TCP_OFO_DROP"@ =~= seq!['T', 'C', 'P', '_', 'O', 'F', 'O', '_', 'D', 'R', 'O', 'P']);
            }
            "TCP_OFO_DROP"
        },
        SkbDropReason::IpOutNoRoutes => {
            proof {
                reveal_strlit("IP_OUTNOROUTES");
                assert("IP_OUTNOROUTES"@ =~= seq!['I', 'P', '_', 'O', 'U', 'T', 'N', 'O', 'R', 'O', 'U', 'T', 'E', 'S']);
            }
            "IP_OUTNOROUTES"
        },
        SkbDropReason::BpfCgroupEgress => {
            proof {
                reveal_strlit("BPF_CGROUP_EGRESS");
                assert("BPF_CGROUP_EGRESS"@ =~= seq!['B', 'P', 'F', '_', 'C', 'G', 'R', 'O', 'U', 'P', '_', 'E', 'G', 'R', 'E', 'S', 'S']);
            }
            "BPF_CGROUP_EGRESS"
        },
        SkbDropReason::Ipv6Disabled => {
            proof {
                reveal_strlit("IPV6DISABLED");
                assert("IPV6DISABLED"@ =~= seq!['I', 'P', 'V', '6', 'D', 'I', 'S', 'A', 'B', 'L', 'E', 'D']);
            }
            "IPV6DISABLED"
        },
        SkbDropReason::NeighCreateFail => {
            proof {
                reveal_strlit("NEIGH_CREATEFAIL");
                assert("NEIGH_CREATEFAIL"@ =~= seq!['N', 'E', 'I', 'G', 'H', '_', 'C', 'R', 'E', 'A', 'T', 'E', 'F', 'A', 'I', 'L']);
            }
            "NEIGH_CREATEFAIL"
        },
        SkbDropReason::NeighFailed => {
            proof {
                reveal_strlit("NEIGH_FAILED");
                assert("NEIGH_FAILED"@ =~= seq!['N', 'E', 'I', 'G', 'H', '_', 'F', 'A', 'I', 'L', 'E', 'D']);
            }
            "NEIGH_FAILED"
        },
        SkbDropReason::NeighQueueFull => {
            proof {
                reveal_strlit("NEIGH_QUEUEFULL");
                assert("NEIGH_QUEUEFULL"@ =~= seq!['N', 'E', 'I', 'G', 'H', '_', 'Q', 'U', 'E', 'U', 'E', 'F', 'U', 'L', 'L']);
            }
            "NEIGH_QUEUEFULL"
        },
        SkbDropReason::NeighDead => {
            proof {
                reveal_strlit("NEIGH_DEAD");
                assert("NEIGH_DEAD"@ =~= seq!['N', 'E', 'I', 'G', 'H', '_', 'D', 'E', 'A', 'D']);
            }
            "NEIGH_DEAD"
        },
        SkbDropReason::NeighHhFillFail => {
            proof {
                reveal_strlit("NEIGH_HH_FILLFAIL");
                assert("NEIGH_HH_FILLFAIL"@ =~= seq!['N', 'E', 'I', 'G', 'H', '_', 'H', 'H', '_', 'F', 'I', 'L', 'L', 'F', 'A', 'I', 'L']);
            }
            "NEIGH_HH_FILLFAIL"
        },
        SkbDropReason::TcEgress => {
            proof {
                reveal_strlit("TC_EGRESS");
                assert("TC_EGRESS"@ =~= seq!['T', 'C', '_', 'E', 'G', 'R', 'E', 'S', 'S']);
            }
            "TC_EGRESS"
        },
        SkbDropReason::SecurityHook => {
            proof {
                reveal_strlit("SECURITY_HOOK");
                assert("SECURITY_HOOK"@ =~= seq!['S', 'E', 'C', 'U', 'R', 'I', 'T', 'Y', '_', 'H', 'O', 'O', 'K']);
            }
            "SECURITY_HOOK"
        },
        SkbDropReason::QdiscDrop => {
            proof {
                reveal_strlit("QDISC_DROP");
                assert("QDISC_DROP"@ =~= seq!['Q', 'D', 'I', 'S', 'C', '_', 'D', 'R', 'O', 'P']);
            }
            "QDISC_DROP"
        },
        SkbDropReason::QdiscBurstDrop => {
            proof {
                reveal_strlit("QDISC_BURST_DROP");
                assert("QDISC_BURST_DROP"@ =~= seq!['Q', 'D', 'I', 'S', 'C', '_', 'B', 'U', 'R', 'S', 'T', '_', 'D', 'R', 'O', 'P']);
            }
            "QDISC_BURST_DROP"
        },
        SkbDropReason::QdiscOverlimit => {
            proof {
                reveal_strlit("QDISC_OVERLIMIT");
                assert("QDISC_OVERLIMIT"@ =~= seq!['Q', 'D', 'I', 'S', 'C', '_', 'O', 'V', 'E', 'R', 'L', 'I', 'M', 'I', 'T']);
            }
            "QDISC_OVERLIMIT"
        },
        SkbDropReason::QdiscCongested => {
            proof {
                reveal_strlit("QDISC_CONGESTED");
                assert("QDISC_CONGESTED"@ =~= seq!['Q', 'D', 'I', 'S', 'C', '_', 'C', 'O', 'N', 'G', 'E', 'S', 'T', 'E', 'D']);
            }
            "QDISC_CONGESTED"
        },
        SkbDropReason::CakeFlood => {
            proof {
                reveal_strlit("CAKE_FLOOD");
                assert("CAKE_FLOOD"@ =~= seq!['C', 'A', 'K', 'E', '_', 'F', 'L', 'O', 'O', 'D']);
            }
            "CAKE_FLOOD"
        },
        SkbDropReason::FqBandLimit => {
            proof {
                reveal_strlit("FQ_BAND_LIMIT");
                assert("FQ_BAND_LIMIT"@ =~= seq!['F', 'Q', '_', 'B', 'A', 'N', 'D', '_', 'L', 'I', 'M', 'I', 'T']);
            }
            "FQ_BAND_LIMIT"
        },
        SkbDropReason::FqHorizonLimit => {
            proof {
                reveal_strlit("FQ_HORIZON_LIMIT");
                assert("FQ_HORIZON_LIMIT"@ =~= seq!['F', 'Q', '_', 'H', 'O', 'R', 'I', 'Z', 'O', 'N', '_', 'L', 'I', 'M', 'I', 'T']);
            }
            "FQ_HORIZON_LIMIT"
        },
        SkbDropReason::FqFlowLimit => {
            proof {
                reveal_strlit("FQ_FLOW_LIMIT");
                assert("FQ_FLOW_LIMIT"@ =~= seq!['F', 'Q', '_', 'F', 'L', 'O', 'W', '_', 'L', 'I', 'M', 'I', 'T']);
            }
            "FQ_FLOW_LIMIT"
        },
        SkbDropReason::CpuBacklog => {
            proof {
                reveal_strlit("CPU_BACKLOG");
                assert("CPU_BACKLOG"@ =~= seq!['C', 'P', 'U', '_', 'B', 'A', 'C', 'K', 'L', 'O', 'G']);
            }
            "CPU_BACKLOG"
        },
        SkbDropReason::Xdp => {
            proof {
                reveal_strlit("XDP");
                assert("XDP"@ =~= seq!['X', 'D', 'P']);
            }
            "XDP"
        },
        SkbDropReason::TcIngress => {
            proof {
                reveal_strlit("TC_INGRESS");
                assert("TC_INGRESS"@ =~= seq!['T', 'C', '_', 'I', 'N', 'G', 'R', 'E', 'S', 'S']);
            }
            "TC_INGRESS"
        },
        SkbDropReason::UnhandledProto => {
            proof {
                reveal_strlit("UNHANDLED_PROTO");
                assert("UNHANDLED_PROTO"@ =~= seq!['U', 'N', 'H', 'A', 'N', 'D', 'L', 'E', 'D', '_', 'P', 'R', 'O', 'T', 'O']);
            }
            "UNHANDLED_PROTO"
        },
        SkbDropReason::SkbCsum => {
            proof {
                reveal_strlit("SKB_CSUM");
                assert("SKB_CSUM"@ =~= seq!['S', 'K', 'B', '_', 'C', 'S', 'U', 'M']);
            }
            "SKB_CSUM"
        },
        SkbDropReason::SkbGsoSeg => {
            proof {
                reveal_strlit("SKB_GSO_SEG");
                assert("SKB_GSO_SEG"@ =~= seq!['S', 'K', 'B', '_', 'G', 'S', 'O', '_', 'S', 'E', 'G']);
            }
            "SKB_GSO_SEG"
        },
        SkbDropReason::SkbBadGso => {
            proof {
                reveal_strlit("SKB_BAD_GSO");
                assert("SKB_BAD_GSO"@ =~= seq!['S', 'K', 'B', '_', 'B', 'A', 'D', '_', 'G', 'S', 'O']);
            }
            "SKB_BAD_GSO"
        },
        SkbDropReason::SkbUcopyFault => {
            proof {
                reveal_strlit("SKB_UCOPY_FAULT");
                assert("SKB_UCOPY_FAULT"@ =~= seq!['S', 'K', 'B', '_', 'U', 'C', 'O', 'P', 'Y', '_', 'F', 'A', 'U', 'L', 'T']);
            }
            "SKB_UCOPY_FAULT"
        },
        SkbDropReason::DevHdr => {
            proof {
                reveal_strlit("DEV_HDR");
                assert("DEV_HDR"@ =~= seq!['D', 'E', 'V', '_', 'H', 'D', 'R']);
            }
            "DEV_HDR"
        },
        SkbDropReason::DevReady => {
            proof {
                reveal_strlit("DEV_READY");
                assert("DEV_READY"@ =~= seq!['D', 'E', 'V', '_', 'R', 'E', 'A', 'D', 'Y']);
            }
            "DEV_READY"
        },
        SkbDropReason::FullRing => {
            proof {
                reveal_strlit("FULL_RING");
                assert("FULL_RING"@ =~= seq!['F', 'U', 'L', 'L', '_', 'R', 'I', 'N', 'G']);
            }
            "FULL_RING"
        },
        SkbDropReason::NoMem => {
            proof {
                reveal_strlit("NOMEM");
                assert("NOMEM"@ =~= seq!['N', 'O', 'M', 'E', 'M']);
            }
            "NOMEM"
        },
        SkbDropReason::HdrTrunc => {
            proof {
                reveal_strlit("HDR_TRUNC");
                assert("HDR_TRUNC"@ =~= seq!['H', 'D', 'R', '_', 'T', 'R', 'U', 'N', 'C']);
            }
            "HDR_TRUNC"
        },
        SkbDropReason::TapFilter => {
            proof {
                reveal_strlit("TAP_FILTER");
                assert("TAP_FILTER"@ =~= seq!['T', 'A', 'P', '_', 'F', 'I', 'L', 'T', 'E', 'R']);
            }
            "TAP_FILTER"
        },
        SkbDropReason::TapTxFilter => {
            proof {
                reveal_strlit("TAP_TXFILTER");
                assert("TAP_TXFILTER"@ =~= seq!['T', 'A', 'P', '_', 'T', 'X', 'F', 'I', 'L', 'T', 'E', 'R']);
            }
            "TAP_TXFILTER"
        },
        SkbDropReason::IcmpCsum => {
            proof {
                reveal_strlit("ICMP_CSUM");
                assert("ICMP_CSUM"@ =~= seq!['I', 'C', 'M', 'P', '_', 'C', 'S', 'U', 'M']);
            }
            "ICMP_CSUM"
        },
        SkbDropReason::InvalidProto => {
            proof {
                reveal_strlit("INVALID_PROTO");
                assert("INVALID_PROTO"@ =~= seq!['I', 'N', 'V', 'A', 'L', 'I', 'D', '_', 'P', 'R', 'O', 'T', 'O']);
            }
            "INVALID_PROTO"
        },
        SkbDropReason::IpInaddrErrors => {
            proof {
                reveal_strlit("IP_INADDRERRORS");
                assert("IP_INADDRERRORS"@ =~= seq!['I', 'P', '_', 'I', 'N', 'A', 'D', 'D', 'R', 'E', 'R', 'R', 'O', 'R', 'S']);
            }
            "IP_INADDRERRORS"
        },
        SkbDropReason::IpInNoRoutes => {
            proof {
                reveal_strlit("IP_INNOROUTES");
                assert("IP_INNOROUTES"@ =~= seq!['I', 'P', '_', 'I', 'N', 'N', 'O', 'R', 'O', 'U', 'T', 'E', 'S']);
            }
            "IP_INNOROUTES"
        },
        SkbDropReason::IpLocalSource => {
            proof {
                reveal_strlit("IP_LOCAL_SOURCE");
                assert("IP_LOCAL_SOURCE"@ =~= seq!['I', 'P', '_', 'L', 'O', 'C', 'A', 'L', '_', 'S', 'O', 'U', 'R', 'C', 'E']);
            }
            "IP_LOCAL_SOURCE"
        },
        SkbDropReason::IpInvalidSource => {
            proof {
                reveal_strlit("IP_INVALID_SOURCE");
                assert("IP_INVALID_SOURCE"@ =~= seq!['I', 'P', '_', 'I', 'N', 'V', 'A', 'L', 'I', 'D', '_', 'S', 'O', 'U', 'R', 'C', 'E']);
            }
            "IP_INVALID_SOURCE"
        },
        SkbDropReason::IpLocalnet => {
            proof {
                reveal_strlit("IP_LOCALNET");
                assert("IP_LOCALNET"@ =~= seq!['I', 'P', '_', 'L', 'O', 'C', 'A', 'L', 'N', 'E', 'T']);
            }
            "IP_LOCALNET"
        },
        SkbDropReason::IpInvalidDest => {
            proof {
                reveal_strlit("IP_INVALID_DEST");
                assert("IP_INVALID_DEST"@ =~= seq!['I', 'P', '_', 'I', 'N', 'V', 'A', 'L', 'I', 'D', '_', 'D', 'E', 'S', 'T']);
            }
            "IP_INVALID_DEST"
        },
        SkbDropReason::PktTooBig => {
            proof {
                reveal_strlit("PKT_TOO_BIG");
                assert("PKT_TOO_BIG"@ =~= seq!['P', 'K', 'T', '_', 'T', 'O', 'O', '_', 'B', 'I', 'G']);
            }
            "PKT_TOO_BIG"
        },
        SkbDropReason::DupFrag => {
            proof {
                reveal_strlit("DUP_FRAG");
                assert("DUP_FRAG"@ =~= seq!['D', 'U', 'P', '_', 'F', 'R', 'A', 'G']);
            }
            "DUP_FRAG"
        },
        SkbDropReason::FragReasmTimeout => {
            proof {
                reveal_strlit("FRAG_REASM_TIMEOUT");
                assert("FRAG_REASM_TIMEOUT"@ =~= seq!['F', 'R', 'A', 'G', '_', 'R', 'E', 'A', 'S', 'M', '_', 'T', 'I', 'M', 'E', 'O', 'U', 'T']);
            }
            "FRAG_REASM_TIMEOUT"
        },
        SkbDropReason::FragTooFar => {
            proof {
                reveal_strlit("FRAG_TOO_FAR");
                assert("FRAG_TOO_FAR"@ =~= seq!['F', 'R', 'A', 'G', '_', 'T', 'O', 'O', '_', 'F', 'A', 'R']);
            }
            "FRAG_TOO_FAR"
        },
        SkbDropReason::TcpMinTtl => {
            proof {
                reveal_strlit("TCP_MINTTL");
                assert("TCP_MINTTL"@ =~= seq!['T', 'C', 'P', '_', 'M', 'I', 'N', 'T', 'T', 'L']);
            }
            "TCP_MINTTL"
        },
        SkbDropReason::Ipv6BadExthdr => {
            proof {
                reveal_strlit("IPV6_BAD_EXTHDR");
                assert("IPV6_BAD_EXTHDR"@ =~= seq!['I', 'P', 'V', '6', '_', 'B', 'A', 'D', '_', 'E', 'X', 'T', 'H', 'D', 'R']);
            }
            "IPV6_BAD_EXTHDR"
        },
        SkbDropReason::Ipv6NdiscFrag => {
            proof {
                reveal_strlit("IPV6_NDISC_FRAG");
                assert("IPV6_NDISC_FRAG"@ =~= seq!['I', 'P', 'V', '6', '_', 'N', 'D', 'I', 'S', 'C', '_', 'F', 'R', 'A', 'G']);
            }
            "IPV6_NDISC_FRAG"
        },
        SkbDropReason::Ipv6NdiscHopLimit => {
            proof {
                reveal_strlit("IPV6_NDISC_HOP_LIMIT");
                assert("IPV6_NDISC_HOP_LIMIT"@ =~= seq!['I', 'P', 'V', '6', '_', 'N', 'D', 'I', 'S', 'C', '_', 'H', 'O', 'P', '_', 'L', 'I', 'M', 'I', 'T']);
            }
            "IPV6_NDISC_HOP_LIMIT"
        },
        SkbDropReason::Ipv6NdiscBadCode => {
            proof {
                reveal_strlit("IPV6_NDISC_BAD_CODE");
                assert("IPV6_NDISC_BAD_CODE"@ =~= seq!['I', 'P', 'V', '6', '_', 'N', 'D', 'I', 'S', 'C', '_', 'B', 'A', 'D', '_', 'C', 'O', 'D', 'E']);
            }
            "IPV6_NDISC_BAD_CODE"
        },
        SkbDropReason::Ipv6NdiscBadOptions => {
            proof {
                reveal_strlit("IPV6_NDISC_BAD_OPTIONS");
                assert("IPV6_NDISC_BAD_OPTIONS"@ =~= seq!['I', 'P', 'V', '6', '_', 'N', 'D', 'I', 'S', 'C', '_', 'B', 'A', 'D', '_', 'O', 'P', 'T', 'I', 'O', 'N', 'S']);
            }
            "IPV6_NDISC_BAD_OPTIONS"
        },
        SkbDropReason::Ipv6NdiscNsOtherhost => {
            proof {
                reveal_strlit("IPV6_NDISC_NS_OTHERHOST");
                assert("IPV6_NDISC_NS_OTHERHOST"@ =~= seq!['I', 'P', 'V', '6', '_', 'N', 'D', 'I', 'S', 'C', '_', 'N', 'S', '_', 'O', 'T', 'H', 'E', 'R', 'H', 'O', 'S', 'T']);
            }
            "IPV6_NDISC_NS_OTHERHOST"
        },
        SkbDropReason::QueuePurge => {
            proof {
                reveal_strlit("QUEUE_PURGE");
                assert("QUEUE_PURGE"@ =~= seq!['Q', 'U', 'E', 'U', 'E', '_', 'P', 'U', 'R', 'G', 'E']);
            }
            "QUEUE_PURGE"
        },
        SkbDropReason::TcCookieError => {
            proof {
                reveal_strlit("TC_COOKIE_ERROR");
                assert("TC_COOKIE_ERROR"@ =~= seq!['T', 'C', '_', 'C', 'O', 'O', 'K', 'I', 'E', '_', 'E', 'R', 'R', 'O', 'R']);
            }
            "TC_COOKIE_ERROR"
        },
        SkbDropReason::PacketSocketError => {
            proof {
                reveal_strlit("PACKET_SOCK_ERROR");
                assert("PACKET_SOCK_ERROR"@ =~= seq!['P', 'A', 'C', 'K', 'E', 'T', '_', 'S', 'O', 'C', 'K', '_', 'E', 'R', 'R', 'O', 'R']);
            }
            "PACKET_SOCK_ERROR"
        },
        SkbDropReason::TcChainNotFound => {
            proof {
                reveal_strlit("TC_CHAIN_NOTFOUND");
                assert("TC_CHAIN_NOTFOUND"@ =~= seq!['T', 'C', '_', 'C', 'H', 'A', 'I', 'N', '_', 'N', 'O', 'T', 'F', 'O', 'U', 'N', 'D']);
            }
            "TC_CHAIN_NOTFOUND"
        },
        SkbDropReason::TcReclassifyLoop => {
            proof {
                reveal_strlit("TC_RECLASSIFY_LOOP");
                assert("TC_RECLASSIFY_LOOP"@ =~= seq!['T', 'C', '_', 'R', 'E', 'C', 'L', 'A', 'S', 'S', 'I', 'F', 'Y', '_', 'L', 'O', 'O', 'P']);
            }
            "TC_RECLASSIFY_LOOP"
        },
        SkbDropReason::VxlanInvalidHdr => {
            proof {
                reveal_strlit("VXLAN_INVALID_HDR");
                assert("VXLAN_INVALID_HDR"@ =~= seq!['V', 'X', 'L', 'A', 'N', '_', 'I', 'N', 'V', 'A', 'L', 'I', 'D', '_', 'H', 'D', 'R']);
            }
            "VXLAN_INVALID_HDR"
        },
        SkbDropReason::VxlanVniNotFound => {
            proof {
                reveal_strlit("VXLAN_VNI_NOT_FOUND");
                assert("VXLAN_VNI_NOT_FOUND"@ =~= seq!['V', 'X', 'L', 'A', 'N', '_', 'V', 'N', 'I', '_', 'N', 'O', 'T', '_', 'F', 'O', 'U', 'N', 'D']);
            }
            "VXLAN_VNI_NOT_FOUND"
        },
        SkbDropReason::MacInvalidSource => {
            proof {
                reveal_strlit("MAC_INVALID_SOURCE");
                assert("MAC_INVALID_SOURCE"@ =~= seq!['M', 'A', 'C', '_', 'I', 'N', 'V', 'A', 'L', 'I', 'D', '_', 'S', 'O', 'U', 'R', 'C', 'E']);
            }
            "MAC_INVALID_SOURCE"
        },
        SkbDropReason::VxlanEntryExists => {
            proof {
                reveal_strlit("VXLAN_ENTRY_EXISTS");
                assert("VXLAN_ENTRY_EXISTS"@ =~= seq!['V', 'X', 'L', 'A', 'N', '_', 'E', 'N', 'T', 'R', 'Y', '_', 'E', 'X', 'I', 'S', 'T', 'S']);
            }
            "VXLAN_ENTRY_EXISTS"
        },
        SkbDropReason::NoTxTarget => {
            proof {
                reveal_strlit("NO_TX_TARGET");
                assert("NO_TX_TARGET"@ =~= seq!['N', 'O', '_', 'T', 'X', '_', 'T', 'A', 'R', 'G', 'E', 'T']);
            }
            "NO_TX_TARGET"
        },
        SkbDropReason::IpTunnelEcn => {
            proof {
                reveal_strlit("IP_TUNNEL_ECN");
                assert("IP_TUNNEL_ECN"@ =~= seq!['I', 'P', '_', 'T', 'U', 'N', 'N', 'E', 'L', '_', 'E', 'C', 'N']);
            }
            "IP_TUNNEL_ECN"
        },
        SkbDropReason::TunnelTxinfo => {
            proof {
                reveal_strlit("TUNNEL_TXINFO");
                assert("TUNNEL_TXINFO"@ =~= seq!['T', 'U', 'N', 'N', 'E', 'L', '_', 'T', 'X', 'I', 'N', 'F', 'O']);
            }
            "TUNNEL_TXINFO"
        },
        SkbDropReason::LocalMac => {
            proof {
                reveal_strlit("LOCAL_MAC");
                assert("LOCAL_MAC"@ =~= seq!['L', 'O', 'C', 'A', 'L', '_', 'M', 'A', 'C']);
            }
            "LOCAL_MAC"
        },
        SkbDropReason::ArpPvlanDisable => {
            proof {
                reveal_strlit("ARP_PVLAN_DISABLE");
                assert("ARP_PVLAN_DISABLE"@ =~= seq!['A', 'R', 'P', '_', 'P', 'V', 'L', 'A', 'N', '_', 'D', 'I', 'S', 'A', 'B', 'L', 'E']);
            }
            "ARP_PVLAN_DISABLE"
        },
        SkbDropReason::MacIeeeMacControl => {
            proof {
                reveal_strlit("MAC_IEEE_MAC_CONTROL");
                assert("MAC_IEEE_MAC_CONTROL"@ =~= seq!['M', 'A', 'C', '_', 'I', 'E', 'E', 'E', '_', 'M', 'A', 'C', '_', 'C', 'O', 'N', 'T', 'R', 'O', 'L']);
            }
            "MAC_IEEE_MAC_CONTROL"
        },
        SkbDropReason::BridgeIngressStpState => {
            proof {
                reveal_strlit("BRIDGE_INGRESS_STP_STATE");
                assert("BRIDGE_INGRESS_STP_STATE"@ =~= seq!['B', 'R', 'I', 'D', 'G', 'E', '_', 'I', 'N', 'G', 'R', 'E', 'S', 'S', '_', 'S', 'T', 'P', '_', 'S', 'T', 'A', 'T', 'E']);
            }
            "BRIDGE_INGRESS_STP_STATE"
        },
        SkbDropReason::CanRxInvalidFrame => {
            proof {
                reveal_strlit("CAN_RX_INVALID_FRAME");
                assert("CAN_RX_INVALID_FRAME"@ =~= seq!['C', 'A', 'N', '_', 'R', 'X', '_', 'I', 'N', 'V', 'A', 'L', 'I', 'D', '_', 'F', 'R', 'A', 'M', 'E']);
            }
            "CAN_RX_INVALID_FRAME"
        },
        SkbDropReason::CanfdRxInvalidFrame => {
            proof {
                reveal_strlit("CANFD_RX_INVALID_FRAME");
                assert("CANFD_RX_INVALID_FRAME"@ =~= seq!['C', 'A', 'N', 'F', 'D', '_', 'R', 'X', '_', 'I', 'N', 'V', 'A', 'L', 'I', 'D', '_', 'F', 'R', 'A', 'M', 'E']);
            }
            "CANFD_RX_INVALID_FRAME"
        },
        SkbDropReason::CanxlRxInvalidFrame => {
            proof {
                reveal_strlit("CANXL_RX_INVALID_FRAME");
                assert("CANXL_RX_INVALID_FRAME"@ =~= seq!['C', 'A', 'N', 'X', 'L', '_', 'R', 'X', '_', 'I', 'N', 'V', 'A', 'L', 'I', 'D', '_', 'F', 'R', 'A', 'M', 'E']);
            }
            "CANXL_RX_INVALID_FRAME"
        },
        SkbDropReason::PmemAlloc => {
            proof {
                reveal_strlit("PFMEMALLOC");
                assert("PFMEMALLOC"@ =~= seq!['P', 'F', 'M', 'E', 'M', 'A', 'L', 'L', 'O', 'C']);
            }
            "PFMEMALLOC"
        },
        SkbDropReason::DualPi2StepDrop => {
            proof {
                reveal_strlit("DUALPI2_STEP_DROP");
                assert("DUALPI2_STEP_DROP"@ =~= seq!['D', 'U', 'A', 'L', 'P', 'I', '2', '_', 'S', 'T', 'E', 'P', '_', 'D', 'R', 'O', 'P']);
            }
            "DUALPI2_STEP_DROP"
        },
        SkbDropReason::PspInput => {
            proof {
                reveal_strlit("PSP_INPUT");
                assert("PSP_INPUT"@ =~= seq!['P', 'S', 'P', '_', 'I', 'N', 'P', 'U', 'T']);
            }
            "PSP_INPUT"
        },
        SkbDropReason::PspOutput => {
            proof {
                reveal_strlit("PSP_OUTPUT");
                assert("PSP_OUTPUT"@ =~= seq!['P', 'S', 'P', '_', 'O', 'U', 'T', 'P', 'U', 'T']);
            }
            "PSP_OUTPUT"
        },
        SkbDropReason::RecursionLimit => {
            proof {
                reveal_strlit("RECURSION_LIMIT");
                assert("RECURSION_LIMIT"@ =~= seq!['R', 'E', 'C', 'U', 'R', 'S', 'I', 'O', 'N', '_', 'L', 'I', 'M', 'I', 'T']);
            }
            "RECURSION_LIMIT"
        },
        SkbDropReason::Max => {
            proof {
                reveal_strlit("MAX");
                assert("MAX"@ =~= seq!['M', 'A', 'X']);
            }
            "MAX"
        },
    }
}

/// Decoding the code of any reason gives that reason back.
pub proof fn lemma_code_round_trip(reason: SkbDropReason)
    ensures
        reason_from_code(reason.spec_code()) == reason,
{
}

/// Every value up to the last known code decodes to the reason with that
/// code; every larger value decodes to `Max`.
pub proof fn lemma_decode_code(v: u32)
    ensures
        v <= MAX_REASON_CODE ==> reason_from_code(v).spec_code() == v,
        v > MAX_REASON_CODE ==> reason_from_code(v) == SkbDropReason::Max,
{
}


/// A character that may appear in a reason name: an upper-case ASCII
/// letter, a decimal digit or `_`.
pub open spec fn name_char(c: char) -> bool {
    ('A' <= c && c <= 'Z') || ('0' <= c && c <= '9') || c == '_'
}

/// Every character of `s` is a [`name_char`].
pub open spec fn all_name_chars(s: Seq<char>) -> bool
    decreases s.len(),
{
    s.len() == 0 || (name_char(s.last()) && all_name_chars(s.drop_last()))
}

/// The code of the first reason with the name `s` (131 if no reason has
/// it), read character by character until the name is told apart.
pub open spec fn code_of_name(s: Seq<char>) -> int {
    if s.len() > 0 && s[0] == 'A' {
        if s.len() >= 1 {
            119
        } else {
            131
        }
    } else if s.len() > 0 && s[0] == 'B' {
        if s.len() >= 2 && s[1] == 'P' {
            55
        } else if s.len() >= 2 && s[1] == 'R' {
            121
        } else {
            131
        }
    } else if s.len() > 0 && s[0] == 'C' {
        if s.len() >= 3 && s[1] == 'A' && s[2] == 'K' {
            68
        } else if s.len() >= 4 && s[1] == 'A' && s[2] == 'N' && s[3] == 'F' {
            123
        } else if s.len() >= 4 && s[1] == 'A' && s[2] == 'N' && s[3] == 'X' {
            124
        } else if s.len() >= 4 && s[1] == 'A' && s[2] == 'N' && s[3] == '_' {
            122
        } else if s.len() >= 2 && s[1] == 'O' {
            1
        } else if s.len() >= 2 && s[1] == 'P' {
            72
        } else {
            131
        }
    } else if s.len() > 0 && s[0] == 'D' {
        if s.len() >= 5 && s[1] == 'E' && s[2] == 'V' && s[3] == '_' && s[4] == 'H' {
            80
        } else if s.len() >= 5 && s[1] == 'E' && s[2] == 'V' && s[3] == '_' && s[4] == 'R' {
            81
        } else if s.len() >= 3 && s[1] == 'U' && s[2] == 'A' {
            126
        } else if s.len() >= 3 && s[1] == 'U' && s[2] == 'P' {
            96
        } else {
            131
        }
    } else if s.len() > 0 && s[0] == 'F' {
        if s.len() >= 4 && s[1] == 'Q' && s[2] == '_' && s[3] == 'B' {
            69
        } else if s.len() >= 4 && s[1] == 'Q' && s[2] == '_' && s[3] == 'F' {
            71
        } else if s.len() >= 4 && s[1] == 'Q' && s[2] == '_' && s[3] == 'H' {
            70
        } else if s.len() >= 6 && s[1] == 'R' && s[2] == 'A' && s[3] == 'G' && s[4] == '_' && s[5] == 'R' {
            97
        } else if s.len() >= 6 && s[1] == 'R' && s[2] == 'A' && s[3] == 'G' && s[4] == '_' && s[5] == 'T' {
            98
        } else if s.len() >= 2 && s[1] == 'U' {
            82
        } else {
            131
        }
    } else if s.len() > 0 && s[0] == 'H' {
        if s.len() >= 1 {
            84
        } else {
            131
        }
    } else if s.len() > 0 && s[0] == 'I' {
        if s.len() >= 2 && s[1] == 'C' {
            87
        } else if s.len() >= 2 && s[1] == 'N' {
            88
        } else if s.len() >= 5 && s[1] == 'P' && s[2] == 'V' && s[3] == '6' && s[4] == 'D' {
            56
        } else if s.len() >= 6 && s[1] == 'P' && s[2] == 'V' && s[3] == '6' && s[4] == '_' && s[5] == 'B' {
            100
        } else if s.len() >= 16 && s[1] == 'P' && s[2] == 'V' && s[3] == '6' && s[4] == '_' && s[5] == 'N' && s[6] == 'D' && s[7] == 'I' && s[8] == 'S' && s[9] == 'C' && s[10] == '_' && s[11] == 'B' && s[12] == 'A' && s[13] == 'D' && s[14] == '_' && s[15] == 'C' {
            103
        } else if s.len() >= 16 && s[1] == 'P' && s[2] == 'V' && s[3] == '6' && s[4] == '_' && s[5] == 'N' && s[6] == 'D' && s[7] == 'I' && s[8] == 'S' && s[9] == 'C' && s[10] == '_' && s[11] == 'B' && s[12] == 'A' && s[13] == 'D' && s[14] == '_' && s[15] == 'O' {
            104
        } else if s.len() >= 12 && s[1] == 'P' && s[2] == 'V' && s[3] == '6' && s[4] == '_' && s[5] == 'N' && s[6] == 'D' && s[7] == 'I' && s[8] == 'S' && s[9] == 'C' && s[10] == '_' && s[11] == 'F' {
            101
        } else if s.len() >= 12 && s[1] == 'P' && s[2] == 'V' && s[3] == '6' && s[4] == '_' && s[5] == 'N' && s[6] == 'D' && s[7] == 'I' && s[8] == 'S' && s[9] == 'C' && s[10] == '_' && s[11] == 'H' {
            102
        } else if s.len() >= 12 && s[1] == 'P' && s[2] == 'V' && s[3] == '6' && s[4] == '_' && s[5] == 'N' && s[6] == 'D' && s[7] == 'I' && s[8] == 'S' && s[9] == 'C' && s[10] == '_' && s[11] == 'N' {
            105
        } else if s.len() >= 4 && s[1] == 'P' && s[2] == '_' && s[3] == 'C' {
            14
        } else if s.len() >= 6 && s[1] == 'P' && s[2] == '_' && s[3] == 'I' && s[4] == 'N' && s[5] == 'A' {
            89
        } else if s.len() >= 6 && s[1] == 'P' && s[2] == '_' && s[3] == 'I' && s[4] == 'N' && s[5] == 'H' {
            15
        } else if s.len() >= 6 && s[1] == 'P' && s[2] == '_' && s[3] == 'I' && s[4] == 'N' && s[5] == 'N' {
            90
        } else if s.len() >= 12 && s[1] == 'P' && s[2] == '_' && s[3] == 'I' && s[4] == 'N' && s[5] == 'V' && s[6] == 'A' && s[7] == 'L' && s[8] == 'I' && s[9] == 'D' && s[10] == '_' && s[11] == 'D' {
            94
        } else if s.len() >= 12 && s[1] == 'P' && s[2] == '_' && s[3] == 'I' && s[4] == 'N' && s[5] == 'V' && s[6] == 'A' && s[7] == 'L' && s[8] == 'I' && s[9] == 'D' && s[10] == '_' && s[11] == 'S' {
            92
        } else if s.len() >= 9 && s[1] == 'P' && s[2] == '_' && s[3] == 'L' && s[4] == 'O' && s[5] == 'C' && s[6] == 'A' && s[7] == 'L' && s[8] == 'N' {
            93
        } else if s.len() >= 9 && s[1] == 'P' && s[2] == '_' && s[3] == 'L' && s[4] == 'O' && s[5] == 'C' && s[6] == 'A' && s[7] == 'L' && s[8] == '_' {
            91
        } else if s.len() >= 4 && s[1] == 'P' && s[2] == '_' && s[3] == 'N' {
            19
        } else if s.len() >= 4 && s[1] == 'P' && s[2] == '_' && s[3] == 'O' {
            54
        } else if s.len() >= 4 && s[1] == 'P' && s[2] == '_' && s[3] == 'R' {
            16
        } else if s.len() >= 4 && s[1] == 'P' && s[2] == '_' && s[3] == 'T' {
            116
        } else {
            131
        }
    } else if s.len() > 0 && s[0] == 'L' {
        if s.len() >= 1 {
            118
        } else {
            131
        }
    } else if s.len() > 0 && s[0] == 'M' {
        if s.len() >= 6 && s[1] == 'A' && s[2] == 'C' && s[3] == '_' && s[4] == 'I' && s[5] == 'E' {
            120
        } else if s.len() >= 6 && s[1] == 'A' && s[2] == 'C' && s[3] == '_' && s[4] == 'I' && s[5] == 'N' {
            113
        } else if s.len() >= 3 && s[1] == 'A' && s[2] == 'X' {
            130
        } else {
            131
        }
    } else if s.len() > 0 && s[0] == 'N' {
        if s.len() >= 7 && s[1] == 'E' && s[2] == 'I' && s[3] == 'G' && s[4] == 'H' && s[5] == '_' && s[6] == 'C' {
            57
        } else if s.len() >= 7 && s[1] == 'E' && s[2] == 'I' && s[3] == 'G' && s[4] == 'H' && s[5] == '_' && s[6] == 'D' {
            60
        } else if s.len() >= 7 && s[1] == 'E' && s[2] == 'I' && s[3] == 'G' && s[4] == 'H' && s[5] == '_' && s[6] == 'F' {
            58
        } else if s.len() >= 7 && s[1] == 'E' && s[2] == 'I' && s[3] == 'G' && s[4] == 'H' && s[5] == '_' && s[6] == 'H' {
            61
        } else if s.len() >= 7 && s[1] == 'E' && s[2] == 'I' && s[3] == 'G' && s[4] == 'H' && s[5] == '_' && s[6] == 'Q' {
            59
        } else if s.len() >= 3 && s[1] == 'E' && s[2] == 'T' {
            12
        } else if s.len() >= 3 && s[1] == 'O' && s[2] == 'M' {
            83
        } else if s.len() >= 3 && s[1] == 'O' && s[2] == 'T' {
            0
        } else if s.len() >= 4 && s[1] == 'O' && s[2] == '_' && s[3] == 'S' {
            3
        } else if s.len() >= 4 && s[1] == 'O' && s[2] == '_' && s[3] == 'T' {
            115
        } else {
            131
        }
    } else if s.len() > 0 && s[0] == 'O' {
        if s.len() >= 1 {
            13
        } else {
            131
        }
    } else if s.len() > 0 && s[0] == 'P' {
        if s.len() >= 2 && s[1] == 'A' {
            108
        } else if s.len() >= 2 && s[1] == 'F' {
            125
        } else if s.len() >= 9 && s[1] == 'K' && s[2] == 'T' && s[3] == '_' && s[4] == 'T' && s[5] == 'O' && s[6] == 'O' && s[7] == '_' && s[8] == 'B' {
            95
        } else if s.len() >= 9 && s[1] == 'K' && s[2] == 'T' && s[3] == '_' && s[4] == 'T' && s[5] == 'O' && s[6] == 'O' && s[7] == '_' && s[8] == 'S' {
            9
        } else if s.len() >= 2 && s[1] == 'R' {
            20
        } else if s.len() >= 5 && s[1] == 'S' && s[2] == 'P' && s[3] == '_' && s[4] == 'I' {
            127
        } else if s.len() >= 5 && s[1] == 'S' && s[2] == 'P' && s[3] == '_' && s[4] == 'O' {
            128
        } else {
            131
        }
    } else if s.len() > 0 && s[0] == 'Q' {
        if s.len() >= 7 && s[1] == 'D' && s[2] == 'I' && s[3] == 'S' && s[4] == 'C' && s[5] == '_' && s[6] == 'B' {
            65
        } else if s.len() >= 7 && s[1] == 'D' && s[2] == 'I' && s[3] == 'S' && s[4] == 'C' && s[5] == '_' && s[6] == 'C' {
            67
        } else if s.len() >= 7 && s[1] == 'D' && s[2] == 'I' && s[3] == 'S' && s[4] == 'C' && s[5] == '_' && s[6] == 'D' {
            64
        } else if s.len() >= 7 && s[1] == 'D' && s[2] == 'I' && s[3] == 'S' && s[4] == 'C' && s[5] == '_' && s[6] == 'O' {
            66
        } else if s.len() >= 2 && s[1] == 'U' {
            106
        } else {
            131
        }
    } else if s.len() > 0 && s[0] == 'R' {
        if s.len() >= 1 {
            129
        } else {
            131
        }
    } else if s.len() > 0 && s[0] == 'S' {
        if s.len() >= 2 && s[1] == 'E' {
            63
        } else if s.len() >= 5 && s[1] == 'K' && s[2] == 'B' && s[3] == '_' && s[4] == 'B' {
            78
        } else if s.len() >= 5 && s[1] == 'K' && s[2] == 'B' && s[3] == '_' && s[4] == 'C' {
            76
        } else if s.len() >= 5 && s[1] == 'K' && s[2] == 'B' && s[3] == '_' && s[4] == 'G' {
            77
        } else if s.len() >= 5 && s[1] == 'K' && s[2] == 'B' && s[3] == '_' && s[4] == 'U' {
            79
        } else if s.len() >= 8 && s[1] == 'O' && s[2] == 'C' && s[3] == 'K' && s[4] == 'E' && s[5] == 'T' && s[6] == '_' && s[7] == 'B' {
            29
        } else if s.len() >= 8 && s[1] == 'O' && s[2] == 'C' && s[3] == 'K' && s[4] == 'E' && s[5] == 'T' && s[6] == '_' && s[7] == 'C' {
            4
        } else if s.len() >= 8 && s[1] == 'O' && s[2] == 'C' && s[3] == 'K' && s[4] == 'E' && s[5] == 'T' && s[6] == '_' && s[7] == 'F' {
            5
        } else if s.len() >= 8 && s[1] == 'O' && s[2] == 'C' && s[3] == 'K' && s[4] == 'E' && s[5] == 'T' && s[6] == '_' && s[7] == 'R' {
            6
        } else {
            131
        }
    } else if s.len() > 0 && s[0] == 'T' {
        if s.len() >= 5 && s[1] == 'A' && s[2] == 'P' && s[3] == '_' && s[4] == 'F' {
            85
        } else if s.len() >= 5 && s[1] == 'A' && s[2] == 'P' && s[3] == '_' && s[4] == 'T' {
            86
        } else if s.len() >= 6 && s[1] == 'C' && s[2] == 'P' && s[3] == '_' && s[4] == 'A' && s[5] == 'B' {
            31
        } else if s.len() >= 6 && s[1] == 'C' && s[2] == 'P' && s[3] == '_' && s[4] == 'A' && s[5] == 'C' {
            51
        } else if s.len() >= 7 && s[1] == 'C' && s[2] == 'P' && s[3] == '_' && s[4] == 'A' && s[5] == 'O' && s[6] == 'F' {
            28
        } else if s.len() >= 7 && s[1] == 'C' && s[2] == 'P' && s[3] == '_' && s[4] == 'A' && s[5] == 'O' && s[6] == 'K' {
            27
        } else if s.len() >= 7 && s[1] == 'C' && s[2] == 'P' && s[3] == '_' && s[4] == 'A' && s[5] == 'O' && s[6] == 'N' {
            25
        } else if s.len() >= 7 && s[1] == 'C' && s[2] == 'P' && s[3] == '_' && s[4] == 'A' && s[5] == 'O' && s[6] == 'U' {
            26
        } else if s.len() >= 6 && s[1] == 'C' && s[2] == 'P' && s[3] == '_' && s[4] == 'A' && s[5] == 'U' {
            21
        } else if s.len() >= 6 && s[1] == 'C' && s[2] == 'P' && s[3] == '_' && s[4] == 'C' && s[5] == 'L' {
            47
        } else if s.len() >= 6 && s[1] == 'C' && s[2] == 'P' && s[3] == '_' && s[4] == 'C' && s[5] == 'S' {
            10
        } else if s.len() >= 6 && s[1] == 'C' && s[2] == 'P' && s[3] == '_' && s[4] == 'F' && s[5] == 'A' {
            48
        } else if s.len() >= 6 && s[1] == 'C' && s[2] == 'P' && s[3] == '_' && s[4] == 'F' && s[5] == 'L' {
            30
        } else if s.len() >= 13 && s[1] == 'C' && s[2] == 'P' && s[3] == '_' && s[4] == 'I' && s[5] == 'N' && s[6] == 'V' && s[7] == 'A' && s[8] == 'L' && s[9] == 'I' && s[10] == 'D' && s[11] == '_' && s[12] == 'A' {
            44
        } else if s.len() >= 13 && s[1] == 'C' && s[2] == 'P' && s[3] == '_' && s[4] == 'I' && s[5] == 'N' && s[6] == 'V' && s[7] == 'A' && s[8] == 'L' && s[9] == 'I' && s[10] == 'D' && s[11] == '_' && s[12] == 'E' {
            43
        } else if s.len() >= 14 && s[1] == 'C' && s[2] == 'P' && s[3] == '_' && s[4] == 'I' && s[5] == 'N' && s[6] == 'V' && s[7] == 'A' && s[8] == 'L' && s[9] == 'I' && s[10] == 'D' && s[11] == '_' && s[12] == 'S' && s[13] == 'E' {
            42
        } else if s.len() >= 14 && s[1] == 'C' && s[2] == 'P' && s[3] == '_' && s[4] == 'I' && s[5] == 'N' && s[6] == 'V' && s[7] == 'A' && s[8] == 'L' && s[9] == 'I' && s[10] == 'D' && s[11] == '_' && s[12] == 'S' && s[13] == 'Y' {
            46
        } else if s.len() >= 5 && s[1] == 'C' && s[2] == 'P' && s[3] == '_' && s[4] == 'L' {
            40
        } else if s.len() >= 8 && s[1] == 'C' && s[2] == 'P' && s[3] == '_' && s[4] == 'M' && s[5] == 'D' && s[6] == '5' && s[7] == 'F' {
            24
        } else if s.len() >= 8 && s[1] == 'C' && s[2] == 'P' && s[3] == '_' && s[4] == 'M' && s[5] == 'D' && s[6] == '5' && s[7] == 'N' {
            22
        } else if s.len() >= 8 && s[1] == 'C' && s[2] == 'P' && s[3] == '_' && s[4] == 'M' && s[5] == 'D' && s[6] == '5' && s[7] == 'U' {
            23
        } else if s.len() >= 6 && s[1] == 'C' && s[2] == 'P' && s[3] == '_' && s[4] == 'M' && s[5] == 'I' {
            99
        } else if s.len() >= 8 && s[1] == 'C' && s[2] == 'P' && s[3] == '_' && s[4] == 'O' && s[5] == 'F' && s[6] == 'O' && s[7] == 'M' {
            35
        } else if s.len() >= 9 && s[1] == 'C' && s[2] == 'P' && s[3] == '_' && s[4] == 'O' && s[5] == 'F' && s[6] == 'O' && s[7] == '_' && s[8] == 'D' {
            53
        } else if s.len() >= 9 && s[1] == 'C' && s[2] == 'P' && s[3] == '_' && s[4] == 'O' && s[5] == 'F' && s[6] == 'O' && s[7] == '_' && s[8] == 'Q' {
            52
        } else if s.len() >= 9 && s[1] == 'C' && s[2] == 'P' && s[3] == '_' && s[4] == 'O' && s[5] == 'L' && s[6] == 'D' && s[7] == '_' && s[8] == 'A' {
            49
        } else if s.len() >= 9 && s[1] == 'C' && s[2] == 'P' && s[3] == '_' && s[4] == 'O' && s[5] == 'L' && s[6] == 'D' && s[7] == '_' && s[8] == 'D' {
            33
        } else if s.len() >= 9 && s[1] == 'C' && s[2] == 'P' && s[3] == '_' && s[4] == 'O' && s[5] == 'L' && s[6] == 'D' && s[7] == '_' && s[8] == 'S' {
            41
        } else if s.len() >= 6 && s[1] == 'C' && s[2] == 'P' && s[3] == '_' && s[4] == 'O' && s[5] == 'V' {
            34
        } else if s.len() >= 6 && s[1] == 'C' && s[2] == 'P' && s[3] == '_' && s[4] == 'R' && s[5] == 'E' {
            45
        } else if s.len() == 16 && s[1] == 'C' && s[2] == 'P' && s[3] == '_' && s[4] == 'R' && s[5] == 'F' && s[6] == 'C' && s[7] == '7' && s[8] == '3' && s[9] == '2' && s[10] == '3' && s[11] == '_' && s[12] == 'P' && s[13] == 'A' && s[14] == 'W' && s[15] == 'S' {
            36
        } else if s.len() >= 17 && s[1] == 'C' && s[2] == 'P' && s[3] == '_' && s[4] == 'R' && s[5] == 'F' && s[6] == 'C' && s[7] == '7' && s[8] == '3' && s[9] == '2' && s[10] == '3' && s[11] == '_' && s[12] == 'P' && s[13] == 'A' && s[14] == 'W' && s[15] == 'S' && s[16] == '_' {
            37
        } else if s.len() >= 14 && s[1] == 'C' && s[2] == 'P' && s[3] == '_' && s[4] == 'R' && s[5] == 'F' && s[6] == 'C' && s[7] == '7' && s[8] == '3' && s[9] == '2' && s[10] == '3' && s[11] == '_' && s[12] == 'T' && s[13] == 'S' {
            39
        } else if s.len() >= 14 && s[1] == 'C' && s[2] == 'P' && s[3] == '_' && s[4] == 'R' && s[5] == 'F' && s[6] == 'C' && s[7] == '7' && s[8] == '3' && s[9] == '2' && s[10] == '3' && s[11] == '_' && s[12] == 'T' && s[13] == 'W' {
            38
        } else if s.len() >= 5 && s[1] == 'C' && s[2] == 'P' && s[3] == '_' && s[4] == 'T' {
            50
        } else if s.len() >= 5 && s[1] == 'C' && s[2] == 'P' && s[3] == '_' && s[4] == 'Z' {
            32
        } else if s.len() >= 5 && s[1] == 'C' && s[2] == '_' && s[3] == 'C' && s[4] == 'H' {
            109
        } else if s.len() >= 5 && s[1] == 'C' && s[2] == '_' && s[3] == 'C' && s[4] == 'O' {
            107
        } else if s.len() >= 4 && s[1] == 'C' && s[2] == '_' && s[3] == 'E' {
            62
        } else if s.len() >= 4 && s[1] == 'C' && s[2] == '_' && s[3] == 'I' {
            74
        } else if s.len() >= 4 && s[1] == 'C' && s[2] == '_' && s[3] == 'R' {
            110
        } else if s.len() >= 2 && s[1] == 'U' {
            117
        } else {
            131
        }
    } else if s.len() > 0 && s[0] == 'U' {
        if s.len() >= 2 && s[1] == 'D' {
            11
        } else if s.len() >= 3 && s[1] == 'N' && s[2] == 'H' {
            75
        } else if s.len() >= 4 && s[1] == 'N' && s[2] == 'I' && s[3] == 'C' {
            17
        } else if s.len() >= 6 && s[1] == 'N' && s[2] == 'I' && s[3] == 'X' && s[4] == '_' && s[5] == 'D' {
            7
        } else if s.len() >= 6 && s[1] == 'N' && s[2] == 'I' && s[3] == 'X' && s[4] == '_' && s[5] == 'S' {
            8
        } else {
            131
        }
    } else if s.len() > 0 && s[0] == 'V' {
        if s.len() >= 7 && s[1] == 'X' && s[2] == 'L' && s[3] == 'A' && s[4] == 'N' && s[5] == '_' && s[6] == 'E' {
            114
        } else if s.len() >= 7 && s[1] == 'X' && s[2] == 'L' && s[3] == 'A' && s[4] == 'N' && s[5] == '_' && s[6] == 'I' {
            111
        } else if s.len() >= 7 && s[1] == 'X' && s[2] == 'L' && s[3] == 'A' && s[4] == 'N' && s[5] == '_' && s[6] == 'V' {
            112
        } else {
            131
        }
    } else if s.len() > 0 && s[0] == 'X' {
        if s.len() >= 2 && s[1] == 'D' {
            73
        } else if s.len() >= 2 && s[1] == 'F' {
            18
        } else {
            131
        }
    } else {
        131
    }
}

/// All characters of a name satisfy [`name_char`].
proof fn lemma_all_name_chars(s: Seq<char>)
    requires
        all_name_chars(s),
    ensures
        forall|i: int| 0 <= i < s.len() ==> name_char(#[trigger] s[i]),
    decreases s.len(),
{
    if s.len() > 0 {
        lemma_all_name_chars(s.drop_last());
        assert forall|i: int| 0 <= i < s.len() implies name_char(#[trigger] s[i]) by {
            if i < s.len() - 1 {
                assert(s[i] == s.drop_last()[i]);
            }
        }
    }
}

/// Each name decodes to the code of its reason (`NOT_SPECIFIED` to code 0)
/// and is a non-empty run of name characters.
#[verifier::rlimit(100)]
#[verifier::spinoff_prover]
proof fn lemma_name_decodes(r: SkbDropReason)
    ensures
        code_of_name(label_of(r)) == (if r == SkbDropReason::NotSpecifiedReason {
            0
        } else {
            r.spec_code() as int
        }),
        label_of(r).len() > 0,
{
}

/// The names of group 0 of the reasons are runs of name characters.
#[verifier::rlimit(100)]
#[verifier::spinoff_prover]
proof fn lemma_name_chars_0(r: SkbDropReason)
    requires
        r == SkbDropReason::NotSpecified || r == SkbDropReason::Consumed || r == SkbDropReason::NotSpecifiedReason || r == SkbDropReason::NoSocket || r == SkbDropReason::SocketClose || r == SkbDropReason::SocketFilter || r == SkbDropReason::SocketRcvbuff || r == SkbDropReason::UnixDisconnect || r == SkbDropReason::UnixSkipOob || r == SkbDropReason::PktTooSmall || r == SkbDropReason::TcpCsum,
    ensures
        all_name_chars(label_of(r)),
{
    reveal_with_fuel(all_name_chars, 32);
}

/// The names of group 1 of the reasons are runs of name characters.
#[verifier::rlimit(100)]
#[verifier::spinoff_prover]
proof fn lemma_name_chars_1(r: SkbDropReason)
    requires
        r == SkbDropReason::UdpCsum || r == SkbDropReason::NetfilterDrop || r == SkbDropReason::OtherHost || r == SkbDropReason::IpCsum || r == SkbDropReason::IpInhdr || r == SkbDropReason::IpRpfilter || r == SkbDropReason::UnicastInL2Multicast || r == SkbDropReason::XfrmPolicy || r == SkbDropReason::IpNoProto || r == SkbDropReason::ProtoMem || r == SkbDropReason::TcpAuthHdr,
    ensures
        all_name_chars(label_of(r)),
{
    reveal_with_fuel(all_name_chars, 32);
}

/// The names of group 2 of the reasons are runs of name characters.
#[verifier::rlimit(100)]
#[verifier::spinoff_prover]
proof fn lemma_name_chars_2(r: SkbDropReason)
    requires
        r == SkbDropReason::TcpMd5NotFound || r == SkbDropReason::TcpMd5Unexpected || r == SkbDropReason::TcpMd5Failure || r == SkbDropReason::TcpAoNotFound || r == SkbDropReason::TcpAoUnexpected || r == SkbDropReason::TcpAoKeyNotFound || r == SkbDropReason::TcpAoFailure || r == SkbDropReason::SocketBacklog || r == SkbDropReason::TcpFlags || r == SkbDropReason::TcpAbortOnData || r == SkbDropReason::TcpZeroWindow,
    ensures
        all_name_chars(label_of(r)),
{
    reveal_with_fuel(all_name_chars, 32);
}

/// The names of group 3 of the reasons are runs of name characters.
#[verifier::rlimit(100)]
#[verifier::spinoff_prover]
proof fn lemma_name_chars_3(r: SkbDropReason)
    requires
        r == SkbDropReason::TcpOldData || r == SkbDropReason::TcpOverWindow || r == SkbDropReason::TcpOfoMerge || r == SkbDropReason::TcpRfc7323Paws || r == SkbDropReason::TcpRfc7323PawsAck || r == SkbDropReason::TcpRfc7323TwPaws || r == SkbDropReason::TcpRfc7323Tsecr || r == SkbDropReason::TcpListenOverflow || r == SkbDropReason::TcpOldSequence || r == SkbDropReason::TcpInvalidSequence || r == SkbDropReason::TcpInvalidEndSequence,
    ensures
        all_name_chars(label_of(r)),
{
    reveal_with_fuel(all_name_chars, 32);
}

/// The names of group 4 of the reasons are runs of name characters.
#[verifier::rlimit(100)]
#[verifier::spinoff_prover]
proof fn lemma_name_chars_4(r: SkbDropReason)
    requires
        r == SkbDropReason::TcpInvalidAckSequence || r == SkbDropReason::TcpReset || r == SkbDropReason::TcpInvalidSyn || r == SkbDropReason::TcpClose || r == SkbDropReason::TcpFastOpen || r == SkbDropReason::TcpOldAck || r == SkbDropReason::TcpTooOldAck || r == SkbDropReason::TcpAckUnsentData || r == SkbDropReason::TcpOfoQueuePrune || r == SkbDropReason::TcpOfoDrop || r == SkbDropReason::IpOutNoRoutes,
    ensures
        all_name_chars(label_of(r)),
{
    reveal_with_fuel(all_name_chars, 32);
}

/// The names of group 5 of the reasons are runs of name characters.
#[verifier::rlimit(100)]
#[verifier::spinoff_prover]
proof fn lemma_name_chars_5(r: SkbDropReason)
    requires
        r == SkbDropReason::BpfCgroupEgress || r == SkbDropReason::Ipv6Disabled || r == SkbDropReason::NeighCreateFail || r == SkbDropReason::NeighFailed || r == SkbDropReason::NeighQueueFull || r == SkbDropReason::NeighDead || r == SkbDropReason::NeighHhFillFail || r == SkbDropReason::TcEgress || r == SkbDropReason::SecurityHook || r == SkbDropReason::QdiscDrop || r == SkbDropReason::QdiscBurstDrop,
    ensures
        all_name_chars(label_of(r)),
{
    reveal_with_fuel(all_name_chars, 32);
}

/// The names of group 6 of the reasons are runs of name characters.
#[verifier::rlimit(100)]
#[verifier::spinoff_prover]
proof fn lemma_name_chars_6(r: SkbDropReason)
    requires
        r == SkbDropReason::QdiscOverlimit || r == SkbDropReason::QdiscCongested || r == SkbDropReason::CakeFlood || r == SkbDropReason::FqBandLimit || r == SkbDropReason::FqHorizonLimit || r == SkbDropReason::FqFlowLimit || r == SkbDropReason::CpuBacklog || r == SkbDropReason::Xdp || r == SkbDropReason::TcIngress || r == SkbDropReason::UnhandledProto || r == SkbDropReason::SkbCsum,
    ensures
        all_name_chars(label_of(r)),
{
    reveal_with_fuel(all_name_chars, 32);
}

/// The names of group 7 of the reasons are runs of name characters.
#[verifier::rlimit(100)]
#[verifier::spinoff_prover]
proof fn lemma_name_chars_7(r: SkbDropReason)
    requires
        r == SkbDropReason::SkbGsoSeg || r == SkbDropReason::SkbBadGso || r == SkbDropReason::SkbUcopyFault || r == SkbDropReason::DevHdr || r == SkbDropReason::DevReady || r == SkbDropReason::FullRing || r == SkbDropReason::NoMem || r == SkbDropReason::HdrTrunc || r == SkbDropReason::TapFilter || r == SkbDropReason::TapTxFilter || r == SkbDropReason::IcmpCsum,
    ensures
        all_name_chars(label_of(r)),
{
    reveal_with_fuel(all_name_chars, 32);
}

/// The names of group 8 of the reasons are runs of name characters.
#[verifier::rlimit(100)]
#[verifier::spinoff_prover]
proof fn lemma_name_chars_8(r: SkbDropReason)
    requires
        r == SkbDropReason::InvalidProto || r == SkbDropReason::IpInaddrErrors || r == SkbDropReason::IpInNoRoutes || r == SkbDropReason::IpLocalSource || r == SkbDropReason::IpInvalidSource || r == SkbDropReason::IpLocalnet || r == SkbDropReason::IpInvalidDest || r == SkbDropReason::PktTooBig || r == SkbDropReason::DupFrag || r == SkbDropReason::FragReasmTimeout || r == SkbDropReason::FragTooFar,
    ensures
        all_name_chars(label_of(r)),
{
    reveal_with_fuel(all_name_chars, 32);
}

/// The names of group 9 of the reasons are runs of name characters.
#[verifier::rlimit(100)]
#[verifier::spinoff_prover]
proof fn lemma_name_chars_9(r: SkbDropReason)
    requires
        r == SkbDropReason::TcpMinTtl || r == SkbDropReason::Ipv6BadExthdr || r == SkbDropReason::Ipv6NdiscFrag || r == SkbDropReason::Ipv6NdiscHopLimit || r == SkbDropReason::Ipv6NdiscBadCode || r == SkbDropReason::Ipv6NdiscBadOptions || r == SkbDropReason::Ipv6NdiscNsOtherhost || r == SkbDropReason::QueuePurge || r == SkbDropReason::TcCookieError || r == SkbDropReason::PacketSocketError || r == SkbDropReason::TcChainNotFound,
    ensures
        all_name_chars(label_of(r)),
{
    reveal_with_fuel(all_name_chars, 32);
}

/// The names of group 10 of the reasons are runs of name characters.
#[verifier::rlimit(100)]
#[verifier::spinoff_prover]
proof fn lemma_name_chars_10(r: SkbDropReason)
    requires
        r == SkbDropReason::TcReclassifyLoop || r == SkbDropReason::VxlanInvalidHdr || r == SkbDropReason::VxlanVniNotFound || r == SkbDropReason::MacInvalidSource || r == SkbDropReason::VxlanEntryExists || r == SkbDropReason::NoTxTarget || r == SkbDropReason::IpTunnelEcn || r == SkbDropReason::TunnelTxinfo || r == SkbDropReason::LocalMac || r == SkbDropReason::ArpPvlanDisable || r == SkbDropReason::MacIeeeMacControl,
    ensures
        all_name_chars(label_of(r)),
{
    reveal_with_fuel(all_name_chars, 32);
}

/// The names of group 11 of the reasons are runs of name characters.
#[verifier::rlimit(100)]
#[verifier::spinoff_prover]
proof fn lemma_name_chars_11(r: SkbDropReason)
    requires
        r == SkbDropReason::BridgeIngressStpState || r == SkbDropReason::CanRxInvalidFrame || r == SkbDropReason::CanfdRxInvalidFrame || r == SkbDropReason::CanxlRxInvalidFrame || r == SkbDropReason::PmemAlloc || r == SkbDropReason::DualPi2StepDrop || r == SkbDropReason::PspInput || r == SkbDropReason::PspOutput || r == SkbDropReason::RecursionLimit || r == SkbDropReason::Max,
    ensures
        all_name_chars(label_of(r)),
{
    reveal_with_fuel(all_name_chars, 32);
}

/// Every name is a run of name characters.
proof fn lemma_name_chars(r: SkbDropReason)
    ensures
        all_name_chars(label_of(r)),
{
    if r == SkbDropReason::NotSpecified || r == SkbDropReason::Consumed || r == SkbDropReason::NotSpecifiedReason || r == SkbDropReason::NoSocket || r == SkbDropReason::SocketClose || r == SkbDropReason::SocketFilter || r == SkbDropReason::SocketRcvbuff || r == SkbDropReason::UnixDisconnect || r == SkbDropReason::UnixSkipOob || r == SkbDropReason::PktTooSmall || r == SkbDropReason::TcpCsum {
        lemma_name_chars_0(r);
    }
    if r == SkbDropReason::UdpCsum || r == SkbDropReason::NetfilterDrop || r == SkbDropReason::OtherHost || r == SkbDropReason::IpCsum || r == SkbDropReason::IpInhdr || r == SkbDropReason::IpRpfilter || r == SkbDropReason::UnicastInL2Multicast || r == SkbDropReason::XfrmPolicy || r == SkbDropReason::IpNoProto || r == SkbDropReason::ProtoMem || r == SkbDropReason::TcpAuthHdr {
        lemma_name_chars_1(r);
    }
    if r == SkbDropReason::TcpMd5NotFound || r == SkbDropReason::TcpMd5Unexpected || r == SkbDropReason::TcpMd5Failure || r == SkbDropReason::TcpAoNotFound || r == SkbDropReason::TcpAoUnexpected || r == SkbDropReason::TcpAoKeyNotFound || r == SkbDropReason::TcpAoFailure || r == SkbDropReason::SocketBacklog || r == SkbDropReason::TcpFlags || r == SkbDropReason::TcpAbortOnData || r == SkbDropReason::TcpZeroWindow {
        lemma_name_chars_2(r);
    }
    if r == SkbDropReason::TcpOldData || r == SkbDropReason::TcpOverWindow || r == SkbDropReason::TcpOfoMerge || r == SkbDropReason::TcpRfc7323Paws || r == SkbDropReason::TcpRfc7323PawsAck || r == SkbDropReason::TcpRfc7323TwPaws || r == SkbDropReason::TcpRfc7323Tsecr || r == SkbDropReason::TcpListenOverflow || r == SkbDropReason::TcpOldSequence || r == SkbDropReason::TcpInvalidSequence || r == SkbDropReason::TcpInvalidEndSequence {
        lemma_name_chars_3(r);
    }
    if r == SkbDropReason::TcpInvalidAckSequence || r == SkbDropReason::TcpReset || r == SkbDropReason::TcpInvalidSyn || r == SkbDropReason::TcpClose || r == SkbDropReason::TcpFastOpen || r == SkbDropReason::TcpOldAck || r == SkbDropReason::TcpTooOldAck || r == SkbDropReason::TcpAckUnsentData || r == SkbDropReason::TcpOfoQueuePrune || r == SkbDropReason::TcpOfoDrop || r == SkbDropReason::IpOutNoRoutes {
        lemma_name_chars_4(r);
    }
    if r == SkbDropReason::BpfCgroupEgress || r == SkbDropReason::Ipv6Disabled || r == SkbDropReason::NeighCreateFail || r == SkbDropReason::NeighFailed || r == SkbDropReason::NeighQueueFull || r == SkbDropReason::NeighDead || r == SkbDropReason::NeighHhFillFail || r == SkbDropReason::TcEgress || r == SkbDropReason::SecurityHook || r == SkbDropReason::QdiscDrop || r == SkbDropReason::QdiscBurstDrop {
        lemma_name_chars_5(r);
    }
    if r == SkbDropReason::QdiscOverlimit || r == SkbDropReason::QdiscCongested || r == SkbDropReason::CakeFlood || r == SkbDropReason::FqBandLimit || r == SkbDropReason::FqHorizonLimit || r == SkbDropReason::FqFlowLimit || r == SkbDropReason::CpuBacklog || r == SkbDropReason::Xdp || r == SkbDropReason::TcIngress || r == SkbDropReason::UnhandledProto || r == SkbDropReason::SkbCsum {
        lemma_name_chars_6(r);
    }
    if r == SkbDropReason::SkbGsoSeg || r == SkbDropReason::SkbBadGso || r == SkbDropReason::SkbUcopyFault || r == SkbDropReason::DevHdr || r == SkbDropReason::DevReady || r == SkbDropReason::FullRing || r == SkbDropReason::NoMem || r == SkbDropReason::HdrTrunc || r == SkbDropReason::TapFilter || r == SkbDropReason::TapTxFilter || r == SkbDropReason::IcmpCsum {
        lemma_name_chars_7(r);
    }
    if r == SkbDropReason::InvalidProto || r == SkbDropReason::IpInaddrErrors || r == SkbDropReason::IpInNoRoutes || r == SkbDropReason::IpLocalSource || r == SkbDropReason::IpInvalidSource || r == SkbDropReason::IpLocalnet || r == SkbDropReason::IpInvalidDest || r == SkbDropReason::PktTooBig || r == SkbDropReason::DupFrag || r == SkbDropReason::FragReasmTimeout || r == SkbDropReason::FragTooFar {
        lemma_name_chars_8(r);
    }
    if r == SkbDropReason::TcpMinTtl || r == SkbDropReason::Ipv6BadExthdr || r == SkbDropReason::Ipv6NdiscFrag || r == SkbDropReason::Ipv6NdiscHopLimit || r == SkbDropReason::Ipv6NdiscBadCode || r == SkbDropReason::Ipv6NdiscBadOptions || r == SkbDropReason::Ipv6NdiscNsOtherhost || r == SkbDropReason::QueuePurge || r == SkbDropReason::TcCookieError || r == SkbDropReason::PacketSocketError || r == SkbDropReason::TcChainNotFound {
        lemma_name_chars_9(r);
    }
    if r == SkbDropReason::TcReclassifyLoop || r == SkbDropReason::VxlanInvalidHdr || r == SkbDropReason::VxlanVniNotFound || r == SkbDropReason::MacInvalidSource || r == SkbDropReason::VxlanEntryExists || r == SkbDropReason::NoTxTarget || r == SkbDropReason::IpTunnelEcn || r == SkbDropReason::TunnelTxinfo || r == SkbDropReason::LocalMac || r == SkbDropReason::ArpPvlanDisable || r == SkbDropReason::MacIeeeMacControl {
        lemma_name_chars_10(r);
    }
    if r == SkbDropReason::BridgeIngressStpState || r == SkbDropReason::CanRxInvalidFrame || r == SkbDropReason::CanfdRxInvalidFrame || r == SkbDropReason::CanxlRxInvalidFrame || r == SkbDropReason::PmemAlloc || r == SkbDropReason::DualPi2StepDrop || r == SkbDropReason::PspInput || r == SkbDropReason::PspOutput || r == SkbDropReason::RecursionLimit || r == SkbDropReason::Max {
        lemma_name_chars_11(r);
    }
}

/// Reason names are distinct, except that `NotSpecified` and
/// `NotSpecifiedReason` are both `NOT_SPECIFIED`; every name is non-empty
/// and made of upper-case ASCII letters, digits and `_`.
pub proof fn lemma_reason_names_distinct(a: SkbDropReason, b: SkbDropReason)
    ensures
        reason_label(a) == reason_label(b) ==> a == b || ((a == SkbDropReason::NotSpecified
            || a == SkbDropReason::NotSpecifiedReason) && (b == SkbDropReason::NotSpecified || b
            == SkbDropReason::NotSpecifiedReason)),
        reason_label(a).len() > 0,
        forall|i: int| 0 <= i < reason_label(a).len() ==> name_char(#[trigger] reason_label(a)[i]),
{
    reveal(reason_label);
    lemma_name_decodes(a);
    lemma_name_decodes(b);
    lemma_code_round_trip(a);
    lemma_code_round_trip(b);
    lemma_name_chars(a);
    lemma_all_name_chars(label_of(a));
}

/// The kernel's name of each drop reason code, as `enum skb_drop_reason`
/// spells it without its `SKB_DROP_REASON_` prefix; every value past the
/// last code is `MAX`.
pub open spec fn kernel_reason_name(code: u32) -> Seq<char> {
    match code {
        0u32 => "NOT_SPECIFIED"@,
        1u32 => "CONSUMED"@,
        2u32 => "NOT_SPECIFIED"@,
        3u32 => "NO_SOCKET"@,
        4u32 => "SOCKET_CLOSE"@,
        5u32 => "SOCKET_FILTER"@,
        6u32 => "SOCKET_RCVBUFF"@,
        7u32 => "UNIX_DISCONNECT"@,
        8u32 => "UNIX_SKIP_OOB"@,
        9u32 => "PKT_TOO_SMALL"@,
        10u32 => "TCP_CSUM"@,
        11u32 => "UDP_CSUM"@,
        12u32 => "NETFILTER_DROP"@,
        13u32 => "OTHERHOST"@,
        14u32 => "IP_CSUM"@,
        15u32 => "IP_INHDR"@,
        16u32 => "IP_RPFILTER"@,
        17u32 => "UNICAST_IN_L2_MULTICAST"@,
        18u32 => "XFRM_POLICY"@,
        19u32 => "IP_NOPROTO"@,
        20u32 => "PROTO_MEM"@,
        21u32 => "TCP_AUTH_HDR"@,
        22u32 => "TCP_MD5NOTFOUND"@,
        23u32 => "TCP_MD5UNEXPECTED"@,
        24u32 => "TCP_MD5FAILURE"@,
        25u32 => "TCP_AONOTFOUND"@,
        26u32 => "TCP_AOUNEXPECTED"@,
        27u32 => "TCP_AOKEYNOTFOUND"@,
        28u32 => "TCP_AOFAILURE"@,
        29u32 => "SOCKET_BACKLOG"@,
        30u32 => "TCP_FLAGS"@,
        31u32 => "TCP_ABORT_ON_DATA"@,
        32u32 => "TCP_ZEROWINDOW"@,
        33u32 => "TCP_OLD_DATA"@,
        34u32 => "TCP_OVERWINDOW"@,
        35u32 => "TCP_OFOMERGE"@,
        36u32 => "TCP_RFC7323_PAWS"@,
        37u32 => "TCP_RFC7323_PAWS_ACK"@,
        38u32 => "TCP_RFC7323_TW_PAWS"@,
        39u32 => "TCP_RFC7323_TSECR"@,
        40u32 => "TCP_LISTEN_OVERFLOW"@,
        41u32 => "TCP_OLD_SEQUENCE"@,
        42u32 => "TCP_INVALID_SEQUENCE"@,
        43u32 => "TCP_INVALID_END_SEQUENCE"@,
        44u32 => "TCP_INVALID_ACK_SEQUENCE"@,
        45u32 => "TCP_RESET"@,
        46u32 => "TCP_INVALID_SYN"@,
        47u32 => "TCP_CLOSE"@,
        48u32 => "TCP_FASTOPEN"@,
        49u32 => "TCP_OLD_ACK"@,
        50u32 => "TCP_TOO_OLD_ACK"@,
        51u32 => "TCP_ACK_UNSENT_DATA"@,
        52u32 => "TCP_OFO_QUEUE_PRUNE"@,
        53u32 => "TCP_OFO_DROP"@,
        54u32 => "IP_OUTNOROUTES"@,
        55u32 => "BPF_CGROUP_EGRESS"@,
        56u32 => "IPV6DISABLED"@,
        57u32 => "NEIGH_CREATEFAIL"@,
        58u32 => "NEIGH_FAILED"@,
        59u32 => "NEIGH_QUEUEFULL"@,
        60u32 => "NEIGH_DEAD"@,
        61u32 => "NEIGH_HH_FILLFAIL"@,
        62u32 => "TC_EGRESS"@,
        63u32 => "SECURITY_HOOK"@,
        64u32 => "QDISC_DROP"@,
        65u32 => "QDISC_BURST_DROP"@,
        66u32 => "QDISC_OVERLIMIT"@,
        67u32 => "QDISC_CONGESTED"@,
        68u32 => "CAKE_FLOOD"@,
        69u32 => "FQ_BAND_LIMIT"@,
        70u32 => "FQ_HORIZON_LIMIT"@,
        71u32 => "FQ_FLOW_LIMIT"@,
        72u32 => "CPU_BACKLOG"@,
        73u32 => "XDP"@,
        74u32 => "TC_INGRESS"@,
        75u32 => "UNHANDLED_PROTO"@,
        76u32 => "SKB_CSUM"@,
        77u32 => "SKB_GSO_SEG"@,
        78u32 => "SKB_BAD_GSO"@,
        79u32 => "SKB_UCOPY_FAULT"@,
        80u32 => "DEV_HDR"@,
        81u32 => "DEV_READY"@,
        82u32 => "FULL_RING"@,
        83u32 => "NOMEM"@,
        84u32 => "HDR_TRUNC"@,
        85u32 => "TAP_FILTER"@,
        86u32 => "TAP_TXFILTER"@,
        87u32 => "ICMP_CSUM"@,
        88u32 => "INVALID_PROTO"@,
        89u32 => "IP_INADDRERRORS"@,
        90u32 => "IP_INNOROUTES"@,
        91u32 => "IP_LOCAL_SOURCE"@,
        92u32 => "IP_INVALID_SOURCE"@,
        93u32 => "IP_LOCALNET"@,
        94u32 => "IP_INVALID_DEST"@,
        95u32 => "PKT_TOO_BIG"@,
        96u32 => "DUP_FRAG"@,
        97u32 => "FRAG_REASM_TIMEOUT"@,
        98u32 => "FRAG_TOO_FAR"@,
        99u32 => "TCP_MINTTL"@,
        100u32 => "IPV6_BAD_EXTHDR"@,
        101u32 => "IPV6_NDISC_FRAG"@,
        102u32 => "IPV6_NDISC_HOP_LIMIT"@,
        103u32 => "IPV6_NDISC_BAD_CODE"@,
        104u32 => "IPV6_NDISC_BAD_OPTIONS"@,
        105u32 => "IPV6_NDISC_NS_OTHERHOST"@,
        106u32 => "QUEUE_PURGE"@,
        107u32 => "TC_COOKIE_ERROR"@,
        108u32 => "PACKET_SOCK_ERROR"@,
        109u32 => "TC_CHAIN_NOTFOUND"@,
        110u32 => "TC_RECLASSIFY_LOOP"@,
        111u32 => "VXLAN_INVALID_HDR"@,
        112u32 => "VXLAN_VNI_NOT_FOUND"@,
        113u32 => "MAC_INVALID_SOURCE"@,
        114u32 => "VXLAN_ENTRY_EXISTS"@,
        115u32 => "NO_TX_TARGET"@,
        116u32 => "IP_TUNNEL_ECN"@,
        117u32 => "TUNNEL_TXINFO"@,
        118u32 => "LOCAL_MAC"@,
        119u32 => "ARP_PVLAN_DISABLE"@,
        120u32 => "MAC_IEEE_MAC_CONTROL"@,
        121u32 => "BRIDGE_INGRESS_STP_STATE"@,
        122u32 => "CAN_RX_INVALID_FRAME"@,
        123u32 => "CANFD_RX_INVALID_FRAME"@,
        124u32 => "CANXL_RX_INVALID_FRAME"@,
        125u32 => "PFMEMALLOC"@,
        126u32 => "DUALPI2_STEP_DROP"@,
        127u32 => "PSP_INPUT"@,
        128u32 => "PSP_OUTPUT"@,
        129u32 => "RECURSION_LIMIT"@,
        _ => "MAX"@,
    }
}

/// The codes 0 to 10 are displayed under the kernel's names.
#[verifier::rlimit(100)]
#[verifier::spinoff_prover]
proof fn lemma_kernel_names_0(code: u32)
    requires
        0 <= code <= 10,
    ensures
        label_of(reason_from_code(code)) == kernel_reason_name(code),
{
    if code == 0 {
        reveal_strlit("NOT_SPECIFIED");
        assert(label_of(reason_from_code(code)) =~= kernel_reason_name(code));
    } else if code == 1 {
        reveal_strlit("CONSUMED");
        assert(label_of(reason_from_code(code)) =~= kernel_reason_name(code));
    } else if code == 2 {
        reveal_strlit("NOT_SPECIFIED");
        assert(label_of(reason_from_code(code)) =~= kernel_reason_name(code));
    } else if code == 3 {
        reveal_strlit("NO_SOCKET");
        assert(label_of(reason_from_code(code)) =~= kernel_reason_name(code));
    } else if code == 4 {
        reveal_strlit("SOCKET_CLOSE");
        assert(label_of(reason_from_code(code)) =~= kernel_reason_name(code));
    } else if code == 5 {
        reveal_strlit("SOCKET_FILTER");
        assert(label_of(reason_from_code(code)) =~= kernel_reason_name(code));
    } else if code == 6 {
        reveal_strlit("SOCKET_RCVBUFF");
        assert(label_of(reason_from_code(code)) =~= kernel_reason_name(code));
    } else if code == 7 {
        reveal_strlit("UNIX_DISCONNECT");
        assert(label_of(reason_from_code(code)) =~= kernel_reason_name(code));
    } else if code == 8 {
        reveal_strlit("UNIX_SKIP_OOB");
        assert(label_of(reason_from_code(code)) =~= kernel_reason_name(code));
    } else if code == 9 {
        reveal_strlit("PKT_TOO_SMALL");
        assert(label_of(reason_from_code(code)) =~= kernel_reason_name(code));
    } else if code == 10 {
        reveal_strlit("TCP_CSUM");
        assert(label_of(reason_from_code(code)) =~= kernel_reason_name(code));
    }
}

/// The codes 11 to 21 are displayed under the kernel's names.
#[verifier::rlimit(100)]
#[verifier::spinoff_prover]
proof fn lemma_kernel_names_1(code: u32)
    requires
        11 <= code <= 21,
    ensures
        label_of(reason_from_code(code)) == kernel_reason_name(code),
{
    if code == 11 {
        reveal_strlit("UDP_CSUM");
        assert(label_of(reason_from_code(code)) =~= kernel_reason_name(code));
    } else if code == 12 {
        reveal_strlit("NETFILTER_DROP");
        assert(label_of(reason_from_code(code)) =~= kernel_reason_name(code));
    } else if code == 13 {
        reveal_strlit("OTHERHOST");
        assert(label_of(reason_from_code(code)) =~= kernel_reason_name(code));
    } else if code == 14 {
        reveal_strlit("IP_CSUM");
        assert(label_of(reason_from_code(code)) =~= kernel_reason_name(code));
    } else if code == 15 {
        reveal_strlit("IP_INHDR");
        assert(label_of(reason_from_code(code)) =~= kernel_reason_name(code));
    } else if code == 16 {
        reveal_strlit("IP_RPFILTER");
        assert(label_of(reason_from_code(code)) =~= kernel_reason_name(code));
    } else if code == 17 {
        reveal_strlit("UNICAST_IN_L2_MULTICAST");
        assert(label_of(reason_from_code(code)) =~= kernel_reason_name(code));
    } else if code == 18 {
        reveal_strlit("XFRM_POLICY");
        assert(label_of(reason_from_code(code)) =~= kernel_reason_name(code));
    } else if code == 19 {
        reveal_strlit("IP_NOPROTO");
        assert(label_of(reason_from_code(code)) =~= kernel_reason_name(code));
    } else if code == 20 {
        reveal_strlit("PROTO_MEM");
        assert(label_of(reason_from_code(code)) =~= kernel_reason_name(code));
    } else if code == 21 {
        reveal_strlit("TCP_AUTH_HDR");
        assert(label_of(reason_from_code(code)) =~= kernel_reason_name(code));
    }
}

/// The codes 22 to 32 are displayed under the kernel's names.
#[verifier::rlimit(100)]
#[verifier::spinoff_prover]
proof fn lemma_kernel_names_2(code: u32)
    requires
        22 <= code <= 32,
    ensures
        label_of(reason_from_code(code)) == kernel_reason_name(code),
{
    if code == 22 {
        reveal_strlit("TCP_MD5NOTFOUND");
        assert(label_of(reason_from_code(code)) =~= kernel_reason_name(code));
    } else if code == 23 {
        reveal_strlit("TCP_MD5UNEXPECTED");
        assert(label_of(reason_from_code(code)) =~= kernel_reason_name(code));
    } else if code == 24 {
        reveal_strlit("TCP_MD5FAILURE");
        assert(label_of(reason_from_code(code)) =~= kernel_reason_name(code));
    } else if code == 25 {
        reveal_strlit("TCP_AONOTFOUND");
        assert(label_of(reason_from_code(code)) =~= kernel_reason_name(code));
    } else if code == 26 {
        reveal_strlit("TCP_AOUNEXPECTED");
        assert(label_of(reason_from_code(code)) =~= kernel_reason_name(code));
    } else if code == 27 {
        reveal_strlit("TCP_AOKEYNOTFOUND");
        assert(label_of(reason_from_code(code)) =~= kernel_reason_name(code));
    } else if code == 28 {
        reveal_strlit("TCP_AOFAILURE");
        assert(label_of(reason_from_code(code)) =~= kernel_reason_name(code));
    } else if code == 29 {
        reveal_strlit("SOCKET_BACKLOG");
        assert(label_of(reason_from_code(code)) =~= kernel_reason_name(code));
    } else if code == 30 {
        reveal_strlit("TCP_FLAGS");
        assert(label_of(reason_from_code(code)) =~= kernel_reason_name(code));
    } else if code == 31 {
        reveal_strlit("TCP_ABORT_ON_DATA");
        assert(label_of(reason_from_code(code)) =~= kernel_reason_name(code));
    } else if code == 32 {
        reveal_strlit("TCP_ZEROWINDOW");
        assert(label_of(reason_from_code(code)) =~= kernel_reason_name(code));
    }
}

/// The codes 33 to 43 are displayed under the kernel's names.
#[verifier::rlimit(100)]
#[verifier::spinoff_prover]
proof fn lemma_kernel_names_3(code: u32)
    requires
        33 <= code <= 43,
    ensures
        label_of(reason_from_code(code)) == kernel_reason_name(code),
{
    if code == 33 {
        reveal_strlit("TCP_OLD_DATA");
        assert(label_of(reason_from_code(code)) =~= kernel_reason_name(code));
    } else if code == 34 {
        reveal_strlit("TCP_OVERWINDOW");
        assert(label_of(reason_from_code(code)) =~= kernel_reason_name(code));
    } else if code == 35 {
        reveal_strlit("TCP_OFOMERGE");
        assert(label_of(reason_from_code(code)) =~= kernel_reason_name(code));
    } else if code == 36 {
        reveal_strlit("TCP_RFC7323_PAWS");
        assert(label_of(reason_from_code(code)) =~= kernel_reason_name(code));
    } else if code == 37 {
        reveal_strlit("TCP_RFC7323_PAWS_ACK");
        assert(label_of(reason_from_code(code)) =~= kernel_reason_name(code));
    } else if code == 38 {
        reveal_strlit("TCP_RFC7323_TW_PAWS");
        assert(label_of(reason_from_code(code)) =~= kernel_reason_name(code));
    } else if code == 39 {
        reveal_strlit("TCP_RFC7323_TSECR");
        assert(label_of(reason_from_code(code)) =~= kernel_reason_name(code));
    } else if code == 40 {
        reveal_strlit("TCP_LISTEN_OVERFLOW");
        assert(label_of(reason_from_code(code)) =~= kernel_reason_name(code));
    } else if code == 41 {
        reveal_strlit("TCP_OLD_SEQUENCE");
        assert(label_of(reason_from_code(code)) =~= kernel_reason_name(code));
    } else if code == 42 {
        reveal_strlit("TCP_INVALID_SEQUENCE");
        assert(label_of(reason_from_code(code)) =~= kernel_reason_name(code));
    } else if code == 43 {
        reveal_strlit("TCP_INVALID_END_SEQUENCE");
        assert(label_of(reason_from_code(code)) =~= kernel_reason_name(code));
    }
}

/// The codes 44 to 54 are displayed under the kernel's names.
#[verifier::rlimit(100)]
#[verifier::spinoff_prover]
proof fn lemma_kernel_names_4(code: u32)
    requires
        44 <= code <= 54,
    ensures
        label_of(reason_from_code(code)) == kernel_reason_name(code),
{
    if code == 44 {
        reveal_strlit("TCP_INVALID_ACK_SEQUENCE");
        assert(label_of(reason_from_code(code)) =~= kernel_reason_name(code));
    } else if code == 45 {
        reveal_strlit("TCP_RESET");
        assert(label_of(reason_from_code(code)) =~= kernel_reason_name(code));
    } else if code == 46 {
        reveal_strlit("TCP_INVALID_SYN");
        assert(label_of(reason_from_code(code)) =~= kernel_reason_name(code));
    } else if code == 47 {
        reveal_strlit("TCP_CLOSE");
        assert(label_of(reason_from_code(code)) =~= kernel_reason_name(code));
    } else if code == 48 {
        reveal_strlit("TCP_FASTOPEN");
        assert(label_of(reason_from_code(code)) =~= kernel_reason_name(code));
    } else if code == 49 {
        reveal_strlit("TCP_OLD_ACK");
        assert(label_of(reason_from_code(code)) =~= kernel_reason_name(code));
    } else if code == 50 {
        reveal_strlit("TCP_TOO_OLD_ACK");
        assert(label_of(reason_from_code(code)) =~= kernel_reason_name(code));
    } else if code == 51 {
        reveal_strlit("TCP_ACK_UNSENT_DATA");
        assert(label_of(reason_from_code(code)) =~= kernel_reason_name(code));
    } else if code == 52 {
        reveal_strlit("TCP_OFO_QUEUE_PRUNE");
        assert(label_of(reason_from_code(code)) =~= kernel_reason_name(code));
    } else if code == 53 {
        reveal_strlit("TCP_OFO_DROP");
        assert(label_of(reason_from_code(code)) =~= kernel_reason_name(code));
    } else if code == 54 {
        reveal_strlit("IP_OUTNOROUTES");
        assert(label_of(reason_from_code(code)) =~= kernel_reason_name(code));
    }
}

/// The codes 55 to 65 are displayed under the kernel's names.
#[verifier::rlimit(100)]
#[verifier::spinoff_prover]
proof fn lemma_kernel_names_5(code: u32)
    requires
        55 <= code <= 65,
    ensures
        label_of(reason_from_code(code)) == kernel_reason_name(code),
{
    if code == 55 {
        reveal_strlit("BPF_CGROUP_EGRESS");
        assert(label_of(reason_from_code(code)) =~= kernel_reason_name(code));
    } else if code == 56 {
        reveal_strlit("IPV6DISABLED");
        assert(label_of(reason_from_code(code)) =~= kernel_reason_name(code));
    } else if code == 57 {
        reveal_strlit("NEIGH_CREATEFAIL");
        assert(label_of(reason_from_code(code)) =~= kernel_reason_name(code));
    } else if code == 58 {
        reveal_strlit("NEIGH_FAILED");
        assert(label_of(reason_from_code(code)) =~= kernel_reason_name(code));
    } else if code == 59 {
        reveal_strlit("NEIGH_QUEUEFULL");
        assert(label_of(reason_from_code(code)) =~= kernel_reason_name(code));
    } else if code == 60 {
        reveal_strlit("NEIGH_DEAD");
        assert(label_of(reason_from_code(code)) =~= kernel_reason_name(code));
    } else if code == 61 {
        reveal_strlit("NEIGH_HH_FILLFAIL");
        assert(label_of(reason_from_code(code)) =~= kernel_reason_name(code));
    } else if code == 62 {
        reveal_strlit("TC_EGRESS");
        assert(label_of(reason_from_code(code)) =~= kernel_reason_name(code));
    } else if code == 63 {
        reveal_strlit("SECURITY_HOOK");
        assert(label_of(reason_from_code(code)) =~= kernel_reason_name(code));
    } else if code == 64 {
        reveal_strlit("QDISC_DROP");
        assert(label_of(reason_from_code(code)) =~= kernel_reason_name(code));
    } else if code == 65 {
        reveal_strlit("QDISC_BURST_DROP");
        assert(label_of(reason_from_code(code)) =~= kernel_reason_name(code));
    }
}

/// The codes 66 to 76 are displayed under the kernel's names.
#[verifier::rlimit(100)]
#[verifier::spinoff_prover]
proof fn lemma_kernel_names_6(code: u32)
    requires
        66 <= code <= 76,
    ensures
        label_of(reason_from_code(code)) == kernel_reason_name(code),
{
    if code == 66 {
        reveal_strlit("QDISC_OVERLIMIT");
        assert(label_of(reason_from_code(code)) =~= kernel_reason_name(code));
    } else if code == 67 {
        reveal_strlit("QDISC_CONGESTED");
        assert(label_of(reason_from_code(code)) =~= kernel_reason_name(code));
    } else if code == 68 {
        reveal_strlit("CAKE_FLOOD");
        assert(label_of(reason_from_code(code)) =~= kernel_reason_name(code));
    } else if code == 69 {
        reveal_strlit("FQ_BAND_LIMIT");
        assert(label_of(reason_from_code(code)) =~= kernel_reason_name(code));
    } else if code == 70 {
        reveal_strlit("FQ_HORIZON_LIMIT");
        assert(label_of(reason_from_code(code)) =~= kernel_reason_name(code));
    } else if code == 71 {
        reveal_strlit("FQ_FLOW_LIMIT");
        assert(label_of(reason_from_code(code)) =~= kernel_reason_name(code));
    } else if code == 72 {
        reveal_strlit("CPU_BACKLOG");
        assert(label_of(reason_from_code(code)) =~= kernel_reason_name(code));
    } else if code == 73 {
        reveal_strlit("XDP");
        assert(label_of(reason_from_code(code)) =~= kernel_reason_name(code));
    } else if code == 74 {
        reveal_strlit("TC_INGRESS");
        assert(label_of(reason_from_code(code)) =~= kernel_reason_name(code));
    } else if code == 75 {
        reveal_strlit("UNHANDLED_PROTO");
        assert(label_of(reason_from_code(code)) =~= kernel_reason_name(code));
    } else if code == 76 {
        reveal_strlit("SKB_CSUM");
        assert(label_of(reason_from_code(code)) =~= kernel_reason_name(code));
    }
}

/// The codes 77 to 87 are displayed under the kernel's names.
#[verifier::rlimit(100)]
#[verifier::spinoff_prover]
proof fn lemma_kernel_names_7(code: u32)
    requires
        77 <= code <= 87,
    ensures
        label_of(reason_from_code(code)) == kernel_reason_name(code),
{
    if code == 77 {
        reveal_strlit("SKB_GSO_SEG");
        assert(label_of(reason_from_code(code)) =~= kernel_reason_name(code));
    } else if code == 78 {
        reveal_strlit("SKB_BAD_GSO");
        assert(label_of(reason_from_code(code)) =~= kernel_reason_name(code));
    } else if code == 79 {
        reveal_strlit("SKB_UCOPY_FAULT");
        assert(label_of(reason_from_code(code)) =~= kernel_reason_name(code));
    } else if code == 80 {
        reveal_strlit("DEV_HDR");
        assert(label_of(reason_from_code(code)) =~= kernel_reason_name(code));
    } else if code == 81 {
        reveal_strlit("DEV_READY");
        assert(label_of(reason_from_code(code)) =~= kernel_reason_name(code));
    } else if code == 82 {
        reveal_strlit("FULL_RING");
        assert(label_of(reason_from_code(code)) =~= kernel_reason_name(code));
    } else if code == 83 {
        reveal_strlit("NOMEM");
        assert(label_of(reason_from_code(code)) =~= kernel_reason_name(code));
    } else if code == 84 {
        reveal_strlit("HDR_TRUNC");
        assert(label_of(reason_from_code(code)) =~= kernel_reason_name(code));
    } else if code == 85 {
        reveal_strlit("TAP_FILTER");
        assert(label_of(reason_from_code(code)) =~= kernel_reason_name(code));
    } else if code == 86 {
        reveal_strlit("TAP_TXFILTER");
        assert(label_of(reason_from_code(code)) =~= kernel_reason_name(code));
    } else if code == 87 {
        reveal_strlit("ICMP_CSUM");
        assert(label_of(reason_from_code(code)) =~= kernel_reason_name(code));
    }
}

/// The codes 88 to 98 are displayed under the kernel's names.
#[verifier::rlimit(100)]
#[verifier::spinoff_prover]
proof fn lemma_kernel_names_8(code: u32)
    requires
        88 <= code <= 98,
    ensures
        label_of(reason_from_code(code)) == kernel_reason_name(code),
{
    if code == 88 {
        reveal_strlit("INVALID_PROTO");
        assert(label_of(reason_from_code(code)) =~= kernel_reason_name(code));
    } else if code == 89 {
        reveal_strlit("IP_INADDRERRORS");
        assert(label_of(reason_from_code(code)) =~= kernel_reason_name(code));
    } else if code == 90 {
        reveal_strlit("IP_INNOROUTES");
        assert(label_of(reason_from_code(code)) =~= kernel_reason_name(code));
    } else if code == 91 {
        reveal_strlit("IP_LOCAL_SOURCE");
        assert(label_of(reason_from_code(code)) =~= kernel_reason_name(code));
    } else if code == 92 {
        reveal_strlit("IP_INVALID_SOURCE");
        assert(label_of(reason_from_code(code)) =~= kernel_reason_name(code));
    } else if code == 93 {
        reveal_strlit("IP_LOCALNET");
        assert(label_of(reason_from_code(code)) =~= kernel_reason_name(code));
    } else if code == 94 {
        reveal_strlit("IP_INVALID_DEST");
        assert(label_of(reason_from_code(code)) =~= kernel_reason_name(code));
    } else if code == 95 {
        reveal_strlit("PKT_TOO_BIG");
        assert(label_of(reason_from_code(code)) =~= kernel_reason_name(code));
    } else if code == 96 {
        reveal_strlit("DUP_FRAG");
        assert(label_of(reason_from_code(code)) =~= kernel_reason_name(code));
    } else if code == 97 {
        reveal_strlit("FRAG_REASM_TIMEOUT");
        assert(label_of(reason_from_code(code)) =~= kernel_reason_name(code));
    } else if code == 98 {
        reveal_strlit("FRAG_TOO_FAR");
        assert(label_of(reason_from_code(code)) =~= kernel_reason_name(code));
    }
}

/// The codes 99 to 109 are displayed under the kernel's names.
#[verifier::rlimit(100)]
#[verifier::spinoff_prover]
proof fn lemma_kernel_names_9(code: u32)
    requires
        99 <= code <= 109,
    ensures
        label_of(reason_from_code(code)) == kernel_reason_name(code),
{
    if code == 99 {
        reveal_strlit("TCP_MINTTL");
        assert(label_of(reason_from_code(code)) =~= kernel_reason_name(code));
    } else if code == 100 {
        reveal_strlit("IPV6_BAD_EXTHDR");
        assert(label_of(reason_from_code(code)) =~= kernel_reason_name(code));
    } else if code == 101 {
        reveal_strlit("IPV6_NDISC_FRAG");
        assert(label_of(reason_from_code(code)) =~= kernel_reason_name(code));
    } else if code == 102 {
        reveal_strlit("IPV6_NDISC_HOP_LIMIT");
        assert(label_of(reason_from_code(code)) =~= kernel_reason_name(code));
    } else if code == 103 {
        reveal_strlit("IPV6_NDISC_BAD_CODE");
        assert(label_of(reason_from_code(code)) =~= kernel_reason_name(code));
    } else if code == 104 {
        reveal_strlit("IPV6_NDISC_BAD_OPTIONS");
        assert(label_of(reason_from_code(code)) =~= kernel_reason_name(code));
    } else if code == 105 {
        reveal_strlit("IPV6_NDISC_NS_OTHERHOST");
        assert(label_of(reason_from_code(code)) =~= kernel_reason_name(code));
    } else if code == 106 {
        reveal_strlit("QUEUE_PURGE");
        assert(label_of(reason_from_code(code)) =~= kernel_reason_name(code));
    } else if code == 107 {
        reveal_strlit("TC_COOKIE_ERROR");
        assert(label_of(reason_from_code(code)) =~= kernel_reason_name(code));
    } else if code == 108 {
        reveal_strlit("PACKET_SOCK_ERROR");
        assert(label_of(reason_from_code(code)) =~= kernel_reason_name(code));
    } else if code == 109 {
        reveal_strlit("TC_CHAIN_NOTFOUND");
        assert(label_of(reason_from_code(code)) =~= kernel_reason_name(code));
    }
}

/// The codes 110 to 120 are displayed under the kernel's names.
#[verifier::rlimit(100)]
#[verifier::spinoff_prover]
proof fn lemma_kernel_names_10(code: u32)
    requires
        110 <= code <= 120,
    ensures
        label_of(reason_from_code(code)) == kernel_reason_name(code),
{
    if code == 110 {
        reveal_strlit("TC_RECLASSIFY_LOOP");
        assert(label_of(reason_from_code(code)) =~= kernel_reason_name(code));
    } else if code == 111 {
        reveal_strlit("VXLAN_INVALID_HDR");
        assert(label_of(reason_from_code(code)) =~= kernel_reason_name(code));
    } else if code == 112 {
        reveal_strlit("VXLAN_VNI_NOT_FOUND");
        assert(label_of(reason_from_code(code)) =~= kernel_reason_name(code));
    } else if code == 113 {
        reveal_strlit("MAC_INVALID_SOURCE");
        assert(label_of(reason_from_code(code)) =~= kernel_reason_name(code));
    } else if code == 114 {
        reveal_strlit("VXLAN_ENTRY_EXISTS");
        assert(label_of(reason_from_code(code)) =~= kernel_reason_name(code));
    } else if code == 115 {
        reveal_strlit("NO_TX_TARGET");
        assert(label_of(reason_from_code(code)) =~= kernel_reason_name(code));
    } else if code == 116 {
        reveal_strlit("IP_TUNNEL_ECN");
        assert(label_of(reason_from_code(code)) =~= kernel_reason_name(code));
    } else if code == 117 {
        reveal_strlit("TUNNEL_TXINFO");
        assert(label_of(reason_from_code(code)) =~= kernel_reason_name(code));
    } else if code == 118 {
        reveal_strlit("LOCAL_MAC");
        assert(label_of(reason_from_code(code)) =~= kernel_reason_name(code));
    } else if code == 119 {
        reveal_strlit("ARP_PVLAN_DISABLE");
        assert(label_of(reason_from_code(code)) =~= kernel_reason_name(code));
    } else if code == 120 {
        reveal_strlit("MAC_IEEE_MAC_CONTROL");
        assert(label_of(reason_from_code(code)) =~= kernel_reason_name(code));
    }
}

/// The codes 121 to 130 and every larger value are displayed under the kernel's names.
#[verifier::rlimit(100)]
#[verifier::spinoff_prover]
proof fn lemma_kernel_names_11(code: u32)
    requires
        121 <= code,
    ensures
        label_of(reason_from_code(code)) == kernel_reason_name(code),
{
    if code == 121 {
        reveal_strlit("BRIDGE_INGRESS_STP_STATE");
        assert(label_of(reason_from_code(code)) =~= kernel_reason_name(code));
    } else if code == 122 {
        reveal_strlit("CAN_RX_INVALID_FRAME");
        assert(label_of(reason_from_code(code)) =~= kernel_reason_name(code));
    } else if code == 123 {
        reveal_strlit("CANFD_RX_INVALID_FRAME");
        assert(label_of(reason_from_code(code)) =~= kernel_reason_name(code));
    } else if code == 124 {
        reveal_strlit("CANXL_RX_INVALID_FRAME");
        assert(label_of(reason_from_code(code)) =~= kernel_reason_name(code));
    } else if code == 125 {
        reveal_strlit("PFMEMALLOC");
        assert(label_of(reason_from_code(code)) =~= kernel_reason_name(code));
    } else if code == 126 {
        reveal_strlit("DUALPI2_STEP_DROP");
        assert(label_of(reason_from_code(code)) =~= kernel_reason_name(code));
    } else if code == 127 {
        reveal_strlit("PSP_INPUT");
        assert(label_of(reason_from_code(code)) =~= kernel_reason_name(code));
    } else if code == 128 {
        reveal_strlit("PSP_OUTPUT");
        assert(label_of(reason_from_code(code)) =~= kernel_reason_name(code));
    } else if code == 129 {
        reveal_strlit("RECURSION_LIMIT");
        assert(label_of(reason_from_code(code)) =~= kernel_reason_name(code));
    } else if code >= 130 {
        reveal_strlit("MAX");
        assert(label_of(reason_from_code(code)) =~= kernel_reason_name(code));
    }
}

/// Every drop reason code is displayed under the kernel's own name for
/// it, the whole name (code 13 is `OTHERHOST`, code 10 `TCP_CSUM`), and
/// every value past the last known code under `MAX`.
pub proof fn lemma_reason_name_is_kernel_name(code: u32)
    ensures
        reason_label(reason_from_code(code)) == kernel_reason_name(code),
{
    reveal(reason_label);
    if code <= 10 {
        lemma_kernel_names_0(code);
    } else if code <= 21 {
        lemma_kernel_names_1(code);
    } else if code <= 32 {
        lemma_kernel_names_2(code);
    } else if code <= 43 {
        lemma_kernel_names_3(code);
    } else if code <= 54 {
        lemma_kernel_names_4(code);
    } else if code <= 65 {
        lemma_kernel_names_5(code);
    } else if code <= 76 {
        lemma_kernel_names_6(code);
    } else if code <= 87 {
        lemma_kernel_names_7(code);
    } else if code <= 98 {
        lemma_kernel_names_8(code);
    } else if code <= 109 {
        lemma_kernel_names_9(code);
    } else if code <= 120 {
        lemma_kernel_names_10(code);
    } else {
        lemma_kernel_names_11(code);
    }
}

} // verus!
