//! Value types shared with the driver: layers, events, shutdown modes,
//! parameters, and the open/checksum flag words.
//!
//! Each enum travels across the driver boundary as an integer; the
//! conversion functions here state exactly which integers are accepted
//! and which enum value each one names.

use vstd::prelude::*;

use crate::error::WinDivertValueError;

verus! {

/// Default value for queue length parameter.
pub const WINDIVERT_PARAM_QUEUE_LENGTH_DEFAULT: u64 = 4096;

/// Minimum valid value for queue length parameter.
pub const WINDIVERT_PARAM_QUEUE_LENGTH_MIN: u64 = 32;

/// Maximum valid value for queue length parameter.
pub const WINDIVERT_PARAM_QUEUE_LENGTH_MAX: u64 = 16384;

/// Default value for queue time parameter, in milliseconds.
pub const WINDIVERT_PARAM_QUEUE_TIME_DEFAULT: u64 = 2000;

/// Minimum valid value for queue time parameter, in milliseconds.
pub const WINDIVERT_PARAM_QUEUE_TIME_MIN: u64 = 100;

/// Maximum valid value for queue time parameter, in milliseconds.
pub const WINDIVERT_PARAM_QUEUE_TIME_MAX: u64 = 16000;

/// Default value for queue size parameter, in bytes.
pub const WINDIVERT_PARAM_QUEUE_SIZE_DEFAULT: u64 = 4194304;

/// Minimum valid value for queue size parameter, in bytes.
pub const WINDIVERT_PARAM_QUEUE_SIZE_MIN: u64 = 65535;

/// Maximum valid value for queue size parameter, in bytes.
pub const WINDIVERT_PARAM_QUEUE_SIZE_MAX: u64 = 33554432;

/// Maximum valid value for priority parameter.
pub const WINDIVERT_PRIORITY_MAX: i16 = 30000;

/// Minimum valid value for priority parameter.
pub const WINDIVERT_PRIORITY_MIN: i16 = -30000;

/// Maximum valid batch length for one batched send or receive.
pub const WINDIVERT_BATCH_MAX: u32 = 255;

/// Maximum valid mtu size.
pub const WINDIVERT_MTU_MAX: u32 = 65575;

/// Layer a handle is opened on.
///
/// Network and forward layers divert whole packets; flow and socket
/// layers report metadata events only; the reflect layer reports other
/// handles' open and close events.
#[derive(Debug, Copy, Clone, PartialEq, Eq, Structural)]
pub enum WinDivertLayer {
    /// Network packets to/from the local machine.
    Network,
    /// Network packets passing through the local machine.
    Forward,
    /// Network flow established/deleted events.
    Flow,
    /// Socket operation events.
    Socket,
    /// Handle open/close events.
    Reflect,
}

impl WinDivertLayer {
    /// The integer the driver uses for this layer.
    pub open spec fn spec_value(self) -> u32 {
        match self {
            WinDivertLayer::Network => 0,
            WinDivertLayer::Forward => 1,
            WinDivertLayer::Flow => 2,
            WinDivertLayer::Socket => 3,
            WinDivertLayer::Reflect => 4,
        }
    }

    /// Decodes the driver's layer number; every value above four is refused.
    pub fn try_from(value: u32) -> (r: Result<WinDivertLayer, WinDivertValueError>)
        ensures
            match r {
                Ok(layer) => layer.spec_value() == value,
                Err(e) => value > 4 && e == WinDivertValueError::Layer(value),
            },
    {
        match value {
            0 => Ok(WinDivertLayer::Network),
            1 => Ok(WinDivertLayer::Forward),
            2 => Ok(WinDivertLayer::Flow),
            3 => Ok(WinDivertLayer::Socket),
            4 => Ok(WinDivertLayer::Reflect),
            _ => Err(WinDivertValueError::Layer(value)),
        }
    }

    /// The layer as the eight-bit value stored in an address record.
    pub fn as_u8(self) -> (r: u8)
        ensures
            r == self.spec_value(),
    {
        match self {
            WinDivertLayer::Network => 0,
            WinDivertLayer::Forward => 1,
            WinDivertLayer::Flow => 2,
            WinDivertLayer::Socket => 3,
            WinDivertLayer::Reflect => 4,
        }
    }

    /// The layer as the value handed to the driver's open call.
    pub fn as_u32(self) -> (r: u32)
        ensures
            r == self.spec_value(),
    {
        self.as_u8() as u32
    }
}

/// Event reported by one received address record.
///
/// Each layer reports a fixed subset: network and forward report only
/// `NetworkPacket`; flow reports the two flow events; socket the five
/// socket events; reflect the two reflect events.
#[derive(Debug, Copy, Clone, PartialEq, Eq, Structural)]
pub enum WinDivertEvent {
    /// Network packet.
    NetworkPacket,
    /// Flow established.
    FlowStablished,
    /// Flow deleted.
    FlowDeleted,
    /// Socket bind.
    SocketBind,
    /// Socket connect.
    SocketConnect,
    /// Socket listen.
    SocketListen,
    /// Socket accept.
    SocketAccept,
    /// Socket close.
    SocketClose,
    /// Handle opened.
    ReflectOpen,
    /// Handle closed.
    ReflectClose,
}

impl WinDivertEvent {
    /// The integer the driver uses for this event.
    pub open spec fn spec_value(self) -> u8 {
        match self {
            WinDivertEvent::NetworkPacket => 0,
            WinDivertEvent::FlowStablished => 1,
            WinDivertEvent::FlowDeleted => 2,
            WinDivertEvent::SocketBind => 3,
            WinDivertEvent::SocketConnect => 4,
            WinDivertEvent::SocketListen => 5,
            WinDivertEvent::SocketAccept => 6,
            WinDivertEvent::SocketClose => 7,
            WinDivertEvent::ReflectOpen => 8,
            WinDivertEvent::ReflectClose => 9,
        }
    }

    /// Decodes the driver's event number; every value above nine is refused.
    pub fn try_from(value: u8) -> (r: Result<WinDivertEvent, WinDivertValueError>)
        ensures
            match r {
                Ok(event) => event.spec_value() == value,
                Err(e) => value > 9 && e == WinDivertValueError::Event(value),
            },
    {
        match value {
            0 => Ok(WinDivertEvent::NetworkPacket),
            1 => Ok(WinDivertEvent::FlowStablished),
            2 => Ok(WinDivertEvent::FlowDeleted),
            3 => Ok(WinDivertEvent::SocketBind),
            4 => Ok(WinDivertEvent::SocketConnect),
            5 => Ok(WinDivertEvent::SocketListen),
            6 => Ok(WinDivertEvent::SocketAccept),
            7 => Ok(WinDivertEvent::SocketClose),
            8 => Ok(WinDivertEvent::ReflectOpen),
            9 => Ok(WinDivertEvent::ReflectClose),
            _ => Err(WinDivertValueError::Event(value)),
        }
    }

    /// The event as the eight-bit value stored in an address record.
    pub fn as_u8(self) -> (r: u8)
        ensures
            r == self.spec_value(),
    {
        match self {
            WinDivertEvent::NetworkPacket => 0,
            WinDivertEvent::FlowStablished => 1,
            WinDivertEvent::FlowDeleted => 2,
            WinDivertEvent::SocketBind => 3,
            WinDivertEvent::SocketConnect => 4,
            WinDivertEvent::SocketListen => 5,
            WinDivertEvent::SocketAccept => 6,
            WinDivertEvent::SocketClose => 7,
            WinDivertEvent::ReflectOpen => 8,
            WinDivertEvent::ReflectClose => 9,
        }
    }

    /// The event widened to the driver's 32-bit representation.
    pub fn as_u32(self) -> (r: u32)
        ensures
            r == self.spec_value(),
    {
        self.as_u8() as u32
    }
}

/// How a shutdown call limits further queueing on a handle.
#[derive(Debug, Copy, Clone, PartialEq, Eq, Structural)]
pub enum WinDivertShutdownMode {
    /// Stops new packets being queued for receive calls.
    Recv,
    /// Stops new packets being injected via send calls.
    Send,
    /// Stops both directions at once.
    Both,
}

impl WinDivertShutdownMode {
    /// The integer the driver uses for this mode.
    pub open spec fn spec_value(self) -> u32 {
        match self {
            WinDivertShutdownMode::Recv => 1,
            WinDivertShutdownMode::Send => 2,
            WinDivertShutdownMode::Both => 3,
        }
    }

    /// Decodes the driver's shutdown mode; zero and values above three are refused.
    pub fn try_from(value: u32) -> (r: Result<WinDivertShutdownMode, WinDivertValueError>)
        ensures
            match r {
                Ok(mode) => mode.spec_value() == value,
                Err(e) => (value == 0 || value > 3) && e == WinDivertValueError::Shutdown(value),
            },
    {
        match value {
            1 => Ok(WinDivertShutdownMode::Recv),
            2 => Ok(WinDivertShutdownMode::Send),
            3 => Ok(WinDivertShutdownMode::Both),
            _ => Err(WinDivertValueError::Shutdown(value)),
        }
    }

    /// The mode as the value handed to the driver's shutdown call.
    pub fn as_u32(self) -> (r: u32)
        ensures
            r == self.spec_value(),
    {
        match self {
            WinDivertShutdownMode::Recv => 1,
            WinDivertShutdownMode::Send => 2,
            WinDivertShutdownMode::Both => 3,
        }
    }
}

/// Driver parameter named in a get or set call.
///
/// The three queue parameters are settable within their documented
/// ranges; the two version parameters are read-only.
#[derive(Debug, Copy, Clone, PartialEq, Eq, Structural)]
pub enum WinDivertParam {
    /// Maximum length of the receive packet queue.
    QueueLength,
    /// Minimum time, in milliseconds, a packet can stay queued.
    QueueTime,
    /// Maximum number of bytes the receive queue can hold.
    QueueSize,
    /// Major version of the driver; read-only.
    VersionMajor,
    /// Minor version of the driver; read-only.
    VersionMinor,
}

impl WinDivertParam {
    /// The integer the driver uses for this parameter.
    pub open spec fn spec_value(self) -> u32 {
        match self {
            WinDivertParam::QueueLength => 0,
            WinDivertParam::QueueTime => 1,
            WinDivertParam::QueueSize => 2,
            WinDivertParam::VersionMajor => 3,
            WinDivertParam::VersionMinor => 4,
        }
    }

    /// True exactly for the two read-only version parameters.
    pub open spec fn spec_read_only(self) -> bool {
        self == WinDivertParam::VersionMajor || self == WinDivertParam::VersionMinor
    }

    /// Decodes the driver's parameter number; every value above four is refused.
    pub fn try_from(value: u32) -> (r: Result<WinDivertParam, WinDivertValueError>)
        ensures
            match r {
                Ok(param) => param.spec_value() == value,
                Err(e) => value > 4 && e == WinDivertValueError::Parameter(value),
            },
    {
        match value {
            0 => Ok(WinDivertParam::QueueLength),
            1 => Ok(WinDivertParam::QueueTime),
            2 => Ok(WinDivertParam::QueueSize),
            3 => Ok(WinDivertParam::VersionMajor),
            4 => Ok(WinDivertParam::VersionMinor),
            _ => Err(WinDivertValueError::Parameter(value)),
        }
    }

    /// The parameter as the value handed to the driver's calls.
    pub fn as_u32(self) -> (r: u32)
        ensures
            r == self.spec_value(),
    {
        match self {
            WinDivertParam::QueueLength => 0,
            WinDivertParam::QueueTime => 1,
            WinDivertParam::QueueSize => 2,
            WinDivertParam::VersionMajor => 3,
            WinDivertParam::VersionMinor => 4,
        }
    }
}


/// Bit for sniff mode in an open-flags word.
pub const WINDIVERT_FLAG_SNIFF: u64 = 0x0001;

/// Bit for drop mode in an open-flags word.
pub const WINDIVERT_FLAG_DROP: u64 = 0x0002;

/// Bit for receive-only mode in an open-flags word.
pub const WINDIVERT_FLAG_RECV_ONLY: u64 = 0x0004;

/// Bit for send-only mode in an open-flags word.
pub const WINDIVERT_FLAG_SEND_ONLY: u64 = 0x0008;

/// Bit for refusing driver installation in an open-flags word.
pub const WINDIVERT_FLAG_NO_INSTALLS: u64 = 0x0010;

/// Bit for capturing inbound fragments in an open-flags word.
pub const WINDIVERT_FLAG_FRAGMENTS: u64 = 0x0020;

/// The open-flags word holding exactly the named bits that are true.
pub open spec fn spec_flags_word(
    sniff: bool,
    drop_mode: bool,
    recv_only: bool,
    send_only: bool,
    no_installs: bool,
    fragments: bool,
) -> u64 {
    (if sniff { WINDIVERT_FLAG_SNIFF } else { 0 })
    | (if drop_mode { WINDIVERT_FLAG_DROP } else { 0 })
    | (if recv_only { WINDIVERT_FLAG_RECV_ONLY } else { 0 })
    | (if send_only { WINDIVERT_FLAG_SEND_ONLY } else { 0 })
    | (if no_installs { WINDIVERT_FLAG_NO_INSTALLS } else { 0 })
    | (if fragments { WINDIVERT_FLAG_FRAGMENTS } else { 0 })
}

/// Flag word handed to the driver's open call; built in a fluent style.
///
/// The named bits select sniff, drop, receive-only, send-only,
/// no-installs and fragments behaviour.  The pairs sniff|drop and
/// receive-only|send-only are mutually exclusive at the driver boundary;
/// the driver, not this type, rejects such combinations.
#[derive(Debug, Copy, Clone)]
pub struct WinDivertFlags {
    bits: u64,
}

impl WinDivertFlags {
    /// The flag word as the driver sees it.
    pub closed spec fn view(&self) -> u64 {
        self.bits
    }

    /// True when the sniff bit is set.
    pub open spec fn spec_sniff(self) -> bool {
        self@ & WINDIVERT_FLAG_SNIFF != 0
    }

    /// True when the drop bit is set.
    pub open spec fn spec_drop(self) -> bool {
        self@ & WINDIVERT_FLAG_DROP != 0
    }

    /// True when the receive-only bit is set.
    pub open spec fn spec_recv_only(self) -> bool {
        self@ & WINDIVERT_FLAG_RECV_ONLY != 0
    }

    /// True when the send-only bit is set.
    pub open spec fn spec_send_only(self) -> bool {
        self@ & WINDIVERT_FLAG_SEND_ONLY != 0
    }

    /// True when the no-installs bit is set.
    pub open spec fn spec_no_installs(self) -> bool {
        self@ & WINDIVERT_FLAG_NO_INSTALLS != 0
    }

    /// True when the fragments bit is set.
    pub open spec fn spec_fragments(self) -> bool {
        self@ & WINDIVERT_FLAG_FRAGMENTS != 0
    }

    /// Creates a new flag field with all options unset.
    pub fn new() -> (r: Self)
        ensures
            r@ == 0u64,
    {
        Self { bits: 0 }
    }

    /// Flag field with the default values for the flow layer.
    pub fn flow_default() -> (r: Self)
        ensures
            r@ == (WINDIVERT_FLAG_SNIFF | WINDIVERT_FLAG_RECV_ONLY),
    {
        Self { bits: WINDIVERT_FLAG_SNIFF | WINDIVERT_FLAG_RECV_ONLY }
    }

    /// Flag field with the default values for the socket layer.
    pub fn socket_default() -> (r: Self)
        ensures
            r@ == WINDIVERT_FLAG_RECV_ONLY,
    {
        Self { bits: WINDIVERT_FLAG_RECV_ONLY }
    }

    /// Flag field with the default values for the reflect layer.
    pub fn reflect_default() -> (r: Self)
        ensures
            r@ == (WINDIVERT_FLAG_SNIFF | WINDIVERT_FLAG_RECV_ONLY),
    {
        Self { bits: WINDIVERT_FLAG_SNIFF | WINDIVERT_FLAG_RECV_ONLY }
    }

    /// The flag word as the value handed to the driver's open call.
    pub fn as_u64(&self) -> (r: u64)
        ensures
            r == self@,
    {
        self.bits
    }

    /// Sets the sniff flag.
    pub fn set_sniff(self) -> (r: Self)
        ensures
            r@ == (self@ | WINDIVERT_FLAG_SNIFF),
    {
        Self { bits: self.bits | WINDIVERT_FLAG_SNIFF }
    }

    /// Unsets the sniff flag.
    pub fn unset_sniff(self) -> (r: Self)
        ensures
            r@ == (self@ & !WINDIVERT_FLAG_SNIFF),
    {
        Self { bits: self.bits & !WINDIVERT_FLAG_SNIFF }
    }

    /// Sets the sniff flag to `value`.
    pub fn set_sniff_value(&mut self, value: bool)
        ensures
            final(self)@ == ((old(self)@ & !WINDIVERT_FLAG_SNIFF) | (if value { WINDIVERT_FLAG_SNIFF } else { 0 })),
    {
        self.bits = (self.bits & !WINDIVERT_FLAG_SNIFF) | (if value { WINDIVERT_FLAG_SNIFF } else { 0 });
    }

    /// Sets the drop flag.
    pub fn set_drop(self) -> (r: Self)
        ensures
            r@ == (self@ | WINDIVERT_FLAG_DROP),
    {
        Self { bits: self.bits | WINDIVERT_FLAG_DROP }
    }

    /// Unsets the drop flag.
    pub fn unset_drop(self) -> (r: Self)
        ensures
            r@ == (self@ & !WINDIVERT_FLAG_DROP),
    {
        Self { bits: self.bits & !WINDIVERT_FLAG_DROP }
    }

    /// Sets the drop flag to `value`.
    pub fn set_drop_value(&mut self, value: bool)
        ensures
            final(self)@ == ((old(self)@ & !WINDIVERT_FLAG_DROP) | (if value { WINDIVERT_FLAG_DROP } else { 0 })),
    {
        self.bits = (self.bits & !WINDIVERT_FLAG_DROP) | (if value { WINDIVERT_FLAG_DROP } else { 0 });
    }

    /// Sets the receive-only flag.
    pub fn set_recv_only(self) -> (r: Self)
        ensures
            r@ == (self@ | WINDIVERT_FLAG_RECV_ONLY),
    {
        Self { bits: self.bits | WINDIVERT_FLAG_RECV_ONLY }
    }

    /// Unsets the receive-only flag.
    pub fn unset_recv_only(self) -> (r: Self)
        ensures
            r@ == (self@ & !WINDIVERT_FLAG_RECV_ONLY),
    {
        Self { bits: self.bits & !WINDIVERT_FLAG_RECV_ONLY }
    }

    /// Sets the receive-only flag to `value`.
    pub fn set_recv_only_value(&mut self, value: bool)
        ensures
            final(self)@ == ((old(self)@ & !WINDIVERT_FLAG_RECV_ONLY) | (if value { WINDIVERT_FLAG_RECV_ONLY } else { 0 })),
    {
        self.bits = (self.bits & !WINDIVERT_FLAG_RECV_ONLY) | (if value { WINDIVERT_FLAG_RECV_ONLY } else { 0 });
    }

    /// Sets the send-only flag.
    pub fn set_send_only(self) -> (r: Self)
        ensures
            r@ == (self@ | WINDIVERT_FLAG_SEND_ONLY),
    {
        Self { bits: self.bits | WINDIVERT_FLAG_SEND_ONLY }
    }

    /// Unsets the send-only flag.
    pub fn unset_send_only(self) -> (r: Self)
        ensures
            r@ == (self@ & !WINDIVERT_FLAG_SEND_ONLY),
    {
        Self { bits: self.bits & !WINDIVERT_FLAG_SEND_ONLY }
    }

    /// Sets the send-only flag to `value`.
    pub fn set_send_only_value(&mut self, value: bool)
        ensures
            final(self)@ == ((old(self)@ & !WINDIVERT_FLAG_SEND_ONLY) | (if value { WINDIVERT_FLAG_SEND_ONLY } else { 0 })),
    {
        self.bits = (self.bits & !WINDIVERT_FLAG_SEND_ONLY) | (if value { WINDIVERT_FLAG_SEND_ONLY } else { 0 });
    }

    /// Sets the no-installs flag.
    pub fn set_no_installs(self) -> (r: Self)
        ensures
            r@ == (self@ | WINDIVERT_FLAG_NO_INSTALLS),
    {
        Self { bits: self.bits | WINDIVERT_FLAG_NO_INSTALLS }
    }

    /// Unsets the no-installs flag.
    pub fn unset_no_installs(self) -> (r: Self)
        ensures
            r@ == (self@ & !WINDIVERT_FLAG_NO_INSTALLS),
    {
        Self { bits: self.bits & !WINDIVERT_FLAG_NO_INSTALLS }
    }

    /// Sets the no-installs flag to `value`.
    pub fn set_no_installs_value(&mut self, value: bool)
        ensures
            final(self)@ == ((old(self)@ & !WINDIVERT_FLAG_NO_INSTALLS) | (if value { WINDIVERT_FLAG_NO_INSTALLS } else { 0 })),
    {
        self.bits = (self.bits & !WINDIVERT_FLAG_NO_INSTALLS) | (if value { WINDIVERT_FLAG_NO_INSTALLS } else { 0 });
    }

    /// Sets the fragments flag.
    pub fn set_fragments(self) -> (r: Self)
        ensures
            r@ == (self@ | WINDIVERT_FLAG_FRAGMENTS),
    {
        Self { bits: self.bits | WINDIVERT_FLAG_FRAGMENTS }
    }

    /// Unsets the fragments flag.
    pub fn unset_fragments(self) -> (r: Self)
        ensures
            r@ == (self@ & !WINDIVERT_FLAG_FRAGMENTS),
    {
        Self { bits: self.bits & !WINDIVERT_FLAG_FRAGMENTS }
    }

    /// Sets the fragments flag to `value`.
    pub fn set_fragments_value(&mut self, value: bool)
        ensures
            final(self)@ == ((old(self)@ & !WINDIVERT_FLAG_FRAGMENTS) | (if value { WINDIVERT_FLAG_FRAGMENTS } else { 0 })),
    {
        self.bits = (self.bits & !WINDIVERT_FLAG_FRAGMENTS) | (if value { WINDIVERT_FLAG_FRAGMENTS } else { 0 });
    }
}

impl Default for WinDivertFlags {
    /// The default flag word has every named bit unset.
    fn default() -> (r: Self)
        ensures
            r@ == 0u64,
    {
        Self { bits: 0 }
    }
}

/// Law: a flag word built with exactly the named bits of a chosen subset
/// decodes each named bit back to exactly that subset.
pub proof fn lemma_flags_round_trip(
    sniff: bool,
    drop_mode: bool,
    recv_only: bool,
    send_only: bool,
    no_installs: bool,
    fragments: bool,
)
    by (bit_vector)
    ensures
        spec_flags_word(sniff, drop_mode, recv_only, send_only, no_installs, fragments)
            & WINDIVERT_FLAG_SNIFF != 0 <==> sniff,
        spec_flags_word(sniff, drop_mode, recv_only, send_only, no_installs, fragments)
            & WINDIVERT_FLAG_DROP != 0 <==> drop_mode,
        spec_flags_word(sniff, drop_mode, recv_only, send_only, no_installs, fragments)
            & WINDIVERT_FLAG_RECV_ONLY != 0 <==> recv_only,
        spec_flags_word(sniff, drop_mode, recv_only, send_only, no_installs, fragments)
            & WINDIVERT_FLAG_SEND_ONLY != 0 <==> send_only,
        spec_flags_word(sniff, drop_mode, recv_only, send_only, no_installs, fragments)
            & WINDIVERT_FLAG_NO_INSTALLS != 0 <==> no_installs,
        spec_flags_word(sniff, drop_mode, recv_only, send_only, no_installs, fragments)
            & WINDIVERT_FLAG_FRAGMENTS != 0 <==> fragments,
{
}

/// Law: setting one named open flag leaves every other named bit of the
/// word unchanged, and unsetting it does too.
pub proof fn lemma_flags_isolation(word: u64, mask: u64, other: u64)
    by (bit_vector)
    requires
        mask & other == 0,
    ensures
        (word | mask) & other == word & other,
        (word & !mask) & other == word & other,
{
}

/// Bit suppressing the IPv4 checksum in a checksum-flags word.
pub const WINDIVERT_HELPER_NO_IP_CHECKSUM: u64 = 0x0001;

/// Bit suppressing the ICMP checksum in a checksum-flags word.
pub const WINDIVERT_HELPER_NO_ICMP_CHECKSUM: u64 = 0x0002;

/// Bit suppressing the ICMPv6 checksum in a checksum-flags word.
pub const WINDIVERT_HELPER_NO_ICMPV6_CHECKSUM: u64 = 0x0004;

/// Bit suppressing the TCP checksum in a checksum-flags word.
pub const WINDIVERT_HELPER_NO_TCP_CHECKSUM: u64 = 0x0008;

/// Bit suppressing the UDP checksum in a checksum-flags word.
pub const WINDIVERT_HELPER_NO_UDP_CHECKSUM: u64 = 0x0010;

/// The checksum-flags word holding exactly the named bits that are true.
pub open spec fn spec_checksum_word(
    no_ip: bool,
    no_icmp: bool,
    no_icmpv6: bool,
    no_tcp: bool,
    no_udp: bool,
) -> u64 {
    (if no_ip { WINDIVERT_HELPER_NO_IP_CHECKSUM } else { 0 })
    | (if no_icmp { WINDIVERT_HELPER_NO_ICMP_CHECKSUM } else { 0 })
    | (if no_icmpv6 { WINDIVERT_HELPER_NO_ICMPV6_CHECKSUM } else { 0 })
    | (if no_tcp { WINDIVERT_HELPER_NO_TCP_CHECKSUM } else { 0 })
    | (if no_udp { WINDIVERT_HELPER_NO_UDP_CHECKSUM } else { 0 })
}

/// Flag word selecting which checksums a recalculation call skips;
/// built in the same fluent style as [`WinDivertFlags`].
#[derive(Debug, Copy, Clone)]
pub struct ChecksumFlags {
    bits: u64,
}

impl ChecksumFlags {
    /// The flag word as the helper call sees it.
    pub closed spec fn view(&self) -> u64 {
        self.bits
    }

    /// Creates a new flag field with default zero value.
    pub fn new() -> (r: Self)
        ensures
            r@ == 0u64,
    {
        Self { bits: 0 }
    }

    /// The flag word as the value handed to the checksum helper.
    pub fn as_u64(&self) -> (r: u64)
        ensures
            r == self@,
    {
        self.bits
    }

    /// Sets the no-ip flag.
    pub fn set_no_ip(self) -> (r: Self)
        ensures
            r@ == (self@ | WINDIVERT_HELPER_NO_IP_CHECKSUM),
    {
        Self { bits: self.bits | WINDIVERT_HELPER_NO_IP_CHECKSUM }
    }

    /// Unsets the no-ip flag.
    pub fn unset_no_ip(self) -> (r: Self)
        ensures
            r@ == (self@ & !WINDIVERT_HELPER_NO_IP_CHECKSUM),
    {
        Self { bits: self.bits & !WINDIVERT_HELPER_NO_IP_CHECKSUM }
    }

    /// Sets the no-ip flag to `value`.
    pub fn set_no_ip_value(&mut self, value: bool)
        ensures
            final(self)@ == ((old(self)@ & !WINDIVERT_HELPER_NO_IP_CHECKSUM) | (if value { WINDIVERT_HELPER_NO_IP_CHECKSUM } else { 0 })),
    {
        self.bits = (self.bits & !WINDIVERT_HELPER_NO_IP_CHECKSUM) | (if value { WINDIVERT_HELPER_NO_IP_CHECKSUM } else { 0 });
    }

    /// Sets the no-icmp flag.
    pub fn set_no_icmp(self) -> (r: Self)
        ensures
            r@ == (self@ | WINDIVERT_HELPER_NO_ICMP_CHECKSUM),
    {
        Self { bits: self.bits | WINDIVERT_HELPER_NO_ICMP_CHECKSUM }
    }

    /// Unsets the no-icmp flag.
    pub fn unset_no_icmp(self) -> (r: Self)
        ensures
            r@ == (self@ & !WINDIVERT_HELPER_NO_ICMP_CHECKSUM),
    {
        Self { bits: self.bits & !WINDIVERT_HELPER_NO_ICMP_CHECKSUM }
    }

    /// Sets the no-icmp flag to `value`.
    pub fn set_no_icmp_value(&mut self, value: bool)
        ensures
            final(self)@ == ((old(self)@ & !WINDIVERT_HELPER_NO_ICMP_CHECKSUM) | (if value { WINDIVERT_HELPER_NO_ICMP_CHECKSUM } else { 0 })),
    {
        self.bits = (self.bits & !WINDIVERT_HELPER_NO_ICMP_CHECKSUM) | (if value { WINDIVERT_HELPER_NO_ICMP_CHECKSUM } else { 0 });
    }

    /// Sets the no-icmpv6 flag.
    pub fn set_no_icmpv6(self) -> (r: Self)
        ensures
            r@ == (self@ | WINDIVERT_HELPER_NO_ICMPV6_CHECKSUM),
    {
        Self { bits: self.bits | WINDIVERT_HELPER_NO_ICMPV6_CHECKSUM }
    }

    /// Unsets the no-icmpv6 flag.
    pub fn unset_no_icmpv6(self) -> (r: Self)
        ensures
            r@ == (self@ & !WINDIVERT_HELPER_NO_ICMPV6_CHECKSUM),
    {
        Self { bits: self.bits & !WINDIVERT_HELPER_NO_ICMPV6_CHECKSUM }
    }

    /// Sets the no-icmpv6 flag to `value`.
    pub fn set_no_icmpv6_value(&mut self, value: bool)
        ensures
            final(self)@ == ((old(self)@ & !WINDIVERT_HELPER_NO_ICMPV6_CHECKSUM) | (if value { WINDIVERT_HELPER_NO_ICMPV6_CHECKSUM } else { 0 })),
    {
        self.bits = (self.bits & !WINDIVERT_HELPER_NO_ICMPV6_CHECKSUM) | (if value { WINDIVERT_HELPER_NO_ICMPV6_CHECKSUM } else { 0 });
    }

    /// Sets the no-tcp flag.
    pub fn set_no_tcp(self) -> (r: Self)
        ensures
            r@ == (self@ | WINDIVERT_HELPER_NO_TCP_CHECKSUM),
    {
        Self { bits: self.bits | WINDIVERT_HELPER_NO_TCP_CHECKSUM }
    }

    /// Unsets the no-tcp flag.
    pub fn unset_no_tcp(self) -> (r: Self)
        ensures
            r@ == (self@ & !WINDIVERT_HELPER_NO_TCP_CHECKSUM),
    {
        Self { bits: self.bits & !WINDIVERT_HELPER_NO_TCP_CHECKSUM }
    }

    /// Sets the no-tcp flag to `value`.
    pub fn set_no_tcp_value(&mut self, value: bool)
        ensures
            final(self)@ == ((old(self)@ & !WINDIVERT_HELPER_NO_TCP_CHECKSUM) | (if value { WINDIVERT_HELPER_NO_TCP_CHECKSUM } else { 0 })),
    {
        self.bits = (self.bits & !WINDIVERT_HELPER_NO_TCP_CHECKSUM) | (if value { WINDIVERT_HELPER_NO_TCP_CHECKSUM } else { 0 });
    }

    /// Sets the no-udp flag.
    pub fn set_no_udp(self) -> (r: Self)
        ensures
            r@ == (self@ | WINDIVERT_HELPER_NO_UDP_CHECKSUM),
    {
        Self { bits: self.bits | WINDIVERT_HELPER_NO_UDP_CHECKSUM }
    }

    /// Unsets the no-udp flag.
    pub fn unset_no_udp(self) -> (r: Self)
        ensures
            r@ == (self@ & !WINDIVERT_HELPER_NO_UDP_CHECKSUM),
    {
        Self { bits: self.bits & !WINDIVERT_HELPER_NO_UDP_CHECKSUM }
    }

    /// Sets the no-udp flag to `value`.
    pub fn set_no_udp_value(&mut self, value: bool)
        ensures
            final(self)@ == ((old(self)@ & !WINDIVERT_HELPER_NO_UDP_CHECKSUM) | (if value { WINDIVERT_HELPER_NO_UDP_CHECKSUM } else { 0 })),
    {
        self.bits = (self.bits & !WINDIVERT_HELPER_NO_UDP_CHECKSUM) | (if value { WINDIVERT_HELPER_NO_UDP_CHECKSUM } else { 0 });
    }
}

impl Default for ChecksumFlags {
    /// The default flag word has every named bit unset.
    fn default() -> (r: Self)
        ensures
            r@ == 0u64,
    {
        Self { bits: 0 }
    }
}

/// Law: a checksum-flags word built with exactly the named bits of a
/// chosen subset decodes each named bit back to exactly that subset.
pub proof fn lemma_checksum_flags_round_trip(
    no_ip: bool,
    no_icmp: bool,
    no_icmpv6: bool,
    no_tcp: bool,
    no_udp: bool,
)
    by (bit_vector)
    ensures
        spec_checksum_word(no_ip, no_icmp, no_icmpv6, no_tcp, no_udp)
            & WINDIVERT_HELPER_NO_IP_CHECKSUM != 0 <==> no_ip,
        spec_checksum_word(no_ip, no_icmp, no_icmpv6, no_tcp, no_udp)
            & WINDIVERT_HELPER_NO_ICMP_CHECKSUM != 0 <==> no_icmp,
        spec_checksum_word(no_ip, no_icmp, no_icmpv6, no_tcp, no_udp)
            & WINDIVERT_HELPER_NO_ICMPV6_CHECKSUM != 0 <==> no_icmpv6,
        spec_checksum_word(no_ip, no_icmp, no_icmpv6, no_tcp, no_udp)
            & WINDIVERT_HELPER_NO_TCP_CHECKSUM != 0 <==> no_tcp,
        spec_checksum_word(no_ip, no_icmp, no_icmpv6, no_tcp, no_udp)
            & WINDIVERT_HELPER_NO_UDP_CHECKSUM != 0 <==> no_udp,
{
}


/// Law: starting from the empty word and writing each named open flag to
/// its chosen value, exactly as the fluent setters do, builds the
/// canonical word of that subset.
pub proof fn lemma_flags_build(
    sniff: bool,
    drop_mode: bool,
    recv_only: bool,
    send_only: bool,
    no_installs: bool,
    fragments: bool,
)
    by (bit_vector)
    ensures
        ({
            let w1 = (0u64 & !WINDIVERT_FLAG_SNIFF) | (if sniff { WINDIVERT_FLAG_SNIFF } else { 0 });
            let w2 = (w1 & !WINDIVERT_FLAG_DROP) | (if drop_mode { WINDIVERT_FLAG_DROP } else { 0 });
            let w3 = (w2 & !WINDIVERT_FLAG_RECV_ONLY) | (if recv_only { WINDIVERT_FLAG_RECV_ONLY } else { 0 });
            let w4 = (w3 & !WINDIVERT_FLAG_SEND_ONLY) | (if send_only { WINDIVERT_FLAG_SEND_ONLY } else { 0 });
            let w5 = (w4 & !WINDIVERT_FLAG_NO_INSTALLS) | (if no_installs { WINDIVERT_FLAG_NO_INSTALLS } else { 0 });
            let w6 = (w5 & !WINDIVERT_FLAG_FRAGMENTS) | (if fragments { WINDIVERT_FLAG_FRAGMENTS } else { 0 });
            w6 == spec_flags_word(sniff, drop_mode, recv_only, send_only, no_installs, fragments)
        }),
{
}

/// Law: the same holds for the checksum flags.
pub proof fn lemma_checksum_flags_build(
    no_ip: bool,
    no_icmp: bool,
    no_icmpv6: bool,
    no_tcp: bool,
    no_udp: bool,
)
    by (bit_vector)
    ensures
        ({
            let w1 = (0u64 & !WINDIVERT_HELPER_NO_IP_CHECKSUM) | (if no_ip { WINDIVERT_HELPER_NO_IP_CHECKSUM } else { 0 });
            let w2 = (w1 & !WINDIVERT_HELPER_NO_ICMP_CHECKSUM) | (if no_icmp { WINDIVERT_HELPER_NO_ICMP_CHECKSUM } else { 0 });
            let w3 = (w2 & !WINDIVERT_HELPER_NO_ICMPV6_CHECKSUM) | (if no_icmpv6 { WINDIVERT_HELPER_NO_ICMPV6_CHECKSUM } else { 0 });
            let w4 = (w3 & !WINDIVERT_HELPER_NO_TCP_CHECKSUM) | (if no_tcp { WINDIVERT_HELPER_NO_TCP_CHECKSUM } else { 0 });
            let w5 = (w4 & !WINDIVERT_HELPER_NO_UDP_CHECKSUM) | (if no_udp { WINDIVERT_HELPER_NO_UDP_CHECKSUM } else { 0 });
            w5 == spec_checksum_word(no_ip, no_icmp, no_icmpv6, no_tcp, no_udp)
        }),
{
}

} // verus!
