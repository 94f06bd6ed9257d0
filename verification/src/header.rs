//! Packet header views: IPv4, IPv6, ICMP, ICMPv6, TCP and UDP.
//!
//! Each view is the header's exact wire bytes; multi-byte scalars are in
//! network byte order and sub-byte fields sit at their wire bit offsets.
//! Raw bytes are never part of the public contract: callers read and
//! write fields only through the accessors, whose contracts state each
//! field's value as arithmetic over the view.

use vstd::prelude::*;

use crate::wire::{
    be16_get, be16_put, be32_get, be32_put, be128_get, be128_put, spec_be16, spec_be16_put,
    spec_be32, spec_be32_put, spec_be128, spec_be128_put,
};

verus! {

/// IPv4 header.
///
/// The view is the header's 20 wire bytes.
#[derive(Debug, Clone)]
pub struct WINDIVERT_IPHDR {
    bytes: Vec<u8>,
}

impl WINDIVERT_IPHDR {
    /// The header's wire bytes.
    pub closed spec fn view(&self) -> Seq<u8> {
        self.bytes@
    }

    /// The view holds exactly the header's 20 bytes.
    pub open spec fn wf(&self) -> bool {
        self@.len() == 20
    }

    /// A zeroed header.
    pub fn new() -> (r: WINDIVERT_IPHDR)
        ensures
            r.wf(),
            forall|k: int| 0 <= k < 20 ==> r@[k] == 0u8,
    {
        WINDIVERT_IPHDR { bytes: vec![0u8; 20] }
    }

    /// A header view over the given wire bytes.
    pub fn from_bytes(bytes: Vec<u8>) -> (r: WINDIVERT_IPHDR)
        requires
            bytes.len() == 20,
        ensures
            r.wf(),
            r@ == bytes@,
    {
        WINDIVERT_IPHDR { bytes }
    }

    /// The header's wire bytes, for the driver boundary.
    pub fn as_bytes(&self) -> (r: &Vec<u8>)
        ensures
            r@ == self@,
    {
        &self.bytes
    }

    /// The header length in 32-bit words, from the low nibble of the first byte.
    pub fn header_length(&self) -> (r: u8)
        requires
            self.wf(),
        ensures
            r == self@[0] & 0x0F,
    {
        self.bytes[0] & 0x0F
    }

    /// Writes the header length nibble, leaving the version nibble unchanged.
    pub fn set_header_length(&mut self, val: u8)
        requires
            old(self).wf(),
        ensures
            final(self).wf(),
            final(self)@ == old(self)@.update(0, (old(self)@[0] & 0xF0) | (val & 0x0F)),
    {
        let b = (self.bytes[0] & 0xF0) | (val & 0x0F);
        self.bytes[0] = b;
    }

    /// The IP version, from the high nibble of the first byte.
    pub fn version(&self) -> (r: u8)
        requires
            self.wf(),
        ensures
            r == self@[0] >> 4u8,
    {
        self.bytes[0] >> 4
    }

    /// Writes the version nibble, leaving the header length nibble unchanged.
    pub fn set_version(&mut self, val: u8)
        requires
            old(self).wf(),
        ensures
            final(self).wf(),
            final(self)@ == old(self)@.update(0, (old(self)@[0] & 0x0F) | ((val & 0x0F) << 4u8)),
    {
        let b = (self.bytes[0] & 0x0F) | ((val & 0x0F) << 4);
        self.bytes[0] = b;
    }

    /// The type-of-service byte.
    pub fn tos(&self) -> (r: u8)
        requires
            self.wf(),
        ensures
            r == self@[1],
    {
        self.bytes[1]
    }

    /// Writes the type-of-service byte.
    pub fn set_tos(&mut self, val: u8)
        requires
            old(self).wf(),
        ensures
            final(self).wf(),
            final(self)@ == old(self)@.update(1, val),
    {
        self.bytes[1] = val;
    }

    /// The total length of the packet in bytes, header included.
    pub fn length(&self) -> (r: u16)
        requires
            self.wf(),
        ensures
            r == spec_be16(self@, 2),
    {
        be16_get(&self.bytes, 2)
    }

    /// Writes the total length field.
    pub fn set_length(&mut self, value: u16)
        requires
            old(self).wf(),
        ensures
            final(self).wf(),
            final(self)@ == spec_be16_put(old(self)@, 2, value),
    {
        be16_put(&mut self.bytes, 2, value);
    }

    /// The identification field.
    pub fn id(&self) -> (r: u16)
        requires
            self.wf(),
        ensures
            r == spec_be16(self@, 4),
    {
        be16_get(&self.bytes, 4)
    }

    /// Writes the identification field.
    pub fn set_id(&mut self, value: u16)
        requires
            old(self).wf(),
        ensures
            final(self).wf(),
            final(self)@ == spec_be16_put(old(self)@, 4, value),
    {
        be16_put(&mut self.bytes, 4, value);
    }

    /// The fragment offset in eight-byte units.
    pub fn fragment_offset(&self) -> (r: u16)
        requires
            self.wf(),
        ensures
            r == ((self@[6] & 0x1F) as u16) * 0x100 + self@[7] as u16,
    {
        ((self.bytes[6] & 0x1F) as u16) * 0x100 + (self.bytes[7] as u16)
    }

    /// Writes the fragment offset, leaving the three flag bits unchanged.
    pub fn set_fragment_offset(&mut self, value: u16)
        requires
            old(self).wf(),
        ensures
            final(self).wf(),
            final(self)@ == old(self)@.update(6, (old(self)@[6] & 0xE0) | (((value / 0x100) as u8) & 0x1F)).update(7, (value % 0x100) as u8),
    {
        let hi = (self.bytes[6] & 0xE0) | (((value / 0x100) as u8) & 0x1F);
        self.bytes[6] = hi;
        self.bytes[7] = (value % 0x100) as u8;
    }

    /// The more-fragments flag.
    #[allow(non_snake_case)]
    pub fn MF(&self) -> (r: bool)
        requires
            self.wf(),
        ensures
            r == ((self@[6] & 0x20) != 0),
    {
        (self.bytes[6] & 0x20) != 0
    }

    /// Writes the more-fragments flag.
    #[allow(non_snake_case)]
    pub fn set_MF(&mut self, value: bool)
        requires
            old(self).wf(),
        ensures
            final(self).wf(),
            final(self)@ == old(self)@.update(6, (old(self)@[6] & 0xDF) | (if value { 0x20u8 } else { 0u8 })),
    {
        let b = (self.bytes[6] & 0xDF) | (if value { 0x20u8 } else { 0u8 });
        self.bytes[6] = b;
    }

    /// The do-not-fragment flag.
    #[allow(non_snake_case)]
    pub fn DF(&self) -> (r: bool)
        requires
            self.wf(),
        ensures
            r == ((self@[6] & 0x40) != 0),
    {
        (self.bytes[6] & 0x40) != 0
    }

    /// Writes the do-not-fragment flag.
    #[allow(non_snake_case)]
    pub fn set_DF(&mut self, value: bool)
        requires
            old(self).wf(),
        ensures
            final(self).wf(),
            final(self)@ == old(self)@.update(6, (old(self)@[6] & 0xBF) | (if value { 0x40u8 } else { 0u8 })),
    {
        let b = (self.bytes[6] & 0xBF) | (if value { 0x40u8 } else { 0u8 });
        self.bytes[6] = b;
    }

    /// The time-to-live byte.
    pub fn ttl(&self) -> (r: u8)
        requires
            self.wf(),
        ensures
            r == self@[8],
    {
        self.bytes[8]
    }

    /// Writes the time-to-live byte.
    pub fn set_ttl(&mut self, val: u8)
        requires
            old(self).wf(),
        ensures
            final(self).wf(),
            final(self)@ == old(self)@.update(8, val),
    {
        self.bytes[8] = val;
    }

    /// The transport protocol number.
    pub fn protocol(&self) -> (r: u8)
        requires
            self.wf(),
        ensures
            r == self@[9],
    {
        self.bytes[9]
    }

    /// Writes the transport protocol number.
    pub fn set_protocol(&mut self, val: u8)
        requires
            old(self).wf(),
        ensures
            final(self).wf(),
            final(self)@ == old(self)@.update(9, val),
    {
        self.bytes[9] = val;
    }

    /// The header checksum.
    pub fn checksum(&self) -> (r: u16)
        requires
            self.wf(),
        ensures
            r == spec_be16(self@, 10),
    {
        be16_get(&self.bytes, 10)
    }

    /// Writes the header checksum.
    pub fn set_checksum(&mut self, value: u16)
        requires
            old(self).wf(),
        ensures
            final(self).wf(),
            final(self)@ == spec_be16_put(old(self)@, 10, value),
    {
        be16_put(&mut self.bytes, 10, value);
    }

    /// The source address, as its numeric value.
    pub fn src_addr(&self) -> (r: u32)
        requires
            self.wf(),
        ensures
            r == spec_be32(self@, 12),
    {
        be32_get(&self.bytes, 12)
    }

    /// Writes the source address.
    pub fn set_src_addr(&mut self, value: u32)
        requires
            old(self).wf(),
        ensures
            final(self).wf(),
            final(self)@ == spec_be32_put(old(self)@, 12, value),
    {
        be32_put(&mut self.bytes, 12, value);
    }

    /// The destination address, as its numeric value.
    pub fn dst_addr(&self) -> (r: u32)
        requires
            self.wf(),
        ensures
            r == spec_be32(self@, 16),
    {
        be32_get(&self.bytes, 16)
    }

    /// Writes the destination address.
    pub fn set_dst_addr(&mut self, value: u32)
        requires
            old(self).wf(),
        ensures
            final(self).wf(),
            final(self)@ == spec_be32_put(old(self)@, 16, value),
    {
        be32_put(&mut self.bytes, 16, value);
    }
}
/// IPv6 header.
///
/// The view is the header's 40 wire bytes.
#[derive(Debug, Clone)]
pub struct WINDIVERT_IPV6HDR {
    bytes: Vec<u8>,
}

impl WINDIVERT_IPV6HDR {
    /// The header's wire bytes.
    pub closed spec fn view(&self) -> Seq<u8> {
        self.bytes@
    }

    /// The view holds exactly the header's 40 bytes.
    pub open spec fn wf(&self) -> bool {
        self@.len() == 40
    }

    /// A zeroed header.
    pub fn new() -> (r: WINDIVERT_IPV6HDR)
        ensures
            r.wf(),
            forall|k: int| 0 <= k < 40 ==> r@[k] == 0u8,
    {
        WINDIVERT_IPV6HDR { bytes: vec![0u8; 40] }
    }

    /// A header view over the given wire bytes.
    pub fn from_bytes(bytes: Vec<u8>) -> (r: WINDIVERT_IPV6HDR)
        requires
            bytes.len() == 40,
        ensures
            r.wf(),
            r@ == bytes@,
    {
        WINDIVERT_IPV6HDR { bytes }
    }

    /// The header's wire bytes, for the driver boundary.
    pub fn as_bytes(&self) -> (r: &Vec<u8>)
        ensures
            r@ == self@,
    {
        &self.bytes
    }

    /// The IP version, from the high nibble of the first byte.
    pub fn version(&self) -> (r: u8)
        requires
            self.wf(),
        ensures
            r == self@[0] >> 4u8,
    {
        self.bytes[0] >> 4
    }

    /// Writes the version nibble, leaving the traffic class bits unchanged.
    pub fn set_version(&mut self, val: u8)
        requires
            old(self).wf(),
        ensures
            final(self).wf(),
            final(self)@ == old(self)@.update(0, (old(self)@[0] & 0x0F) | ((val & 0x0F) << 4u8)),
    {
        let b = (self.bytes[0] & 0x0F) | ((val & 0x0F) << 4);
        self.bytes[0] = b;
    }

    /// The traffic class, straddling the first two bytes.
    pub fn traffic_class(&self) -> (r: u8)
        requires
            self.wf(),
        ensures
            r == ((self@[0] & 0x0F) << 4u8) | (self@[1] >> 4u8),
    {
        ((self.bytes[0] & 0x0F) << 4) | (self.bytes[1] >> 4)
    }

    /// Writes the traffic class across its two nibbles.
    pub fn set_traffic_class(&mut self, value: u8)
        requires
            old(self).wf(),
        ensures
            final(self).wf(),
            final(self)@ == old(self)@.update(0, (old(self)@[0] & 0xF0) | (value >> 4u8)).update(1, (old(self)@[1] & 0x0F) | ((value & 0x0F) << 4u8)),
    {
        let b0 = (self.bytes[0] & 0xF0) | (value >> 4);
        self.bytes[0] = b0;
        let b1 = (self.bytes[1] & 0x0F) | ((value & 0x0F) << 4);
        self.bytes[1] = b1;
    }

    /// The 20-bit flow label.
    pub fn flow_label(&self) -> (r: u32)
        requires
            self.wf(),
        ensures
            r == ((self@[1] & 0x0F) as u32) * 0x1_0000 + (self@[2] as u32) * 0x100 + (self@[3] as u32),
    {
        ((self.bytes[1] & 0x0F) as u32) * 0x1_0000 + (self.bytes[2] as u32) * 0x100 + (self.bytes[3] as u32)
    }

    /// Writes the 20-bit flow label, ignoring the value's higher bits.
    pub fn set_flow_label(&mut self, value: u32)
        requires
            old(self).wf(),
        ensures
            final(self).wf(),
            final(self)@ == old(self)@.update(1, (old(self)@[1] & 0xF0) | (((value / 0x1_0000) % 0x10) as u8)).update(2, ((value / 0x100) % 0x100) as u8).update(3, (value % 0x100) as u8),
    {
        let b1 = (self.bytes[1] & 0xF0) | (((value / 0x1_0000) % 0x10) as u8);
        self.bytes[1] = b1;
        self.bytes[2] = ((value / 0x100) % 0x100) as u8;
        self.bytes[3] = (value % 0x100) as u8;
    }

    /// The payload length in bytes, extension headers included.
    pub fn length(&self) -> (r: u16)
        requires
            self.wf(),
        ensures
            r == spec_be16(self@, 4),
    {
        be16_get(&self.bytes, 4)
    }

    /// The next-header byte.
    pub fn next_header(&self) -> (r: u8)
        requires
            self.wf(),
        ensures
            r == self@[6],
    {
        self.bytes[6]
    }

    /// Writes the next-header byte.
    pub fn set_next_header(&mut self, val: u8)
        requires
            old(self).wf(),
        ensures
            final(self).wf(),
            final(self)@ == old(self)@.update(6, val),
    {
        self.bytes[6] = val;
    }

    /// The hop-limit byte.
    pub fn hop_limit(&self) -> (r: u8)
        requires
            self.wf(),
        ensures
            r == self@[7],
    {
        self.bytes[7]
    }

    /// Writes the hop-limit byte.
    pub fn set_hop_limit(&mut self, val: u8)
        requires
            old(self).wf(),
        ensures
            final(self).wf(),
            final(self)@ == old(self)@.update(7, val),
    {
        self.bytes[7] = val;
    }

    /// The source address, as its numeric value.
    pub fn src_addr(&self) -> (r: u128)
        requires
            self.wf(),
        ensures
            r == spec_be128(self@, 8),
    {
        be128_get(&self.bytes, 8)
    }

    /// Writes the source address.
    pub fn set_src_addr(&mut self, value: u128)
        requires
            old(self).wf(),
        ensures
            final(self).wf(),
            final(self)@ == spec_be128_put(old(self)@, 8, value),
    {
        be128_put(&mut self.bytes, 8, value);
    }

    /// The destination address, as its numeric value.
    pub fn dst_addr(&self) -> (r: u128)
        requires
            self.wf(),
        ensures
            r == spec_be128(self@, 24),
    {
        be128_get(&self.bytes, 24)
    }

    /// Writes the destination address.
    pub fn set_dst_addr(&mut self, value: u128)
        requires
            old(self).wf(),
        ensures
            final(self).wf(),
            final(self)@ == spec_be128_put(old(self)@, 24, value),
    {
        be128_put(&mut self.bytes, 24, value);
    }
}
/// ICMP header.
///
/// The view is the header's 8 wire bytes.
#[derive(Debug, Clone)]
pub struct WINDIVERT_ICMPHDR {
    bytes: Vec<u8>,
}

impl WINDIVERT_ICMPHDR {
    /// The header's wire bytes.
    pub closed spec fn view(&self) -> Seq<u8> {
        self.bytes@
    }

    /// The view holds exactly the header's 8 bytes.
    pub open spec fn wf(&self) -> bool {
        self@.len() == 8
    }

    /// A zeroed header.
    pub fn new() -> (r: WINDIVERT_ICMPHDR)
        ensures
            r.wf(),
            forall|k: int| 0 <= k < 8 ==> r@[k] == 0u8,
    {
        WINDIVERT_ICMPHDR { bytes: vec![0u8; 8] }
    }

    /// A header view over the given wire bytes.
    pub fn from_bytes(bytes: Vec<u8>) -> (r: WINDIVERT_ICMPHDR)
        requires
            bytes.len() == 8,
        ensures
            r.wf(),
            r@ == bytes@,
    {
        WINDIVERT_ICMPHDR { bytes }
    }

    /// The header's wire bytes, for the driver boundary.
    pub fn as_bytes(&self) -> (r: &Vec<u8>)
        ensures
            r@ == self@,
    {
        &self.bytes
    }

    /// The message type byte.
    pub fn msg_type(&self) -> (r: u8)
        requires
            self.wf(),
        ensures
            r == self@[0],
    {
        self.bytes[0]
    }

    /// Writes the message type byte.
    pub fn set_msg_type(&mut self, val: u8)
        requires
            old(self).wf(),
        ensures
            final(self).wf(),
            final(self)@ == old(self)@.update(0, val),
    {
        self.bytes[0] = val;
    }

    /// The message code byte.
    pub fn msg_code(&self) -> (r: u8)
        requires
            self.wf(),
        ensures
            r == self@[1],
    {
        self.bytes[1]
    }

    /// Writes the message code byte.
    pub fn set_msg_code(&mut self, val: u8)
        requires
            old(self).wf(),
        ensures
            final(self).wf(),
            final(self)@ == old(self)@.update(1, val),
    {
        self.bytes[1] = val;
    }

    /// The message checksum.
    pub fn checksum(&self) -> (r: u16)
        requires
            self.wf(),
        ensures
            r == spec_be16(self@, 2),
    {
        be16_get(&self.bytes, 2)
    }

    /// Writes the message checksum.
    #[allow(non_snake_case)]
    pub fn set_Checksum(&mut self, value: u16)
        requires
            old(self).wf(),
        ensures
            final(self).wf(),
            final(self)@ == spec_be16_put(old(self)@, 2, value),
    {
        be16_put(&mut self.bytes, 2, value);
    }

    /// The rest-of-header word.
    pub fn body(&self) -> (r: u32)
        requires
            self.wf(),
        ensures
            r == spec_be32(self@, 4),
    {
        be32_get(&self.bytes, 4)
    }

    /// Writes the rest-of-header word.
    #[allow(non_snake_case)]
    pub fn set_Body(&mut self, value: u32)
        requires
            old(self).wf(),
        ensures
            final(self).wf(),
            final(self)@ == spec_be32_put(old(self)@, 4, value),
    {
        be32_put(&mut self.bytes, 4, value);
    }
}
/// ICMPv6 header.
///
/// The view is the header's 8 wire bytes.
#[derive(Debug, Clone)]
pub struct WINDIVERT_ICMPV6HDR {
    bytes: Vec<u8>,
}

impl WINDIVERT_ICMPV6HDR {
    /// The header's wire bytes.
    pub closed spec fn view(&self) -> Seq<u8> {
        self.bytes@
    }

    /// The view holds exactly the header's 8 bytes.
    pub open spec fn wf(&self) -> bool {
        self@.len() == 8
    }

    /// A zeroed header.
    pub fn new() -> (r: WINDIVERT_ICMPV6HDR)
        ensures
            r.wf(),
            forall|k: int| 0 <= k < 8 ==> r@[k] == 0u8,
    {
        WINDIVERT_ICMPV6HDR { bytes: vec![0u8; 8] }
    }

    /// A header view over the given wire bytes.
    pub fn from_bytes(bytes: Vec<u8>) -> (r: WINDIVERT_ICMPV6HDR)
        requires
            bytes.len() == 8,
        ensures
            r.wf(),
            r@ == bytes@,
    {
        WINDIVERT_ICMPV6HDR { bytes }
    }

    /// The header's wire bytes, for the driver boundary.
    pub fn as_bytes(&self) -> (r: &Vec<u8>)
        ensures
            r@ == self@,
    {
        &self.bytes
    }

    /// The message type byte.
    pub fn msg_type(&self) -> (r: u8)
        requires
            self.wf(),
        ensures
            r == self@[0],
    {
        self.bytes[0]
    }

    /// Writes the message type byte.
    pub fn set_msg_type(&mut self, val: u8)
        requires
            old(self).wf(),
        ensures
            final(self).wf(),
            final(self)@ == old(self)@.update(0, val),
    {
        self.bytes[0] = val;
    }

    /// The message code byte.
    pub fn msg_code(&self) -> (r: u8)
        requires
            self.wf(),
        ensures
            r == self@[1],
    {
        self.bytes[1]
    }

    /// Writes the message code byte.
    pub fn set_msg_code(&mut self, val: u8)
        requires
            old(self).wf(),
        ensures
            final(self).wf(),
            final(self)@ == old(self)@.update(1, val),
    {
        self.bytes[1] = val;
    }

    /// The message checksum.
    pub fn checksum(&self) -> (r: u16)
        requires
            self.wf(),
        ensures
            r == spec_be16(self@, 2),
    {
        be16_get(&self.bytes, 2)
    }

    /// Writes the message checksum.
    #[allow(non_snake_case)]
    pub fn set_Checksum(&mut self, value: u16)
        requires
            old(self).wf(),
        ensures
            final(self).wf(),
            final(self)@ == spec_be16_put(old(self)@, 2, value),
    {
        be16_put(&mut self.bytes, 2, value);
    }

    /// The rest-of-header word.
    pub fn body(&self) -> (r: u32)
        requires
            self.wf(),
        ensures
            r == spec_be32(self@, 4),
    {
        be32_get(&self.bytes, 4)
    }

    /// Writes the rest-of-header word.
    #[allow(non_snake_case)]
    pub fn set_Body(&mut self, value: u32)
        requires
            old(self).wf(),
        ensures
            final(self).wf(),
            final(self)@ == spec_be32_put(old(self)@, 4, value),
    {
        be32_put(&mut self.bytes, 4, value);
    }
}
/// TCP header.
///
/// The view is the header's 20 wire bytes.
#[derive(Debug, Clone)]
pub struct WINDIVERT_TCPHDR {
    bytes: Vec<u8>,
}

impl WINDIVERT_TCPHDR {
    /// The header's wire bytes.
    pub closed spec fn view(&self) -> Seq<u8> {
        self.bytes@
    }

    /// The view holds exactly the header's 20 bytes.
    pub open spec fn wf(&self) -> bool {
        self@.len() == 20
    }

    /// A zeroed header.
    pub fn new() -> (r: WINDIVERT_TCPHDR)
        ensures
            r.wf(),
            forall|k: int| 0 <= k < 20 ==> r@[k] == 0u8,
    {
        WINDIVERT_TCPHDR { bytes: vec![0u8; 20] }
    }

    /// A header view over the given wire bytes.
    pub fn from_bytes(bytes: Vec<u8>) -> (r: WINDIVERT_TCPHDR)
        requires
            bytes.len() == 20,
        ensures
            r.wf(),
            r@ == bytes@,
    {
        WINDIVERT_TCPHDR { bytes }
    }

    /// The header's wire bytes, for the driver boundary.
    pub fn as_bytes(&self) -> (r: &Vec<u8>)
        ensures
            r@ == self@,
    {
        &self.bytes
    }

    /// The source port.
    pub fn src_port(&self) -> (r: u16)
        requires
            self.wf(),
        ensures
            r == spec_be16(self@, 0),
    {
        be16_get(&self.bytes, 0)
    }

    /// Writes the source port.
    pub fn set_src_port(&mut self, value: u16)
        requires
            old(self).wf(),
        ensures
            final(self).wf(),
            final(self)@ == spec_be16_put(old(self)@, 0, value),
    {
        be16_put(&mut self.bytes, 0, value);
    }

    /// The destination port.
    pub fn dst_port(&self) -> (r: u16)
        requires
            self.wf(),
        ensures
            r == spec_be16(self@, 2),
    {
        be16_get(&self.bytes, 2)
    }

    /// Writes the destination port.
    pub fn set_dst_port(&mut self, value: u16)
        requires
            old(self).wf(),
        ensures
            final(self).wf(),
            final(self)@ == spec_be16_put(old(self)@, 2, value),
    {
        be16_put(&mut self.bytes, 2, value);
    }

    /// The sequence number.
    pub fn seq_number(&self) -> (r: u32)
        requires
            self.wf(),
        ensures
            r == spec_be32(self@, 4),
    {
        be32_get(&self.bytes, 4)
    }

    /// Writes the sequence number.
    pub fn set_seq_number(&mut self, value: u32)
        requires
            old(self).wf(),
        ensures
            final(self).wf(),
            final(self)@ == spec_be32_put(old(self)@, 4, value),
    {
        be32_put(&mut self.bytes, 4, value);
    }

    /// The acknowledgment number.
    #[allow(non_snake_case)]
    pub fn ACK_number(&self) -> (r: u32)
        requires
            self.wf(),
        ensures
            r == spec_be32(self@, 8),
    {
        be32_get(&self.bytes, 8)
    }

    /// Writes the acknowledgment number.
    #[allow(non_snake_case)]
    pub fn set_ACK_number(&mut self, value: u32)
        requires
            old(self).wf(),
        ensures
            final(self).wf(),
            final(self)@ == spec_be32_put(old(self)@, 8, value),
    {
        be32_put(&mut self.bytes, 8, value);
    }

    /// The data offset in 32-bit words, from the high nibble of byte twelve.
    pub fn header_length(&self) -> (r: u16)
        requires
            self.wf(),
        ensures
            r == (self@[12] >> 4u8) as u16,
    {
        (self.bytes[12] >> 4) as u16
    }

    /// Writes the data offset nibble.
    pub fn set_header_length(&mut self, val: u16)
        requires
            old(self).wf(),
        ensures
            final(self).wf(),
            final(self)@ == old(self)@.update(12, (old(self)@[12] & 0x0F) | (((val % 0x10) as u8) << 4u8)),
    {
        let b = (self.bytes[12] & 0x0F) | (((val % 0x10) as u8) << 4);
        self.bytes[12] = b;
    }

    /// The FIN flag, as zero or one.
    #[allow(non_snake_case)]
    pub fn FIN(&self) -> (r: u16)
        requires
            self.wf(),
        ensures
            r == (self@[13] & 0x01) as u16,
    {
        (self.bytes[13] & 0x01) as u16
    }

    /// Writes the FIN flag from the value's low bit.
    #[allow(non_snake_case)]
    pub fn set_FIN(&mut self, val: u16)
        requires
            old(self).wf(),
        ensures
            final(self).wf(),
            final(self)@ == old(self)@.update(13, (old(self)@[13] & 0xFE) | ((val % 2) as u8)),
    {
        let b = (self.bytes[13] & 0xFE) | ((val % 2) as u8);
        self.bytes[13] = b;
    }

    /// The SYN flag, as zero or one.
    #[allow(non_snake_case)]
    pub fn SYN(&self) -> (r: u16)
        requires
            self.wf(),
        ensures
            r == ((self@[13] >> 1u8) & 0x01) as u16,
    {
        ((self.bytes[13] >> 1) & 0x01) as u16
    }

    /// Writes the SYN flag from the value's low bit.
    #[allow(non_snake_case)]
    pub fn set_SYN(&mut self, val: u16)
        requires
            old(self).wf(),
        ensures
            final(self).wf(),
            final(self)@ == old(self)@.update(13, (old(self)@[13] & 0xFD) | (((val % 2) as u8) << 1u8)),
    {
        let b = (self.bytes[13] & 0xFD) | (((val % 2) as u8) << 1);
        self.bytes[13] = b;
    }

    /// The RST flag, as zero or one.
    #[allow(non_snake_case)]
    pub fn RST(&self) -> (r: u16)
        requires
            self.wf(),
        ensures
            r == ((self@[13] >> 2u8) & 0x01) as u16,
    {
        ((self.bytes[13] >> 2) & 0x01) as u16
    }

    /// Writes the RST flag from the value's low bit.
    #[allow(non_snake_case)]
    pub fn set_RST(&mut self, val: u16)
        requires
            old(self).wf(),
        ensures
            final(self).wf(),
            final(self)@ == old(self)@.update(13, (old(self)@[13] & 0xFB) | (((val % 2) as u8) << 2u8)),
    {
        let b = (self.bytes[13] & 0xFB) | (((val % 2) as u8) << 2);
        self.bytes[13] = b;
    }

    /// The PSH flag, as zero or one.
    #[allow(non_snake_case)]
    pub fn PSH(&self) -> (r: u16)
        requires
            self.wf(),
        ensures
            r == ((self@[13] >> 3u8) & 0x01) as u16,
    {
        ((self.bytes[13] >> 3) & 0x01) as u16
    }

    /// Writes the PSH flag from the value's low bit.
    #[allow(non_snake_case)]
    pub fn set_PSH(&mut self, val: u16)
        requires
            old(self).wf(),
        ensures
            final(self).wf(),
            final(self)@ == old(self)@.update(13, (old(self)@[13] & 0xF7) | (((val % 2) as u8) << 3u8)),
    {
        let b = (self.bytes[13] & 0xF7) | (((val % 2) as u8) << 3);
        self.bytes[13] = b;
    }

    /// The ACK flag, as zero or one.
    #[allow(non_snake_case)]
    pub fn ACK(&self) -> (r: u16)
        requires
            self.wf(),
        ensures
            r == ((self@[13] >> 4u8) & 0x01) as u16,
    {
        ((self.bytes[13] >> 4) & 0x01) as u16
    }

    /// Writes the ACK flag from the value's low bit.
    #[allow(non_snake_case)]
    pub fn set_ACK(&mut self, val: u16)
        requires
            old(self).wf(),
        ensures
            final(self).wf(),
            final(self)@ == old(self)@.update(13, (old(self)@[13] & 0xEF) | (((val % 2) as u8) << 4u8)),
    {
        let b = (self.bytes[13] & 0xEF) | (((val % 2) as u8) << 4);
        self.bytes[13] = b;
    }

    /// The URG flag, as zero or one.
    #[allow(non_snake_case)]
    pub fn URG(&self) -> (r: u16)
        requires
            self.wf(),
        ensures
            r == ((self@[13] >> 5u8) & 0x01) as u16,
    {
        ((self.bytes[13] >> 5) & 0x01) as u16
    }

    /// Writes the URG flag from the value's low bit.
    #[allow(non_snake_case)]
    pub fn set_URG(&mut self, val: u16)
        requires
            old(self).wf(),
        ensures
            final(self).wf(),
            final(self)@ == old(self)@.update(13, (old(self)@[13] & 0xDF) | (((val % 2) as u8) << 5u8)),
    {
        let b = (self.bytes[13] & 0xDF) | (((val % 2) as u8) << 5);
        self.bytes[13] = b;
    }

    /// The receive window size.
    pub fn window(&self) -> (r: u16)
        requires
            self.wf(),
        ensures
            r == spec_be16(self@, 14),
    {
        be16_get(&self.bytes, 14)
    }

    /// Writes the receive window size.
    pub fn set_window(&mut self, value: u16)
        requires
            old(self).wf(),
        ensures
            final(self).wf(),
            final(self)@ == spec_be16_put(old(self)@, 14, value),
    {
        be16_put(&mut self.bytes, 14, value);
    }

    /// The segment checksum.
    pub fn checksum(&self) -> (r: u16)
        requires
            self.wf(),
        ensures
            r == spec_be16(self@, 16),
    {
        be16_get(&self.bytes, 16)
    }

    /// Writes the segment checksum.
    #[allow(non_snake_case)]
    pub fn set_Checksum(&mut self, value: u16)
        requires
            old(self).wf(),
        ensures
            final(self).wf(),
            final(self)@ == spec_be16_put(old(self)@, 16, value),
    {
        be16_put(&mut self.bytes, 16, value);
    }

    /// The urgent pointer.
    pub fn urg_ptr(&self) -> (r: u16)
        requires
            self.wf(),
        ensures
            r == spec_be16(self@, 18),
    {
        be16_get(&self.bytes, 18)
    }

    /// Writes the urgent pointer.
    pub fn set_urg_ptr(&mut self, value: u16)
        requires
            old(self).wf(),
        ensures
            final(self).wf(),
            final(self)@ == spec_be16_put(old(self)@, 18, value),
    {
        be16_put(&mut self.bytes, 18, value);
    }
}
/// UDP header.
///
/// The view is the header's 8 wire bytes.
#[derive(Debug, Clone)]
pub struct WINDIVERT_UDPHDR {
    bytes: Vec<u8>,
}

impl WINDIVERT_UDPHDR {
    /// The header's wire bytes.
    pub closed spec fn view(&self) -> Seq<u8> {
        self.bytes@
    }

    /// The view holds exactly the header's 8 bytes.
    pub open spec fn wf(&self) -> bool {
        self@.len() == 8
    }

    /// A zeroed header.
    pub fn new() -> (r: WINDIVERT_UDPHDR)
        ensures
            r.wf(),
            forall|k: int| 0 <= k < 8 ==> r@[k] == 0u8,
    {
        WINDIVERT_UDPHDR { bytes: vec![0u8; 8] }
    }

    /// A header view over the given wire bytes.
    pub fn from_bytes(bytes: Vec<u8>) -> (r: WINDIVERT_UDPHDR)
        requires
            bytes.len() == 8,
        ensures
            r.wf(),
            r@ == bytes@,
    {
        WINDIVERT_UDPHDR { bytes }
    }

    /// The header's wire bytes, for the driver boundary.
    pub fn as_bytes(&self) -> (r: &Vec<u8>)
        ensures
            r@ == self@,
    {
        &self.bytes
    }

    /// The source port.
    pub fn src_port(&self) -> (r: u16)
        requires
            self.wf(),
        ensures
            r == spec_be16(self@, 0),
    {
        be16_get(&self.bytes, 0)
    }

    /// Writes the source port.
    pub fn set_src_port(&mut self, value: u16)
        requires
            old(self).wf(),
        ensures
            final(self).wf(),
            final(self)@ == spec_be16_put(old(self)@, 0, value),
    {
        be16_put(&mut self.bytes, 0, value);
    }

    /// The destination port.
    pub fn dst_port(&self) -> (r: u16)
        requires
            self.wf(),
        ensures
            r == spec_be16(self@, 2),
    {
        be16_get(&self.bytes, 2)
    }

    /// Writes the destination port.
    pub fn set_dst_port(&mut self, value: u16)
        requires
            old(self).wf(),
        ensures
            final(self).wf(),
            final(self)@ == spec_be16_put(old(self)@, 2, value),
    {
        be16_put(&mut self.bytes, 2, value);
    }

    /// The datagram length in bytes, header included.
    pub fn length(&self) -> (r: u16)
        requires
            self.wf(),
        ensures
            r == spec_be16(self@, 4),
    {
        be16_get(&self.bytes, 4)
    }

    /// Writes the datagram length.
    pub fn set_length(&mut self, value: u16)
        requires
            old(self).wf(),
        ensures
            final(self).wf(),
            final(self)@ == spec_be16_put(old(self)@, 4, value),
    {
        be16_put(&mut self.bytes, 4, value);
    }

    /// The datagram checksum.
    pub fn checksum(&self) -> (r: u16)
        requires
            self.wf(),
        ensures
            r == spec_be16(self@, 6),
    {
        be16_get(&self.bytes, 6)
    }

    /// Writes the datagram checksum.
    #[allow(non_snake_case)]
    pub fn set_Checksum(&mut self, value: u16)
        requires
            old(self).wf(),
        ensures
            final(self).wf(),
            final(self)@ == spec_be16_put(old(self)@, 6, value),
    {
        be16_put(&mut self.bytes, 6, value);
    }
}
} // verus!
