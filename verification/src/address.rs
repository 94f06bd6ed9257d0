//! The address record attached to every received event, and its typed
//! per-layer views.
//!
//! The record is a fixed-size packed structure shared with the driver: a
//! timestamp, a four-byte packed field block (layer, event, and eight
//! one-bit flags), a reserved word, and a 64-byte per-layer data block
//! whose valid interpretation is fixed by the layer the handle was opened
//! with.  [`WinDivertAddress`] is the typed view: each layer marker
//! exposes only the accessors of its own data block, so reading the wrong
//! interpretation is unrepresentable rather than checked at run time.

use vstd::prelude::*;

use crate::bitfield::{
    spec_get, spec_set, spec_mask, BitfieldUnit, lemma_bitfield_set_get, lemma_bitfield_isolation,
};
use crate::layer::{
    FlowLayer, ForwardLayer, NetworkLayer, ReflectLayer, SocketLayer, WinDivertLayerTrait,
};
use crate::newtypes::{WinDivertEvent, WinDivertLayer};
use crate::wire::{
    le16_get, le32_get, le32_put, le64_get, spec_le16, spec_le32, spec_le32_put, spec_le64,
};

verus! {

/// Bit offset of the layer field in the packed block.
pub const ADDR_LAYER_OFFSET: u64 = 0;

/// Bit offset of the event field in the packed block.
pub const ADDR_EVENT_OFFSET: u64 = 8;

/// Bit offset of the sniffed flag in the packed block.
pub const ADDR_SNIFFED_OFFSET: u64 = 16;

/// Bit offset of the outbound flag in the packed block.
pub const ADDR_OUTBOUND_OFFSET: u64 = 17;

/// Bit offset of the loopback flag in the packed block.
pub const ADDR_LOOPBACK_OFFSET: u64 = 18;

/// Bit offset of the impostor flag in the packed block.
pub const ADDR_IMPOSTOR_OFFSET: u64 = 19;

/// Bit offset of the IPv6 flag in the packed block.
pub const ADDR_IPV6_OFFSET: u64 = 20;

/// Bit offset of the IPv4-checksum-valid flag in the packed block.
pub const ADDR_IPCHECKSUM_OFFSET: u64 = 21;

/// Bit offset of the TCP-checksum-valid flag in the packed block.
pub const ADDR_TCPCHECKSUM_OFFSET: u64 = 22;

/// Bit offset of the UDP-checksum-valid flag in the packed block.
pub const ADDR_UDPCHECKSUM_OFFSET: u64 = 23;

/// The bit offset of field `i` of the packed block's field table:
/// the layer, the event, then the eight one-bit flags in wire order.
pub open spec fn spec_addr_field_offset(i: int) -> u64 {
    if i == 0 {
        ADDR_LAYER_OFFSET
    } else if i == 1 {
        ADDR_EVENT_OFFSET
    } else {
        (14 + i) as u64
    }
}

/// The bit width of field `i` of the packed block's field table.
pub open spec fn spec_addr_field_width(i: int) -> u64 {
    if i == 0 || i == 1 {
        8
    } else {
        1
    }
}

/// Law: for every field of the record's packed block, writing a
/// representable value and reading the same field back recovers it.
pub proof fn lemma_address_field_round_trip(bits: u64, i: int, val: u64)
    requires
        0 <= i < 10,
        val <= spec_mask(spec_addr_field_width(i)),
    ensures
        spec_get(
            spec_set(bits, spec_addr_field_offset(i), spec_addr_field_width(i), val),
            spec_addr_field_offset(i),
            spec_addr_field_width(i),
        ) == val,
{
    lemma_bitfield_set_get(bits, spec_addr_field_offset(i), spec_addr_field_width(i), val);
}

/// Law: writing any field of the record's packed block leaves every other
/// field of the block unchanged.
pub proof fn lemma_address_field_isolation(bits: u64, i: int, j: int, val: u64)
    requires
        0 <= i < 10,
        0 <= j < 10,
        i != j,
    ensures
        spec_get(
            spec_set(bits, spec_addr_field_offset(i), spec_addr_field_width(i), val),
            spec_addr_field_offset(j),
            spec_addr_field_width(j),
        ) == spec_get(bits, spec_addr_field_offset(j), spec_addr_field_width(j)),
{
    lemma_bitfield_isolation(
        bits,
        spec_addr_field_offset(i),
        spec_addr_field_width(i),
        val,
        spec_addr_field_offset(j),
        spec_addr_field_width(j),
    );
}

/// Associated data of an event on the network or forward layer.
#[derive(Debug, Default, Copy, Clone, PartialEq, Eq, Structural)]
pub struct WINDIVERT_DATA_NETWORK {
    /// Interface index on which the packet arrived (for inbound packets)
    /// or will be sent (for outbound packets).
    pub interface_id: u32,
    /// The sub-interface index for `interface_id`.
    pub subinterface_id: u32,
}

/// Associated data of an event on the flow layer.
#[derive(Debug, Default, Copy, Clone)]
pub struct WINDIVERT_DATA_FLOW {
    /// The endpoint ID of the flow.
    pub endpoint_id: u64,
    /// The parent endpoint ID of the flow.
    pub parent_endpoint_id: u64,
    /// The id of the process associated with the flow.
    pub process_id: u32,
    /// The local address, in IPv4-mapped-IPv6 form, as four words in the
    /// driver's order.
    pub local_addr: [u32; 4],
    /// The remote address, in the same form as the local one.
    pub remote_addr: [u32; 4],
    /// The local port associated with the flow.
    pub local_port: u16,
    /// The remote port associated with the flow.
    pub remote_port: u16,
    /// The flow protocol.
    pub protocol: u8,
}

/// Associated data of an event on the socket layer; the driver lays it
/// out exactly as the flow data.
#[derive(Debug, Default, Copy, Clone)]
pub struct WINDIVERT_DATA_SOCKET {
    /// The endpoint ID of the socket.
    pub endpoint_id: u64,
    /// The parent endpoint ID of the socket.
    pub parent_endpoint_id: u64,
    /// The id of the process associated with the socket.
    pub process_id: u32,
    /// The local address, in IPv4-mapped-IPv6 form, as four words in the
    /// driver's order.
    pub local_addr: [u32; 4],
    /// The remote address, in the same form as the local one.
    pub remote_addr: [u32; 4],
    /// The local port associated with the socket.
    pub local_port: u16,
    /// The remote port associated with the socket.
    pub remote_port: u16,
    /// The socket protocol.
    pub protocol: u8,
}

/// Associated data of an event on the reflect layer.
#[derive(Debug, Copy, Clone, PartialEq, Eq, Structural)]
pub struct WINDIVERT_DATA_REFLECT {
    /// Timestamp indicating when the reported handle was opened.
    pub timestamp: i64,
    /// Process id of the process that opened the reported handle.
    pub process_id: u32,
    /// Layer the reported handle was opened on.
    pub layer: WinDivertLayer,
    /// Flag word the reported handle was opened with.
    pub flags: u64,
    /// Priority the reported handle was opened with.
    pub priority: i16,
}

impl Default for WINDIVERT_DATA_REFLECT {
    /// A zeroed reflect data block; its layer is the zero-valued one.
    fn default() -> (r: Self)
        ensures
            r.timestamp == 0 && r.process_id == 0 && r.layer == WinDivertLayer::Network
                && r.flags == 0 && r.priority == 0,
    {
        WINDIVERT_DATA_REFLECT {
            timestamp: 0,
            process_id: 0,
            layer: WinDivertLayer::Network,
            flags: 0,
            priority: 0,
        }
    }
}

/// The records `a` and `b` hold the same timestamp, packed fields and
/// data block.
pub open spec fn spec_addr_eq(a: WINDIVERT_ADDRESS, b: WINDIVERT_ADDRESS) -> bool {
    a.spec_timestamp() == b.spec_timestamp() && a.spec_bits() == b.spec_bits() && a.spec_data()
        == b.spec_data()
}

/// The raw address record returned by every receive call and required by
/// every send call.
///
/// `spec_bits` is the packed field block and `spec_data` the 64-byte
/// per-layer data block.
#[derive(Debug, Clone)]
pub struct WINDIVERT_ADDRESS {
    timestamp: i64,
    addr_bitfield: BitfieldUnit,
    reserved: u32,
    union_field: Vec<u8>,
}

impl WINDIVERT_ADDRESS {
    /// The packed field block of the record.
    pub closed spec fn spec_bits(&self) -> u64 {
        self.addr_bitfield@
    }

    /// The timestamp of the record, in the OS high-resolution counter's
    /// clock domain.
    pub closed spec fn spec_timestamp(&self) -> i64 {
        self.timestamp
    }

    /// The timestamp of the record.
    pub fn get_timestamp(&self) -> (r: i64)
        ensures
            r == self.spec_timestamp(),
    {
        self.timestamp
    }

    /// Writes the timestamp of the record.
    pub fn set_timestamp(&mut self, v: i64)
        ensures
            final(self).spec_timestamp() == v,
            final(self).spec_bits() == old(self).spec_bits(),
            final(self).spec_data() == old(self).spec_data(),
            final(self).wf() == old(self).wf(),
    {
        self.timestamp = v;
    }

    /// The 64-byte per-layer data block of the record.
    pub closed spec fn spec_data(&self) -> Seq<u8> {
        self.union_field@
    }

    /// The record's blocks have their wire sizes.
    pub closed spec fn wf(&self) -> bool {
        self.addr_bitfield.wf() && self.addr_bitfield.spec_size() == 4
            && self.union_field@.len() == 64
    }

    /// A zeroed record.
    pub fn new() -> (r: WINDIVERT_ADDRESS)
        ensures
            r.wf(),
            r.spec_timestamp() == 0,
            r.spec_bits() == 0,
            r.spec_data().len() == 64,
            forall|k: int| 0 <= k < 64 ==> r.spec_data()[k] == 0u8,
    {
        WINDIVERT_ADDRESS {
            timestamp: 0,
            addr_bitfield: BitfieldUnit::new(4),
            reserved: 0,
            union_field: vec![0u8; 64],
        }
    }

    /// The handle layer recorded in the packed block.
    pub fn layer(&self) -> (r: WinDivertLayer)
        requires
            self.wf(),
            spec_get(self.spec_bits(), ADDR_LAYER_OFFSET, 8) <= 4,
        ensures
            r.spec_value() == spec_get(self.spec_bits(), ADDR_LAYER_OFFSET, 8),
    {
        let value = self.addr_bitfield.get(ADDR_LAYER_OFFSET, 8);
        match WinDivertLayer::try_from(value as u32) {
            Ok(layer) => layer,
            Err(_) => WinDivertLayer::Network,
        }
    }

    /// Writes the handle layer into the packed block.
    pub fn set_layer(&mut self, val: WinDivertLayer)
        requires
            old(self).wf(),
        ensures
            final(self).wf(),
            final(self).spec_bits() == spec_set(
                old(self).spec_bits(),
                ADDR_LAYER_OFFSET,
                8,
                val.spec_value() as u64,
            ),
            final(self).spec_data() == old(self).spec_data(),
            final(self).spec_timestamp() == old(self).spec_timestamp(),
    {
        let v = val.as_u32();
        self.addr_bitfield.set(ADDR_LAYER_OFFSET, 8, v as u64);
    }

    /// The event recorded in the packed block.
    pub fn event(&self) -> (r: WinDivertEvent)
        requires
            self.wf(),
            spec_get(self.spec_bits(), ADDR_EVENT_OFFSET, 8) <= 9,
        ensures
            r.spec_value() == spec_get(self.spec_bits(), ADDR_EVENT_OFFSET, 8),
    {
        let value = self.addr_bitfield.get(ADDR_EVENT_OFFSET, 8);
        match WinDivertEvent::try_from(value as u8) {
            Ok(event) => event,
            Err(_) => WinDivertEvent::NetworkPacket,
        }
    }

    /// Writes the event into the packed block.
    pub fn set_event(&mut self, val: WinDivertEvent)
        requires
            old(self).wf(),
        ensures
            final(self).wf(),
            final(self).spec_bits() == spec_set(
                old(self).spec_bits(),
                ADDR_EVENT_OFFSET,
                8,
                val.spec_value() as u64,
            ),
            final(self).spec_data() == old(self).spec_data(),
            final(self).spec_timestamp() == old(self).spec_timestamp(),
    {
        let v = val.as_u8();
        self.addr_bitfield.set(ADDR_EVENT_OFFSET, 8, v as u64);
    }

    /// True if the event was sniffed, that is, not blocked.
    pub fn sniffed(&self) -> (r: bool)
        requires
            self.wf(),
        ensures
            r == (spec_get(self.spec_bits(), ADDR_SNIFFED_OFFSET, 1) == 1),
    {
        self.addr_bitfield.get(ADDR_SNIFFED_OFFSET, 1) == 1
    }

    /// Writes the sniffed flag.
    pub fn set_sniffed(&mut self, val: bool)
        requires
            old(self).wf(),
        ensures
            final(self).wf(),
            final(self).spec_bits() == spec_set(
                old(self).spec_bits(),
                ADDR_SNIFFED_OFFSET,
                1,
                if val {
                    1u64
                } else {
                    0u64
                },
            ),
            final(self).spec_data() == old(self).spec_data(),
            final(self).spec_timestamp() == old(self).spec_timestamp(),
    {
        self.addr_bitfield.set(ADDR_SNIFFED_OFFSET, 1, if val { 1 } else { 0 });
    }

    /// True for outbound packet events.
    pub fn outbound(&self) -> (r: bool)
        requires
            self.wf(),
        ensures
            r == (spec_get(self.spec_bits(), ADDR_OUTBOUND_OFFSET, 1) == 1),
    {
        self.addr_bitfield.get(ADDR_OUTBOUND_OFFSET, 1) == 1
    }

    /// Writes the outbound flag.
    pub fn set_outbound(&mut self, val: bool)
        requires
            old(self).wf(),
        ensures
            final(self).wf(),
            final(self).spec_bits() == spec_set(
                old(self).spec_bits(),
                ADDR_OUTBOUND_OFFSET,
                1,
                if val {
                    1u64
                } else {
                    0u64
                },
            ),
            final(self).spec_data() == old(self).spec_data(),
            final(self).spec_timestamp() == old(self).spec_timestamp(),
    {
        self.addr_bitfield.set(ADDR_OUTBOUND_OFFSET, 1, if val { 1 } else { 0 });
    }

    /// True for loopback packets.
    pub fn loopback(&self) -> (r: bool)
        requires
            self.wf(),
        ensures
            r == (spec_get(self.spec_bits(), ADDR_LOOPBACK_OFFSET, 1) == 1),
    {
        self.addr_bitfield.get(ADDR_LOOPBACK_OFFSET, 1) == 1
    }

    /// Writes the loopback flag.
    pub fn set_loopback(&mut self, val: bool)
        requires
            old(self).wf(),
        ensures
            final(self).wf(),
            final(self).spec_bits() == spec_set(
                old(self).spec_bits(),
                ADDR_LOOPBACK_OFFSET,
                1,
                if val {
                    1u64
                } else {
                    0u64
                },
            ),
            final(self).spec_data() == old(self).spec_data(),
            final(self).spec_timestamp() == old(self).spec_timestamp(),
    {
        self.addr_bitfield.set(ADDR_LOOPBACK_OFFSET, 1, if val { 1 } else { 0 });
    }

    /// True for impostor packets.
    pub fn impostor(&self) -> (r: bool)
        requires
            self.wf(),
        ensures
            r == (spec_get(self.spec_bits(), ADDR_IMPOSTOR_OFFSET, 1) == 1),
    {
        self.addr_bitfield.get(ADDR_IMPOSTOR_OFFSET, 1) == 1
    }

    /// Writes the impostor flag.
    pub fn set_impostor(&mut self, val: bool)
        requires
            old(self).wf(),
        ensures
            final(self).wf(),
            final(self).spec_bits() == spec_set(
                old(self).spec_bits(),
                ADDR_IMPOSTOR_OFFSET,
                1,
                if val {
                    1u64
                } else {
                    0u64
                },
            ),
            final(self).spec_data() == old(self).spec_data(),
            final(self).spec_timestamp() == old(self).spec_timestamp(),
    {
        self.addr_bitfield.set(ADDR_IMPOSTOR_OFFSET, 1, if val { 1 } else { 0 });
    }

    /// True for IPv6 packets.
    pub fn ipv6(&self) -> (r: bool)
        requires
            self.wf(),
        ensures
            r == (spec_get(self.spec_bits(), ADDR_IPV6_OFFSET, 1) == 1),
    {
        self.addr_bitfield.get(ADDR_IPV6_OFFSET, 1) == 1
    }

    /// Writes the IPv6 flag.
    pub fn set_ipv6(&mut self, val: bool)
        requires
            old(self).wf(),
        ensures
            final(self).wf(),
            final(self).spec_bits() == spec_set(
                old(self).spec_bits(),
                ADDR_IPV6_OFFSET,
                1,
                if val {
                    1u64
                } else {
                    0u64
                },
            ),
            final(self).spec_data() == old(self).spec_data(),
            final(self).spec_timestamp() == old(self).spec_timestamp(),
    {
        self.addr_bitfield.set(ADDR_IPV6_OFFSET, 1, if val { 1 } else { 0 });
    }

    /// True if the IPv4 checksum is valid.
    pub fn ipchecksum(&self) -> (r: bool)
        requires
            self.wf(),
        ensures
            r == (spec_get(self.spec_bits(), ADDR_IPCHECKSUM_OFFSET, 1) == 1),
    {
        self.addr_bitfield.get(ADDR_IPCHECKSUM_OFFSET, 1) == 1
    }

    /// Writes the IPv4-checksum-valid flag.
    pub fn set_ipchecksum(&mut self, val: bool)
        requires
            old(self).wf(),
        ensures
            final(self).wf(),
            final(self).spec_bits() == spec_set(
                old(self).spec_bits(),
                ADDR_IPCHECKSUM_OFFSET,
                1,
                if val {
                    1u64
                } else {
                    0u64
                },
            ),
            final(self).spec_data() == old(self).spec_data(),
            final(self).spec_timestamp() == old(self).spec_timestamp(),
    {
        self.addr_bitfield.set(ADDR_IPCHECKSUM_OFFSET, 1, if val { 1 } else { 0 });
    }

    /// True if the TCP checksum is valid.
    pub fn tcpchecksum(&self) -> (r: bool)
        requires
            self.wf(),
        ensures
            r == (spec_get(self.spec_bits(), ADDR_TCPCHECKSUM_OFFSET, 1) == 1),
    {
        self.addr_bitfield.get(ADDR_TCPCHECKSUM_OFFSET, 1) == 1
    }

    /// Writes the TCP-checksum-valid flag.
    pub fn set_tcpchecksum(&mut self, val: bool)
        requires
            old(self).wf(),
        ensures
            final(self).wf(),
            final(self).spec_bits() == spec_set(
                old(self).spec_bits(),
                ADDR_TCPCHECKSUM_OFFSET,
                1,
                if val {
                    1u64
                } else {
                    0u64
                },
            ),
            final(self).spec_data() == old(self).spec_data(),
            final(self).spec_timestamp() == old(self).spec_timestamp(),
    {
        self.addr_bitfield.set(ADDR_TCPCHECKSUM_OFFSET, 1, if val { 1 } else { 0 });
    }

    /// True if the UDP checksum is valid.
    pub fn udpchecksum(&self) -> (r: bool)
        requires
            self.wf(),
        ensures
            r == (spec_get(self.spec_bits(), ADDR_UDPCHECKSUM_OFFSET, 1) == 1),
    {
        self.addr_bitfield.get(ADDR_UDPCHECKSUM_OFFSET, 1) == 1
    }

    /// Writes the UDP-checksum-valid flag.
    pub fn set_udpchecksum(&mut self, val: bool)
        requires
            old(self).wf(),
        ensures
            final(self).wf(),
            final(self).spec_bits() == spec_set(
                old(self).spec_bits(),
                ADDR_UDPCHECKSUM_OFFSET,
                1,
                if val {
                    1u64
                } else {
                    0u64
                },
            ),
            final(self).spec_data() == old(self).spec_data(),
            final(self).spec_timestamp() == old(self).spec_timestamp(),
    {
        self.addr_bitfield.set(ADDR_UDPCHECKSUM_OFFSET, 1, if val { 1 } else { 0 });
    }

    /// An equal copy of the record, as a send call lays records out in
    /// its contiguous array.
    pub fn duplicate(&self) -> (r: WINDIVERT_ADDRESS)
        requires
            self.wf(),
        ensures
            r.wf(),
            spec_addr_eq(r, *self),
    {
        let union_field = crate::utils::sub_vec(&self.union_field, 0, 64);
        proof {
            assert(union_field@ =~= self.union_field@);
        }
        WINDIVERT_ADDRESS {
            timestamp: self.timestamp,
            addr_bitfield: self.addr_bitfield,
            reserved: self.reserved,
            union_field,
        }
    }

    /// The packed field block as its four little-endian wire bytes.
    pub fn bitfield_bytes(&self) -> (r: Vec<u8>)
        requires
            self.wf(),
        ensures
            r.len() == 4,
            forall|k: int|
                0 <= k < 4 ==> r[k] == crate::bitfield::spec_byte(self.spec_bits(), k),
    {
        self.addr_bitfield.to_bytes()
    }

    /// Replaces the packed field block from its four wire bytes.
    pub fn set_bitfield_bytes(&mut self, bytes: &Vec<u8>)
        requires
            old(self).wf(),
            bytes.len() == 4,
        ensures
            final(self).wf(),
            forall|k: int|
                0 <= k < 4 ==> crate::bitfield::spec_byte(final(self).spec_bits(), k) == bytes[k],
            final(self).spec_data() == old(self).spec_data(),
            final(self).spec_timestamp() == old(self).spec_timestamp(),
    {
        self.addr_bitfield = BitfieldUnit::from_bytes(bytes);
    }

    /// A copy of the 64-byte per-layer data block.
    pub fn data_bytes(&self) -> (r: Vec<u8>)
        requires
            self.wf(),
        ensures
            r@ == self.spec_data(),
    {
        let r = crate::utils::sub_vec(&self.union_field, 0, 64);
        proof {
            assert(r@ =~= self.union_field@);
        }
        r
    }

    /// Replaces the 64-byte per-layer data block.
    pub fn set_data_bytes(&mut self, bytes: &Vec<u8>)
        requires
            old(self).wf(),
            bytes.len() == 64,
        ensures
            final(self).wf(),
            final(self).spec_data() == bytes@,
            final(self).spec_bits() == old(self).spec_bits(),
            final(self).spec_timestamp() == old(self).spec_timestamp(),
    {
        let copy = crate::utils::sub_vec(bytes, 0, 64);
        proof {
            assert(copy@ =~= bytes@);
        }
        self.union_field = copy;
    }

    /// Writes the 32-bit value `v` at byte offset `i` of the data block.
    pub fn put_data_le32(&mut self, i: usize, v: u32)
        requires
            old(self).wf(),
            i + 4 <= 64,
        ensures
            final(self).wf(),
            final(self).spec_data() == spec_le32_put(old(self).spec_data(), i as int, v),
            final(self).spec_bits() == old(self).spec_bits(),
            final(self).spec_timestamp() == old(self).spec_timestamp(),
    {
        le32_put(&mut self.union_field, i, v);
    }

    /// Reads the 32-bit value at byte offset `i` of the data block.
    pub fn get_data_le32(&self, i: usize) -> (r: u32)
        requires
            self.wf(),
            i + 4 <= 64,
        ensures
            r == spec_le32(self.spec_data(), i as int),
    {
        le32_get(&self.union_field, i)
    }

    /// Reads the 64-bit value at byte offset `i` of the data block.
    pub fn get_data_le64(&self, i: usize) -> (r: u64)
        requires
            self.wf(),
            i + 8 <= 64,
        ensures
            r == spec_le64(self.spec_data(), i as int),
    {
        le64_get(&self.union_field, i)
    }

    /// Reads the 16-bit value at byte offset `i` of the data block.
    pub fn get_data_le16(&self, i: usize) -> (r: u16)
        requires
            self.wf(),
            i + 2 <= 64,
        ensures
            r == spec_le16(self.spec_data(), i as int),
    {
        le16_get(&self.union_field, i)
    }

    /// Reads the byte at offset `i` of the data block.
    pub fn get_data_byte(&self, i: usize) -> (r: u8)
        requires
            self.wf(),
            i < 64,
        ensures
            r == self.spec_data()[i as int],
    {
        self.union_field[i]
    }
}

impl Default for WINDIVERT_ADDRESS {
    /// The default record is zeroed, as the driver hands fresh records out.
    fn default() -> (r: Self)
        ensures
            r.wf(),
            r.spec_timestamp() == 0,
            r.spec_bits() == 0,
            r.spec_data().len() == 64,
            forall|k: int| 0 <= k < 64 ==> r.spec_data()[k] == 0u8,
    {
        WINDIVERT_ADDRESS::new()
    }
}

/// Typed wrapper around [`WINDIVERT_ADDRESS`]: the layer marker gates
/// which data-block accessors exist.
#[derive(Debug)]
pub struct WinDivertAddress<L: WinDivertLayerTrait> {
    data: WINDIVERT_ADDRESS,
    _layer: core::marker::PhantomData<L>,
}

impl<L: WinDivertLayerTrait> WinDivertAddress<L> {
    /// The raw record under this view.
    pub closed spec fn view(&self) -> WINDIVERT_ADDRESS {
        self.data
    }

    /// The underlying record has its wire sizes.
    pub open spec fn wf(&self) -> bool {
        self@.wf()
    }

    /// Wraps a record handed out by a successful driver call.
    pub(crate) fn from_raw(data: WINDIVERT_ADDRESS) -> (r: Self)
        ensures
            r@ == data,
    {
        WinDivertAddress { data, _layer: core::marker::PhantomData }
    }

    /// Timestamp of the event, in the OS high-resolution counter's clock
    /// domain.
    pub fn event_timestamp(&self) -> (r: i64)
        ensures
            r == self@.spec_timestamp(),
    {
        self.data.timestamp
    }

    /// Type of the captured event.
    pub fn event(&self) -> (r: WinDivertEvent)
        requires
            self.wf(),
            spec_get(self@.spec_bits(), ADDR_EVENT_OFFSET, 8) <= 9,
        ensures
            r.spec_value() == spec_get(self@.spec_bits(), ADDR_EVENT_OFFSET, 8),
    {
        self.data.event()
    }

    /// The handle's layer.
    pub fn event_layer(&self) -> (r: WinDivertLayer)
        requires
            self.wf(),
            spec_get(self@.spec_bits(), ADDR_LAYER_OFFSET, 8) <= 4,
        ensures
            r.spec_value() == spec_get(self@.spec_bits(), ADDR_LAYER_OFFSET, 8),
    {
        self.data.layer()
    }

    /// True if the event was sniffed, that is, not blocked.
    pub fn sniffed(&self) -> (r: bool)
        requires
            self.wf(),
        ensures
            r == (spec_get(self@.spec_bits(), ADDR_SNIFFED_OFFSET, 1) == 1),
    {
        self.data.sniffed()
    }

    /// True for outbound packet events.
    pub fn outbound(&self) -> (r: bool)
        requires
            self.wf(),
        ensures
            r == (spec_get(self@.spec_bits(), ADDR_OUTBOUND_OFFSET, 1) == 1),
    {
        self.data.outbound()
    }

    /// Writes the outbound flag.
    pub fn set_outbound(&mut self, value: bool)
        requires
            old(self).wf(),
        ensures
            final(self).wf(),
            final(self)@.spec_bits() == spec_set(
                old(self)@.spec_bits(),
                ADDR_OUTBOUND_OFFSET,
                1,
                if value {
                    1u64
                } else {
                    0u64
                },
            ),
            final(self)@.spec_data() == old(self)@.spec_data(),
            final(self)@.spec_timestamp() == old(self)@.spec_timestamp(),
    {
        self.data.set_outbound(value)
    }

    /// True for loopback packets.
    pub fn loopback(&self) -> (r: bool)
        requires
            self.wf(),
        ensures
            r == (spec_get(self@.spec_bits(), ADDR_LOOPBACK_OFFSET, 1) == 1),
    {
        self.data.loopback()
    }

    /// True for impostor packets.
    pub fn impostor(&self) -> (r: bool)
        requires
            self.wf(),
        ensures
            r == (spec_get(self@.spec_bits(), ADDR_IMPOSTOR_OFFSET, 1) == 1),
    {
        self.data.impostor()
    }

    /// Writes the impostor flag.
    pub fn set_impostor(&mut self, value: bool)
        requires
            old(self).wf(),
        ensures
            final(self).wf(),
            final(self)@.spec_bits() == spec_set(
                old(self)@.spec_bits(),
                ADDR_IMPOSTOR_OFFSET,
                1,
                if value {
                    1u64
                } else {
                    0u64
                },
            ),
            final(self)@.spec_data() == old(self)@.spec_data(),
            final(self)@.spec_timestamp() == old(self)@.spec_timestamp(),
    {
        self.data.set_impostor(value)
    }

    /// True for IPv6 packets or events.
    pub fn ipv6(&self) -> (r: bool)
        requires
            self.wf(),
        ensures
            r == (spec_get(self@.spec_bits(), ADDR_IPV6_OFFSET, 1) == 1),
    {
        self.data.ipv6()
    }

    /// True if the IPv4 checksum is valid.
    pub fn ip_checksum(&self) -> (r: bool)
        requires
            self.wf(),
        ensures
            r == (spec_get(self@.spec_bits(), ADDR_IPCHECKSUM_OFFSET, 1) == 1),
    {
        self.data.ipchecksum()
    }

    /// Writes the IPv4-checksum-valid flag.
    pub fn set_ip_checksum(&mut self, value: bool)
        requires
            old(self).wf(),
        ensures
            final(self).wf(),
            final(self)@.spec_bits() == spec_set(
                old(self)@.spec_bits(),
                ADDR_IPCHECKSUM_OFFSET,
                1,
                if value {
                    1u64
                } else {
                    0u64
                },
            ),
            final(self)@.spec_data() == old(self)@.spec_data(),
            final(self)@.spec_timestamp() == old(self)@.spec_timestamp(),
    {
        self.data.set_ipchecksum(value)
    }

    /// True if the TCP checksum is valid.
    pub fn tcp_checksum(&self) -> (r: bool)
        requires
            self.wf(),
        ensures
            r == (spec_get(self@.spec_bits(), ADDR_TCPCHECKSUM_OFFSET, 1) == 1),
    {
        self.data.tcpchecksum()
    }

    /// Writes the TCP-checksum-valid flag.
    pub fn set_tcp_checksum(&mut self, value: bool)
        requires
            old(self).wf(),
        ensures
            final(self).wf(),
            final(self)@.spec_bits() == spec_set(
                old(self)@.spec_bits(),
                ADDR_TCPCHECKSUM_OFFSET,
                1,
                if value {
                    1u64
                } else {
                    0u64
                },
            ),
            final(self)@.spec_data() == old(self)@.spec_data(),
            final(self)@.spec_timestamp() == old(self)@.spec_timestamp(),
    {
        self.data.set_tcpchecksum(value)
    }

    /// True if the UDP checksum is valid.
    pub fn udp_checksum(&self) -> (r: bool)
        requires
            self.wf(),
        ensures
            r == (spec_get(self@.spec_bits(), ADDR_UDPCHECKSUM_OFFSET, 1) == 1),
    {
        self.data.udpchecksum()
    }

    /// Writes the UDP-checksum-valid flag.
    pub fn set_udp_checksum(&mut self, value: bool)
        requires
            old(self).wf(),
        ensures
            final(self).wf(),
            final(self)@.spec_bits() == spec_set(
                old(self)@.spec_bits(),
                ADDR_UDPCHECKSUM_OFFSET,
                1,
                if value {
                    1u64
                } else {
                    0u64
                },
            ),
            final(self)@.spec_data() == old(self)@.spec_data(),
            final(self)@.spec_timestamp() == old(self)@.spec_timestamp(),
    {
        self.data.set_udpchecksum(value)
    }

    /// The raw record, for the driver boundary.
    pub fn as_raw(&self) -> (r: &WINDIVERT_ADDRESS)
        ensures
            r == self@,
    {
        &self.data
    }
}

impl WinDivertAddress<NetworkLayer> {
    /// A fresh zeroed address for building outbound packets.  The caller
    /// must fill the required fields, the interface indices above all,
    /// before sending.
    pub fn new() -> (r: Self)
        ensures
            r.wf(),
            r@.spec_bits() == 0,
            r@.spec_timestamp() == 0,
            forall|k: int| 0 <= k < 64 ==> r@.spec_data()[k] == 0u8,
    {
        WinDivertAddress { data: WINDIVERT_ADDRESS::new(), _layer: core::marker::PhantomData }
    }

    /// The interface index the packet arrived on or will be sent on.
    pub fn interface_index(&self) -> (r: u32)
        requires
            self.wf(),
        ensures
            r == spec_le32(self@.spec_data(), 0),
    {
        self.data.get_data_le32(0)
    }

    /// Writes the interface index.
    pub fn set_interface_index(&mut self, value: u32)
        requires
            old(self).wf(),
        ensures
            final(self).wf(),
            final(self)@.spec_data() == spec_le32_put(old(self)@.spec_data(), 0, value),
            final(self)@.spec_bits() == old(self)@.spec_bits(),
    {
        self.data.put_data_le32(0, value)
    }

    /// The sub-interface index for the interface index.
    pub fn subinterface_index(&self) -> (r: u32)
        requires
            self.wf(),
        ensures
            r == spec_le32(self@.spec_data(), 4),
    {
        self.data.get_data_le32(4)
    }

    /// Writes the sub-interface index.
    pub fn set_subinterface_index(&mut self, value: u32)
        requires
            old(self).wf(),
        ensures
            final(self).wf(),
            final(self)@.spec_data() == spec_le32_put(old(self)@.spec_data(), 4, value),
            final(self)@.spec_bits() == old(self)@.spec_bits(),
    {
        self.data.put_data_le32(4, value)
    }
}

impl WinDivertAddress<ForwardLayer> {
    /// A fresh zeroed address for building outbound packets.  The caller
    /// must fill the required fields before sending.
    pub fn new() -> (r: Self)
        ensures
            r.wf(),
            r@.spec_bits() == 0,
            r@.spec_timestamp() == 0,
            forall|k: int| 0 <= k < 64 ==> r@.spec_data()[k] == 0u8,
    {
        WinDivertAddress { data: WINDIVERT_ADDRESS::new(), _layer: core::marker::PhantomData }
    }

    /// The interface index the packet arrived on or will be sent on.
    pub fn interface_index(&self) -> (r: u32)
        requires
            self.wf(),
        ensures
            r == spec_le32(self@.spec_data(), 0),
    {
        self.data.get_data_le32(0)
    }

    /// Writes the interface index.
    pub fn set_interface_index(&mut self, value: u32)
        requires
            old(self).wf(),
        ensures
            final(self).wf(),
            final(self)@.spec_data() == spec_le32_put(old(self)@.spec_data(), 0, value),
            final(self)@.spec_bits() == old(self)@.spec_bits(),
    {
        self.data.put_data_le32(0, value)
    }

    /// The sub-interface index for the interface index.
    pub fn subinterface_index(&self) -> (r: u32)
        requires
            self.wf(),
        ensures
            r == spec_le32(self@.spec_data(), 4),
    {
        self.data.get_data_le32(4)
    }

    /// Writes the sub-interface index.
    pub fn set_subinterface_index(&mut self, value: u32)
        requires
            old(self).wf(),
        ensures
            final(self).wf(),
            final(self)@.spec_data() == spec_le32_put(old(self)@.spec_data(), 4, value),
            final(self)@.spec_bits() == old(self)@.spec_bits(),
    {
        self.data.put_data_le32(4, value)
    }
}

impl WinDivertAddress<FlowLayer> {
    /// The endpoint ID of the flow.
    pub fn endpoint_id(&self) -> (r: u64)
        requires
            self.wf(),
        ensures
            r == spec_le64(self@.spec_data(), 0),
    {
        self.data.get_data_le64(0)
    }

    /// The parent endpoint ID of the flow.
    pub fn parent_endpoint_id(&self) -> (r: u64)
        requires
            self.wf(),
        ensures
            r == spec_le64(self@.spec_data(), 8),
    {
        self.data.get_data_le64(8)
    }

    /// The ID of the process associated with the flow.
    pub fn process_id(&self) -> (r: u32)
        requires
            self.wf(),
        ensures
            r == spec_le32(self@.spec_data(), 16),
    {
        self.data.get_data_le32(16)
    }


    /// The local address associated with the flow, as its sixteen bytes
    /// in the driver's order (IPv4 addresses arrive in mapped form).
    pub fn local_address_bytes(&self) -> (r: Vec<u8>)
        requires
            self.wf(),
        ensures
            r@ == self@.spec_data().subrange(20, 36),
    {
        let raw = self.data.data_bytes();
        crate::utils::sub_vec(&raw, 20, 36)
    }

    /// The remote address associated with the flow, in the same form as
    /// the local one.
    pub fn remote_address_bytes(&self) -> (r: Vec<u8>)
        requires
            self.wf(),
        ensures
            r@ == self@.spec_data().subrange(36, 52),
    {
        let raw = self.data.data_bytes();
        crate::utils::sub_vec(&raw, 36, 52)
    }

    /// The local port associated with the flow.
    pub fn local_port(&self) -> (r: u16)
        requires
            self.wf(),
        ensures
            r == spec_le16(self@.spec_data(), 52),
    {
        self.data.get_data_le16(52)
    }

    /// The remote port associated with the flow.
    pub fn remote_port(&self) -> (r: u16)
        requires
            self.wf(),
        ensures
            r == spec_le16(self@.spec_data(), 54),
    {
        self.data.get_data_le16(54)
    }

    /// The protocol associated with the flow.
    pub fn protocol(&self) -> (r: u8)
        requires
            self.wf(),
        ensures
            r == self@.spec_data()[56],
    {
        self.data.get_data_byte(56)
    }
}

impl WinDivertAddress<SocketLayer> {
    /// The endpoint ID of the socket.
    pub fn endpoint_id(&self) -> (r: u64)
        requires
            self.wf(),
        ensures
            r == spec_le64(self@.spec_data(), 0),
    {
        self.data.get_data_le64(0)
    }

    /// The parent endpoint ID of the socket.
    pub fn parent_endpoint_id(&self) -> (r: u64)
        requires
            self.wf(),
        ensures
            r == spec_le64(self@.spec_data(), 8),
    {
        self.data.get_data_le64(8)
    }

    /// The ID of the process associated with the socket.
    pub fn process_id(&self) -> (r: u32)
        requires
            self.wf(),
        ensures
            r == spec_le32(self@.spec_data(), 16),
    {
        self.data.get_data_le32(16)
    }


    /// The local address associated with the socket, as its sixteen bytes
    /// in the driver's order (IPv4 addresses arrive in mapped form).
    pub fn local_address_bytes(&self) -> (r: Vec<u8>)
        requires
            self.wf(),
        ensures
            r@ == self@.spec_data().subrange(20, 36),
    {
        let raw = self.data.data_bytes();
        crate::utils::sub_vec(&raw, 20, 36)
    }

    /// The remote address associated with the socket, in the same form as
    /// the local one.
    pub fn remote_address_bytes(&self) -> (r: Vec<u8>)
        requires
            self.wf(),
        ensures
            r@ == self@.spec_data().subrange(36, 52),
    {
        let raw = self.data.data_bytes();
        crate::utils::sub_vec(&raw, 36, 52)
    }

    /// The local port associated with the socket.
    pub fn local_port(&self) -> (r: u16)
        requires
            self.wf(),
        ensures
            r == spec_le16(self@.spec_data(), 52),
    {
        self.data.get_data_le16(52)
    }

    /// The remote port associated with the socket.
    pub fn remote_port(&self) -> (r: u16)
        requires
            self.wf(),
        ensures
            r == spec_le16(self@.spec_data(), 54),
    {
        self.data.get_data_le16(54)
    }

    /// The protocol associated with the socket.
    pub fn protocol(&self) -> (r: u8)
        requires
            self.wf(),
        ensures
            r == self@.spec_data()[56],
    {
        self.data.get_data_byte(56)
    }
}

impl WinDivertAddress<ReflectLayer> {
    /// A timestamp indicating when the reported handle was opened.
    pub fn timestamp(&self) -> (r: i64)
        requires
            self.wf(),
        ensures
            r as u64 == spec_le64(self@.spec_data(), 0),
    {
        let v = self.data.get_data_le64(0);
        proof {
            lemma_u64_i64_round(v);
        }
        #[verifier::truncate] (v as i64)
    }

    /// The ID of the process that opened the reported handle.
    pub fn process_id(&self) -> (r: u32)
        requires
            self.wf(),
        ensures
            r == spec_le32(self@.spec_data(), 8),
    {
        self.data.get_data_le32(8)
    }

    /// The layer of the reported handle.
    pub fn layer(&self) -> (r: WinDivertLayer)
        requires
            self.wf(),
            spec_le32(self@.spec_data(), 12) <= 4,
        ensures
            r.spec_value() == spec_le32(self@.spec_data(), 12),
    {
        let value = self.data.get_data_le32(12);
        match WinDivertLayer::try_from(value) {
            Ok(layer) => layer,
            Err(_) => WinDivertLayer::Network,
        }
    }

    /// The flag word of the reported handle.
    pub fn flags(&self) -> (r: u64)
        requires
            self.wf(),
        ensures
            r == spec_le64(self@.spec_data(), 16),
    {
        self.data.get_data_le64(16)
    }

    /// The priority of the reported handle.
    pub fn priority(&self) -> (r: i16)
        requires
            self.wf(),
        ensures
            r as u16 == spec_le16(self@.spec_data(), 24),
    {
        let v = self.data.get_data_le16(24);
        proof {
            lemma_u16_i16_round(v);
        }
        #[verifier::truncate] (v as i16)
    }
}

/// Reinterpreting a 64-bit word as signed keeps its bit pattern.
proof fn lemma_u64_i64_round(v: u64)
    by (bit_vector)
    ensures
        (#[verifier::truncate] (v as i64)) as u64 == v,
{
}

/// Reinterpreting a 16-bit word as signed keeps its bit pattern.
proof fn lemma_u16_i16_round(v: u16)
    by (bit_vector)
    ensures
        (#[verifier::truncate] (v as i16)) as u16 == v,
{
}

} // verus!
