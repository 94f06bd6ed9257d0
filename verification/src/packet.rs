//! Packet value types: an address paired with its payload.
//!
//! For the network and forward layers the payload is the raw IP datagram;
//! for the reflect layer it is the handle's filter string; for the flow
//! and socket layers it is empty.  A partial packet holds the truncated
//! bytes a too-small buffer could take, and cannot be sent without an
//! explicit, caller-attested promotion.

use vstd::prelude::*;

use crate::address::WinDivertAddress;
use crate::layer::{ForwardLayer, NetworkLayer, WinDivertLayerTrait};

verus! {

/// Raw captured packet.
#[derive(Debug)]
pub struct WinDivertPacket<L: WinDivertLayerTrait> {
    /// Address data.
    pub address: WinDivertAddress<L>,
    /// Raw captured data.
    pub data: Vec<u8>,
}

/// Raw partial captured packet: whatever truncated bytes a too-small
/// buffer could take, with the still-valid address.
#[derive(Debug)]
pub struct WinDivertPartialPacket<L: WinDivertLayerTrait> {
    /// Address data.
    pub address: WinDivertAddress<L>,
    /// Raw captured data, truncated at the buffer's end.
    pub data: Vec<u8>,
}

/// Either a full or a partial packet.
#[derive(Debug)]
pub enum PacketEither<L: WinDivertLayerTrait> {
    /// Full packet.
    Full(WinDivertPacket<L>),
    /// Partial packet.
    Partial(WinDivertPartialPacket<L>),
}

impl WinDivertPacket<NetworkLayer> {
    /// A new network packet over a raw buffer.  The address is zeroed:
    /// the caller must fill the required fields before sending.
    pub fn new(data: Vec<u8>) -> (r: Self)
        ensures
            r.data@ == data@,
            r.address.wf(),
            r.address@.spec_bits() == 0,
    {
        WinDivertPacket { address: WinDivertAddress::<NetworkLayer>::new(), data }
    }
}

impl WinDivertPacket<ForwardLayer> {
    /// A new forward packet over a raw buffer.  The address is zeroed:
    /// the caller must fill the required fields before sending.
    pub fn new(data: Vec<u8>) -> (r: Self)
        ensures
            r.data@ == data@,
            r.address.wf(),
            r.address@.spec_bits() == 0,
    {
        WinDivertPacket { address: WinDivertAddress::<ForwardLayer>::new(), data }
    }
}

impl<L: WinDivertLayerTrait> WinDivertPacket<L> {
    /// A packet owning its payload.  Payloads here are always owned, so
    /// this returns the packet unchanged.
    pub fn into_owned(self) -> (r: WinDivertPacket<L>)
        ensures
            r == self,
    {
        self
    }
}

impl<L: WinDivertLayerTrait> PacketEither<L> {
    /// This packet viewed as a partial packet; a full packet's payload is
    /// carried over whole.
    pub fn to_partial(self) -> (r: WinDivertPartialPacket<L>)
        ensures
            match self {
                PacketEither::Full(p) => r.address == p.address && r.data == p.data,
                PacketEither::Partial(p) => r == p,
            },
    {
        match self {
            PacketEither::Full(packet) => WinDivertPartialPacket {
                address: packet.address,
                data: packet.data,
            },
            PacketEither::Partial(packet) => packet,
        }
    }

    /// This packet viewed as a full packet.  A partial packet's payload
    /// is truncated, so the result must not be sent unless the caller can
    /// attest that the packet was in fact complete.
    pub fn to_full(self) -> (r: WinDivertPacket<L>)
        ensures
            match self {
                PacketEither::Full(p) => r == p,
                PacketEither::Partial(p) => r.address == p.address && r.data == p.data,
            },
    {
        match self {
            PacketEither::Full(packet) => packet,
            PacketEither::Partial(packet) => WinDivertPacket {
                address: packet.address,
                data: packet.data,
            },
        }
    }
}

} // verus!
