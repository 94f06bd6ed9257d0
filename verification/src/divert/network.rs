//! Network-layer handle: packets to and from the local machine, with the
//! full receive and send surface.

use vstd::prelude::*;
use vstd::string::StringSliceAdditionalSpecFns;

use super::{
    slice_ip_packets, spec_open_result, spec_partial_recv_result, spec_recv_ex_ip_result,
    spec_recv_result, spec_recv_take, spec_recv_wait_ex_ip_result, spec_recv_wait_result,
    spec_send_ex_result, spec_send_result, WinDivert,
};
use crate::address::WinDivertAddress;
use crate::driver::SimulatedDriver;
use crate::error::WinDivertError;
use crate::layer::NetworkLayer;
use crate::newtypes::{WinDivertFlags, WinDivertLayer, WINDIVERT_BATCH_MAX};
use crate::packet::{PacketEither, WinDivertPacket};
use crate::utils::{spec_nul_pos, sub_vec};

verus! {

impl WinDivert<NetworkLayer> {
    /// Opens a network-layer handle with the given filter, priority and
    /// flags against the given driver.
    pub fn network(
        driver: SimulatedDriver,
        filter: &str,
        priority: i16,
        flags: WinDivertFlags,
    ) -> (r: Result<Self, WinDivertError>)
        requires
            driver.wf(),
            spec_nul_pos(filter.spec_bytes(), 0, filter.spec_bytes().len() as int) is None
                ==> driver.open_replies.len() >= 1,
        ensures
            spec_open_result(
                driver,
                filter.spec_bytes(),
                WinDivertLayer::Network.spec_value(),
                priority,
                flags@,
                r,
            ),
    {
        Self::new(driver, filter, WinDivertLayer::Network, priority, flags)
    }

    /// Single packet blocking recv function.
    pub fn recv(&mut self, buffer: &mut Vec<u8>) -> (r: Result<
        WinDivertPacket<NetworkLayer>,
        WinDivertError,
    >)
        requires
            old(self).wf(),
            old(self).driver.recv_replies.len() >= 1,
            old(self).driver.recv_calls < u64::MAX,
        ensures
            spec_recv_result(*old(self), *final(self), old(buffer)@, final(buffer)@, r),
    {
        self.internal_recv_buf(buffer)
    }

    /// Single packet blocking recv that never fails for want of buffer
    /// space: that condition yields a partial packet instead.
    pub fn partial_recv(&mut self, buffer: &mut Vec<u8>) -> (r: Result<
        PacketEither<NetworkLayer>,
        WinDivertError,
    >)
        requires
            old(self).wf(),
            old(self).driver.recv_replies.len() >= 1,
            old(self).driver.recv_calls < u64::MAX,
        ensures
            spec_partial_recv_result(*old(self), *final(self), old(buffer)@, final(buffer)@, r),
    {
        self.internal_partial_recv_buf(buffer)
    }

    /// Batched blocking recv function: up to `packet_count` packets into
    /// one contiguous buffer, sliced by each packet's own header-declared
    /// length.
    pub fn recv_ex(&mut self, buffer: &mut Vec<u8>, packet_count: u8) -> (r: Result<
        Vec<WinDivertPacket<NetworkLayer>>,
        WinDivertError,
    >)
        requires
            old(self).wf(),
            old(self).driver.recv_replies.len() >= 1,
            old(self).driver.recv_calls < u64::MAX,
        ensures
            spec_recv_ex_ip_result(
                *old(self),
                *final(self),
                old(buffer)@,
                final(buffer)@,
                packet_count,
                r,
            ),
    {
        match self.internal_recv_ex_buf(buffer, packet_count) {
            Err(e) => Err(e),
            Ok((take, addrs)) => {
                proof {
                    let reply = old(self).driver.recv_replies[0];
                    assert(reply.wf());
                    assert forall|k: int| 0 <= k < addrs.len() implies (
                    #[trigger] addrs@[k]).wf() by {
                        assert(addrs@[k] == reply.addrs@[k]);
                    }
                }
                slice_ip_packets(buffer, take, addrs)
            },
        }
    }

    /// Single packet send function.
    pub fn send(&mut self, packet: &WinDivertPacket<NetworkLayer>) -> (r: Result<
        u32,
        WinDivertError,
    >)
        requires
            old(self).wf(),
            old(self).driver.send_replies.len() >= 1,
            old(self).driver.send_calls < u64::MAX,
            packet.address.wf(),
        ensures
            spec_send_result(*old(self), *final(self), *packet, r),
    {
        self.internal_send(packet)
    }

    /// Batched packet send function.  The driver takes at most its batch
    /// maximum of packets in one call; more fail locally before any
    /// driver call.
    pub fn send_ex(&mut self, packets: &Vec<WinDivertPacket<NetworkLayer>>) -> (r: Result<
        u32,
        WinDivertError,
    >)
        requires
            old(self).wf(),
            packets.len() <= WINDIVERT_BATCH_MAX ==> old(self).driver.send_replies.len() >= 1,
            old(self).driver.send_calls < u64::MAX,
            forall|k: int| 0 <= k < packets.len() ==> (#[trigger] packets[k].address).wf(),
        ensures
            spec_send_ex_result(*old(self), *final(self), packets@, r),
    {
        self.internal_send_ex(packets)
    }

    /// Single packet blocking recv function bounded by a timeout, through
    /// the thread's cached wait event; a timeout cancels the pending
    /// operation before surfacing.
    pub fn recv_wait(&mut self, buffer: &mut Vec<u8>, timeout_ms: u32) -> (r: Result<
        WinDivertPacket<NetworkLayer>,
        WinDivertError,
    >)
        requires
            old(self).wf(),
            old(self).driver.recv_wait_replies.len() >= 1,
            old(self).driver.recv_calls < u64::MAX,
            old(self).driver.cancellations < u64::MAX,
        ensures
            spec_recv_wait_result(*old(self), *final(self), old(buffer)@, final(buffer)@, r),
    {
        match self.internal_recv_wait_ex_buf(buffer, 1, timeout_ms) {
            Err(e) => Err(e),
            Ok((take, addrs)) => {
                proof {
                    let reply = old(self).driver.recv_wait_replies[0].reply;
                    assert(old(self).driver.recv_wait_replies[0].wf());
                    assert(reply.addrs.len() >= 1);
                }
                let mut addrs = addrs;
                let addr = addrs.remove(0);
                let addr = addr.duplicate();
                let data = sub_vec(buffer, 0, take);
                proof {
                    let reply = old(self).driver.recv_wait_replies[0].reply;
                    assert(data@ =~= reply.data@.take(
                        spec_recv_take(reply, old(buffer).len() as int),
                    ));
                }
                Ok(WinDivertPacket { address: WinDivertAddress::from_raw(addr), data })
            },
        }
    }

    /// Batched blocking recv function bounded by a timeout.  A timeout of
    /// zero degenerates to the plain batched recv.
    pub fn recv_wait_ex(&mut self, buffer: &mut Vec<u8>, packet_count: u8, timeout_ms: u32) -> (r:
        Result<Vec<WinDivertPacket<NetworkLayer>>, WinDivertError>)
        requires
            old(self).wf(),
            old(self).driver.recv_calls < u64::MAX,
            timeout_ms == 0 ==> old(self).driver.recv_replies.len() >= 1,
            timeout_ms != 0 ==> old(self).driver.recv_wait_replies.len() >= 1
                && old(self).driver.cancellations < u64::MAX,
        ensures
            timeout_ms == 0 ==> spec_recv_ex_ip_result(
                *old(self),
                *final(self),
                old(buffer)@,
                final(buffer)@,
                packet_count,
                r,
            ),
            timeout_ms != 0 ==> spec_recv_wait_ex_ip_result(
                *old(self),
                *final(self),
                old(buffer)@,
                final(buffer)@,
                packet_count,
                r,
            ),
    {
        let res = if timeout_ms == 0 {
            self.internal_recv_ex_buf(buffer, packet_count)
        } else {
            self.internal_recv_wait_ex_buf(buffer, packet_count, timeout_ms)
        };
        match res {
            Err(e) => Err(e),
            Ok((take, addrs)) => {
                proof {
                    if timeout_ms == 0 {
                        let reply = old(self).driver.recv_replies[0];
                        assert(reply.wf());
                        assert forall|k: int| 0 <= k < addrs.len() implies (
                        #[trigger] addrs@[k]).wf() by {
                            assert(addrs@[k] == reply.addrs@[k]);
                        }
                    } else {
                        let reply = old(self).driver.recv_wait_replies[0].reply;
                        assert(old(self).driver.recv_wait_replies[0].wf());
                        assert forall|k: int| 0 <= k < addrs.len() implies (
                        #[trigger] addrs@[k]).wf() by {
                            assert(addrs@[k] == reply.addrs@[k]);
                        }
                    }
                }
                slice_ip_packets(buffer, take, addrs)
            },
        }
    }
}

} // verus!
