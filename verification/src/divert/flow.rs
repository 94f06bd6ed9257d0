//! Flow-layer handle: receive-only flow established/deleted events with
//! no payload buffer.  The constructor forces the sniff and receive-only
//! flags.

use vstd::prelude::*;
use vstd::string::StringSliceAdditionalSpecFns;

use super::{
    addrs_to_packets, spec_open_result, spec_recv_ex_nodata_result, spec_recv_nodata_result,
    spec_recv_wait_ex_nodata_result, spec_recv_wait_nodata_result, WinDivert,
};
use crate::address::WinDivertAddress;
use crate::driver::SimulatedDriver;
use crate::error::WinDivertError;
use crate::layer::FlowLayer;
use crate::newtypes::{
    WinDivertFlags, WinDivertLayer, WINDIVERT_FLAG_RECV_ONLY, WINDIVERT_FLAG_SNIFF,
};
use crate::packet::WinDivertPacket;
use crate::utils::spec_nul_pos;

verus! {

impl WinDivert<FlowLayer> {
    /// Opens a flow-layer handle; the sniff and receive-only flags are
    /// forced on top of the given ones.
    pub fn flow(
        driver: SimulatedDriver,
        filter: &str,
        priority: i16,
        flags: WinDivertFlags,
    ) -> (r: Result<Self, WinDivertError>)
        requires
            driver.wf(),
            spec_nul_pos(filter.spec_bytes(), 0, filter.spec_bytes().len() as int) is None
                ==> driver.open_replies.len() >= 1,
        ensures
            spec_open_result(
                driver,
                filter.spec_bytes(),
                WinDivertLayer::Flow.spec_value(),
                priority,
                (flags@ | WINDIVERT_FLAG_RECV_ONLY) | WINDIVERT_FLAG_SNIFF,
                r,
            ),
    {
        Self::new(driver, filter, WinDivertLayer::Flow, priority, flags.set_recv_only().set_sniff())
    }

    /// Single event blocking recv function; flow events carry no payload.
    pub fn recv(&mut self) -> (r: Result<WinDivertPacket<FlowLayer>, WinDivertError>)
        requires
            old(self).wf(),
            old(self).driver.recv_replies.len() >= 1,
            old(self).driver.recv_calls < u64::MAX,
        ensures
            spec_recv_nodata_result(*old(self), *final(self), r),
    {
        self.internal_recv_nobuf()
    }

    /// Batched blocking recv function: up to `packet_count` events.
    pub fn recv_ex(&mut self, packet_count: u8) -> (r: Result<
        Vec<WinDivertPacket<FlowLayer>>,
        WinDivertError,
    >)
        requires
            old(self).wf(),
            old(self).driver.recv_replies.len() >= 1,
            old(self).driver.recv_calls < u64::MAX,
        ensures
            spec_recv_ex_nodata_result(*old(self), *final(self), packet_count, r),
    {
        match self.internal_recv_ex_nobuf(packet_count) {
            Err(e) => Err(e),
            Ok(addrs) => {
                proof {
                    let reply = old(self).driver.recv_replies[0];
                    assert(reply.wf());
                    assert forall|k: int| 0 <= k < addrs.len() implies (
                    #[trigger] addrs@[k]).wf() by {
                        assert(addrs@[k] == reply.addrs@[k]);
                    }
                }
                Ok(addrs_to_packets(addrs))
            },
        }
    }

    /// Single event blocking recv function bounded by a timeout.  A
    /// timeout of zero degenerates to the plain recv.
    pub fn recv_wait(&mut self, timeout_ms: u32) -> (r: Result<
        WinDivertPacket<FlowLayer>,
        WinDivertError,
    >)
        requires
            old(self).wf(),
            old(self).driver.recv_calls < u64::MAX,
            timeout_ms == 0 ==> old(self).driver.recv_replies.len() >= 1,
            timeout_ms != 0 ==> old(self).driver.recv_wait_replies.len() >= 1
                && old(self).driver.cancellations < u64::MAX,
        ensures
            timeout_ms == 0 ==> spec_recv_nodata_result(*old(self), *final(self), r),
            timeout_ms != 0 ==> spec_recv_wait_nodata_result(*old(self), *final(self), r),
    {
        if timeout_ms == 0 {
            self.internal_recv_nobuf()
        } else {
            match self.internal_recv_wait_ex_nobuf(1, timeout_ms) {
                Err(e) => Err(e),
                Ok(addrs) => {
                    proof {
                        assert(old(self).driver.recv_wait_replies[0].wf());
                        assert(old(self).driver.recv_wait_replies[0].reply.addrs.len() >= 1);
                    }
                    let mut addrs = addrs;
                    let addr = addrs.remove(0);
                    let addr = addr.duplicate();
                    Ok(
                        WinDivertPacket {
                            address: WinDivertAddress::from_raw(addr),
                            data: Vec::new(),
                        },
                    )
                },
            }
        }
    }

    /// Batched blocking recv function bounded by a timeout.  A timeout of
    /// zero degenerates to the plain batched recv.
    pub fn recv_wait_ex(&mut self, packet_count: u8, timeout_ms: u32) -> (r: Result<
        Vec<WinDivertPacket<FlowLayer>>,
        WinDivertError,
    >)
        requires
            old(self).wf(),
            old(self).driver.recv_calls < u64::MAX,
            timeout_ms == 0 ==> old(self).driver.recv_replies.len() >= 1,
            timeout_ms != 0 ==> old(self).driver.recv_wait_replies.len() >= 1
                && old(self).driver.cancellations < u64::MAX,
        ensures
            timeout_ms == 0 ==> spec_recv_ex_nodata_result(*old(self), *final(self), packet_count, r),
            timeout_ms != 0 ==> spec_recv_wait_ex_nodata_result(
                *old(self),
                *final(self),
                packet_count,
                r,
            ),
    {
        let res = if timeout_ms == 0 {
            self.internal_recv_ex_nobuf(packet_count)
        } else {
            self.internal_recv_wait_ex_nobuf(packet_count, timeout_ms)
        };
        match res {
            Err(e) => Err(e),
            Ok(addrs) => {
                proof {
                    if timeout_ms == 0 {
                        let reply = old(self).driver.recv_replies[0];
                        assert(reply.wf());
                        assert forall|k: int| 0 <= k < addrs.len() implies (
                        #[trigger] addrs@[k]).wf() by {
                            assert(addrs@[k] == reply.addrs@[k]);
                        }
                    } else {
                        let reply = old(self).driver.recv_wait_replies[0].reply;
                        assert(old(self).driver.recv_wait_replies[0].wf());
                        assert forall|k: int| 0 <= k < addrs.len() implies (
                        #[trigger] addrs@[k]).wf() by {
                            assert(addrs@[k] == reply.addrs@[k]);
                        }
                    }
                }
                Ok(addrs_to_packets(addrs))
            },
        }
    }
}

} // verus!
