//! Reflect-layer handle: receive-only events about other handles, whose
//! payload is the reporting handle's nul-terminated filter string.  The
//! constructor forces the sniff and receive-only flags.

use vstd::prelude::*;
use vstd::string::StringSliceAdditionalSpecFns;

use super::{
    slice_nul_packets, spec_open_result, spec_partial_recv_result, spec_recv_ex_str_result,
    spec_recv_result, WinDivert,
};
use crate::driver::SimulatedDriver;
use crate::error::WinDivertError;
use crate::layer::ReflectLayer;
use crate::newtypes::{
    WinDivertFlags, WinDivertLayer, WINDIVERT_FLAG_RECV_ONLY, WINDIVERT_FLAG_SNIFF,
};
use crate::packet::{PacketEither, WinDivertPacket};
use crate::utils::spec_nul_pos;

verus! {

impl WinDivert<ReflectLayer> {
    /// Opens a reflect-layer handle; the sniff and receive-only flags are
    /// forced on top of the given ones.
    pub fn reflect(
        driver: SimulatedDriver,
        filter: &str,
        priority: i16,
        flags: WinDivertFlags,
    ) -> (r: Result<Self, WinDivertError>)
        requires
            driver.wf(),
            spec_nul_pos(filter.spec_bytes(), 0, filter.spec_bytes().len() as int) is None
                ==> driver.open_replies.len() >= 1,
        ensures
            spec_open_result(
                driver,
                filter.spec_bytes(),
                WinDivertLayer::Reflect.spec_value(),
                priority,
                (flags@ | WINDIVERT_FLAG_RECV_ONLY) | WINDIVERT_FLAG_SNIFF,
                r,
            ),
    {
        Self::new(
            driver,
            filter,
            WinDivertLayer::Reflect,
            priority,
            flags.set_recv_only().set_sniff(),
        )
    }

    /// Single event blocking recv function; the payload is the reported
    /// handle's filter string.
    pub fn recv(&mut self, buffer: &mut Vec<u8>) -> (r: Result<
        WinDivertPacket<ReflectLayer>,
        WinDivertError,
    >)
        requires
            old(self).wf(),
            old(self).driver.recv_replies.len() >= 1,
            old(self).driver.recv_calls < u64::MAX,
        ensures
            spec_recv_result(*old(self), *final(self), old(buffer)@, final(buffer)@, r),
    {
        self.internal_recv_buf(buffer)
    }

    /// Single event blocking recv that never fails for want of buffer
    /// space: that condition yields a partial packet instead.
    pub fn partial_recv(&mut self, buffer: &mut Vec<u8>) -> (r: Result<
        PacketEither<ReflectLayer>,
        WinDivertError,
    >)
        requires
            old(self).wf(),
            old(self).driver.recv_replies.len() >= 1,
            old(self).driver.recv_calls < u64::MAX,
        ensures
            spec_partial_recv_result(*old(self), *final(self), old(buffer)@, final(buffer)@, r),
    {
        self.internal_partial_recv_buf(buffer)
    }

    /// Batched blocking recv function: up to `packet_count` events into
    /// one contiguous buffer, split at each filter string's nul
    /// terminator.
    pub fn recv_ex(&mut self, buffer: &mut Vec<u8>, packet_count: u8) -> (r: Result<
        Vec<WinDivertPacket<ReflectLayer>>,
        WinDivertError,
    >)
        requires
            old(self).wf(),
            old(self).driver.recv_replies.len() >= 1,
            old(self).driver.recv_calls < u64::MAX,
        ensures
            spec_recv_ex_str_result(
                *old(self),
                *final(self),
                old(buffer)@,
                final(buffer)@,
                packet_count,
                r,
            ),
    {
        match self.internal_recv_ex_buf(buffer, packet_count) {
            Err(e) => Err(e),
            Ok((take, addrs)) => {
                proof {
                    let reply = old(self).driver.recv_replies[0];
                    assert(reply.wf());
                    assert forall|k: int| 0 <= k < addrs.len() implies (
                    #[trigger] addrs@[k]).wf() by {
                        assert(addrs@[k] == reply.addrs@[k]);
                    }
                }
                slice_nul_packets(buffer, take, addrs)
            },
        }
    }
}

} // verus!
