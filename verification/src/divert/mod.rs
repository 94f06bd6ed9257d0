//! The handle and its blocking/overlapped I/O engine.
//!
//! A [`WinDivert`] handle is opened on one layer with a filter, a
//! priority and a flag word, then exchanges buffers and address records
//! with the driver.  Every operation here is one call across the driver
//! boundary, specified against the scripted reply the handle's driver
//! model holds for it: what is written into the caller's buffer, which
//! packets come back, which error surfaces for which status code, and
//! what reached the driver.

use vstd::prelude::*;
use vstd::string::StrSliceExecFns;
use vstd::string::StringSliceAdditionalSpecFns;

use crate::address::{spec_addr_eq, WinDivertAddress, WINDIVERT_ADDRESS};
use crate::driver::{OpenCall, RecvReply, SentBatch, SimulatedDriver, WaitOutcome};
use crate::error::{
    open_failure, recv_failure, send_failure, spec_open_failure, spec_recv_failure,
    spec_send_failure, WinDivertError, WinDivertSendError, ERROR_INSUFFICIENT_BUFFER,
};
use crate::layer::WinDivertLayerTrait;
use crate::newtypes::{
    WinDivertFlags, WinDivertLayer, WinDivertParam, WinDivertShutdownMode, WINDIVERT_BATCH_MAX,
};
use crate::packet::{PacketEither, WinDivertPacket, WinDivertPartialPacket};
use crate::spec_min;
use crate::tls::TlsIndex;
use crate::driver::RecvWaitReply;
use crate::utils::{copy_into, lemma_ip_start_none, lemma_str_start_none, spec_ip_start, spec_nul_pos, spec_str_start, sub_vec};

mod builder;
mod flow;
mod forward;
mod network;
mod reflect;
mod socket;

pub use builder::WinDivertBuilder;

verus! {

/// Action parameter for a close call.
#[derive(Debug, Copy, Clone, PartialEq, Eq, Structural)]
pub enum CloseAction {
    /// Close the handle and request an uninstall of the driver.
    Uninstall,
    /// Close the handle without uninstalling the driver.
    Nothing,
}

impl Default for CloseAction {
    /// By default a close leaves the driver installed.
    fn default() -> (r: Self)
        ensures
            r == CloseAction::Nothing,
    {
        CloseAction::Nothing
    }
}

/// The number of payload bytes a receive hands out of this reply through
/// a buffer of length `buflen`: the reported count, capped by what was
/// written.
pub open spec fn spec_recv_take(reply: RecvReply, buflen: int) -> int {
    spec_min(reply.len as int, spec_min(reply.data.len() as int, buflen))
}

/// The driver wrote its reply bytes into the buffer's front and left the
/// rest untouched.
pub open spec fn spec_buffer_written(pre: Seq<u8>, post: Seq<u8>, data: Seq<u8>) -> bool {
    &&& post.len() == pre.len()
    &&& forall|k: int|
        0 <= k < spec_min(data.len() as int, pre.len() as int) ==> post[k] == data[k]
    &&& forall|k: int| spec_min(data.len() as int, pre.len() as int) <= k < pre.len() ==> post[k]
        == pre[k]
}

/// The concatenation of the packets' payloads, in order.
pub open spec fn spec_payloads<L: WinDivertLayerTrait>(ps: Seq<WinDivertPacket<L>>) -> Seq<u8>
    decreases ps.len(),
{
    if ps.len() == 0 {
        Seq::empty()
    } else {
        spec_payloads(ps.drop_last()) + ps.last().data@
    }
}

/// Main wrapper struct around the diversion functionality: a handle bound
/// to a filter and a layer, exchanging packets with its driver.
#[derive(Debug)]
pub struct WinDivert<L: WinDivertLayerTrait> {
    /// The driver model this handle talks to.
    pub driver: SimulatedDriver,
    /// The per-thread wait-event slot used by waiting receives.
    pub tls_index: TlsIndex,
    /// The layer marker.
    pub layer_marker: core::marker::PhantomData<L>,
}

impl<L: WinDivertLayerTrait> WinDivert<L> {
    /// The handle's scripted replies are internally consistent.
    pub open spec fn wf(&self) -> bool {
        self.driver.wf()
    }

    /// Opens a handle using the given parameters against the given
    /// driver.  Fails with the nul position before any driver call when
    /// the filter holds a nul byte; otherwise the driver's open reply
    /// decides, and a failing status code is classified through the open
    /// error family.
    pub(crate) fn new(
        driver: SimulatedDriver,
        filter: &str,
        layer: WinDivertLayer,
        priority: i16,
        flags: WinDivertFlags,
    ) -> (r: Result<WinDivert<L>, WinDivertError>)
        requires
            driver.wf(),
            spec_nul_pos(filter.spec_bytes(), 0, filter.spec_bytes().len() as int) is None
                ==> driver.open_replies.len() >= 1,
        ensures
            spec_open_result(driver, filter.spec_bytes(), layer.spec_value(), priority, flags@, r),
    {
        Self::open_bytes(driver, filter.as_bytes_vec(), layer, priority, flags)
    }

    /// Opens a handle with the filter given as its bytes; the string form
    /// above and the builder both come through here.
    pub(crate) fn open_bytes(
        driver: SimulatedDriver,
        filter: Vec<u8>,
        layer: WinDivertLayer,
        priority: i16,
        flags: WinDivertFlags,
    ) -> (r: Result<WinDivert<L>, WinDivertError>)
        requires
            driver.wf(),
            spec_nul_pos(filter@, 0, filter.len() as int) is None ==> driver.open_replies.len()
                >= 1,
        ensures
            spec_open_result(driver, filter@, layer.spec_value(), priority, flags@, r),
    {
        let bytes = filter;
        let n = bytes.len();
        if let Some(p) = crate::utils::find_nul(&bytes, 0, n) {
            return Err(WinDivertError::NullError(p));
        }
        let tls_index = match TlsIndex::alloc_tls() {
            Ok(tls) => tls,
            Err(code) => {
                return Err(WinDivertError::OSError(code));
            },
        };
        let ghost pre_driver = driver;
        let mut driver = driver;
        let reply = driver.open_replies.remove(0);
        let layer_value = layer.as_u32();
        let flags_value = flags.as_u64();
        driver.opens.push(
            OpenCall { filter: bytes, layer: layer_value, priority, flags: flags_value },
        );
        proof {
            assert(driver.opens@.take(pre_driver.opens.len() as int) =~= pre_driver.opens@);
        }
        if reply.success {
            Ok(WinDivert { driver, tls_index, layer_marker: core::marker::PhantomData })
        } else {
            Err(open_failure(reply.code))
        }
    }

    /// One blocking receive into the caller's buffer.  On success the
    /// packet holds exactly the bytes the driver reported, read from the
    /// buffer's front, with the first address record written; a failing
    /// status code is classified through the receive error family.
    pub(crate) fn internal_recv_buf(&mut self, buffer: &mut Vec<u8>) -> (r: Result<
        WinDivertPacket<L>,
        WinDivertError,
    >)
        requires
            old(self).wf(),
            old(self).driver.recv_replies.len() >= 1,
            old(self).driver.recv_calls < u64::MAX,
        ensures
            spec_recv_result(*old(self), *final(self), old(buffer)@, final(buffer)@, r),
    {
        let mut reply = self.driver.recv_replies.remove(0);
        proof {
            assert(reply == old(self).driver.recv_replies[0]);
            assert(reply.wf());
        }
        self.driver.recv_calls = self.driver.recv_calls + 1;
        let written = copy_into(buffer, &reply.data);
        if reply.success {
            let take = if (reply.len as usize) <= written {
                reply.len as usize
            } else {
                written
            };
            let data = sub_vec(buffer, 0, take);
            proof {
                assert(data@ =~= reply.data@.take(take as int));
            }
            let addr = reply.addrs.remove(0);
            let addr = addr.duplicate();
            Ok(WinDivertPacket { address: WinDivertAddress::from_raw(addr), data })
        } else {
            Err(recv_failure(reply.code))
        }
    }

    /// One blocking receive on a layer without payloads.  The packet
    /// carries the first address record and no data.
    pub(crate) fn internal_recv_nobuf(&mut self) -> (r: Result<WinDivertPacket<L>, WinDivertError>)
        requires
            old(self).wf(),
            old(self).driver.recv_replies.len() >= 1,
            old(self).driver.recv_calls < u64::MAX,
        ensures
            spec_recv_nodata_result(*old(self), *final(self), r),
    {
        let mut reply = self.driver.recv_replies.remove(0);
        proof {
            assert(reply == old(self).driver.recv_replies[0]);
            assert(reply.wf());
        }
        self.driver.recv_calls = self.driver.recv_calls + 1;
        if reply.success {
            let addr = reply.addrs.remove(0);
            let addr = addr.duplicate();
            Ok(WinDivertPacket { address: WinDivertAddress::from_raw(addr), data: Vec::new() })
        } else {
            Err(recv_failure(reply.code))
        }
    }

    /// One blocking receive that never fails with an insufficient buffer:
    /// that status code instead yields a partial packet carrying exactly
    /// the truncated bytes the driver wrote.  Every other failing status
    /// code surfaces as in a plain receive.
    pub(crate) fn internal_partial_recv_buf(&mut self, buffer: &mut Vec<u8>) -> (r: Result<
        PacketEither<L>,
        WinDivertError,
    >)
        requires
            old(self).wf(),
            old(self).driver.recv_replies.len() >= 1,
            old(self).driver.recv_calls < u64::MAX,
        ensures
            spec_partial_recv_result(*old(self), *final(self), old(buffer)@, final(buffer)@, r),
    {
        let mut reply = self.driver.recv_replies.remove(0);
        proof {
            assert(reply == old(self).driver.recv_replies[0]);
            assert(reply.wf());
        }
        self.driver.recv_calls = self.driver.recv_calls + 1;
        let written = copy_into(buffer, &reply.data);
        if reply.success {
            let take = if (reply.len as usize) <= written {
                reply.len as usize
            } else {
                written
            };
            let data = sub_vec(buffer, 0, take);
            proof {
                assert(data@ =~= reply.data@.take(take as int));
            }
            let addr = reply.addrs.remove(0);
            let addr = addr.duplicate();
            Ok(PacketEither::Full(WinDivertPacket {
                address: WinDivertAddress::from_raw(addr),
                data,
            }))
        } else if reply.code == ERROR_INSUFFICIENT_BUFFER {
            let data = sub_vec(buffer, 0, written);
            proof {
                assert(data@ =~= reply.data@.take(written as int));
            }
            let addr = reply.addrs.remove(0);
            let addr = addr.duplicate();
            Ok(PacketEither::Partial(WinDivertPartialPacket {
                address: WinDivertAddress::from_raw(addr),
                data,
            }))
        } else {
            Err(recv_failure(reply.code))
        }
    }

    /// One batched blocking receive into the caller's buffer.  On success
    /// it hands back the reported byte count, capped by what was written,
    /// and the written address records, at most `packet_count` of them;
    /// a failing status code is classified through the receive error
    /// family.
    pub(crate) fn internal_recv_ex_buf(&mut self, buffer: &mut Vec<u8>, packet_count: u8) -> (r:
        Result<(usize, Vec<WINDIVERT_ADDRESS>), WinDivertError>)
        requires
            old(self).wf(),
            old(self).driver.recv_replies.len() >= 1,
            old(self).driver.recv_calls < u64::MAX,
        ensures
            final(self).wf(),
            SimulatedDriver::spec_recv_step(old(self).driver, final(self).driver),
            final(self).tls_index == old(self).tls_index,
            ({
                let reply = old(self).driver.recv_replies[0];
                spec_buffer_written(old(buffer)@, final(buffer)@, reply.data@) && if reply.success {
                    match r {
                        Ok((take, addrs)) => take == spec_recv_take(
                            reply,
                            old(buffer).len() as int,
                        ) && addrs@ == reply.addrs@.take(
                            spec_min(packet_count as int, reply.addrs.len() as int),
                        ),
                        Err(_) => false,
                    }
                } else {
                    r == Err::<(usize, Vec<WINDIVERT_ADDRESS>), WinDivertError>(
                        spec_recv_failure(reply.code),
                    )
                }
            }),
    {
        let mut reply = self.driver.recv_replies.remove(0);
        proof {
            assert(reply == old(self).driver.recv_replies[0]);
            assert(reply.wf());
        }
        self.driver.recv_calls = self.driver.recv_calls + 1;
        let written = copy_into(buffer, &reply.data);
        if reply.success {
            let take = if (reply.len as usize) <= written {
                reply.len as usize
            } else {
                written
            };
            let mut addrs = reply.addrs;
            if (packet_count as usize) < addrs.len() {
                addrs.truncate(packet_count as usize);
            }
            proof {
                assert(addrs@ =~= old(self).driver.recv_replies[0].addrs@.take(
                    spec_min(
                        packet_count as int,
                        old(self).driver.recv_replies[0].addrs.len() as int,
                    ),
                ));
            }
            Ok((take, addrs))
        } else {
            Err(recv_failure(reply.code))
        }
    }

    /// One batched blocking receive on a layer without payloads: only the
    /// address records come back.
    pub(crate) fn internal_recv_ex_nobuf(&mut self, packet_count: u8) -> (r: Result<
        Vec<WINDIVERT_ADDRESS>,
        WinDivertError,
    >)
        requires
            old(self).wf(),
            old(self).driver.recv_replies.len() >= 1,
            old(self).driver.recv_calls < u64::MAX,
        ensures
            final(self).wf(),
            SimulatedDriver::spec_recv_step(old(self).driver, final(self).driver),
            final(self).tls_index == old(self).tls_index,
            ({
                let reply = old(self).driver.recv_replies[0];
                if reply.success {
                    match r {
                        Ok(addrs) => addrs@ == reply.addrs@.take(
                            spec_min(packet_count as int, reply.addrs.len() as int),
                        ),
                        Err(_) => false,
                    }
                } else {
                    r == Err::<Vec<WINDIVERT_ADDRESS>, WinDivertError>(
                        spec_recv_failure(reply.code),
                    )
                }
            }),
    {
        let reply = self.driver.recv_replies.remove(0);
        proof {
            assert(reply == old(self).driver.recv_replies[0]);
            assert(reply.wf());
        }
        self.driver.recv_calls = self.driver.recv_calls + 1;
        if reply.success {
            let mut addrs = reply.addrs;
            if (packet_count as usize) < addrs.len() {
                addrs.truncate(packet_count as usize);
            }
            proof {
                assert(addrs@ =~= old(self).driver.recv_replies[0].addrs@.take(
                    spec_min(
                        packet_count as int,
                        old(self).driver.recv_replies[0].addrs.len() as int,
                    ),
                ));
            }
            Ok(addrs)
        } else {
            Err(recv_failure(reply.code))
        }
    }

    /// One batched overlapped receive bounded by a timeout, through the
    /// thread's cached wait event.  An immediately completing issue call
    /// behaves as the plain batched receive.  A pending one waits on the
    /// event: a signal fetches the completed reply; an expired timeout
    /// cancels the pending operation, drains it, and surfaces the timeout
    /// error; a failed wait is classified through the receive error
    /// family.
    pub(crate) fn internal_recv_wait_ex_buf(
        &mut self,
        buffer: &mut Vec<u8>,
        packet_count: u8,
        timeout_ms: u32,
    ) -> (r: Result<(usize, Vec<WINDIVERT_ADDRESS>), WinDivertError>)
        requires
            old(self).wf(),
            old(self).driver.recv_wait_replies.len() >= 1,
            old(self).driver.recv_calls < u64::MAX,
            old(self).driver.cancellations < u64::MAX,
        ensures
            final(self).wf(),
            ({
                let wreply = old(self).driver.recv_wait_replies[0];
                let reply = wreply.reply;
                let cancelled = wreply.pending && wreply.wait is TimedOut;
                SimulatedDriver::spec_recv_wait_step(
                    old(self).driver,
                    final(self).driver,
                    cancelled,
                ) && spec_buffer_written(old(buffer)@, final(buffer)@, reply.data@) && if !wreply.pending
                    || wreply.wait is Signaled {
                    if reply.success {
                        match r {
                            Ok((take, addrs)) => take == spec_recv_take(
                                reply,
                                old(buffer).len() as int,
                            ) && addrs@ == reply.addrs@.take(
                                spec_min(packet_count as int, reply.addrs.len() as int),
                            ),
                            Err(_) => false,
                        }
                    } else if !wreply.pending {
                        r == Err::<(usize, Vec<WINDIVERT_ADDRESS>), WinDivertError>(
                            spec_recv_failure(reply.code),
                        )
                    } else {
                        r == Err::<(usize, Vec<WINDIVERT_ADDRESS>), WinDivertError>(
                            WinDivertError::OSError(reply.code),
                        )
                    }
                } else {
                    match wreply.wait {
                        WaitOutcome::TimedOut => r == Err::<
                            (usize, Vec<WINDIVERT_ADDRESS>),
                            WinDivertError,
                        >(WinDivertError::Timeout),
                        WaitOutcome::Failed(code) => r == Err::<
                            (usize, Vec<WINDIVERT_ADDRESS>),
                            WinDivertError,
                        >(spec_recv_failure(code)),
                        WaitOutcome::Signaled => false,
                    }
                }
            }),
    {
        let wreply = self.driver.recv_wait_replies.remove(0);
        proof {
            assert(wreply == old(self).driver.recv_wait_replies[0]);
            assert(wreply.wf());
        }
        self.driver.recv_calls = self.driver.recv_calls + 1;
        let _event = self.tls_index.get_or_init_event();
        let reply = wreply.reply;
        let written = copy_into(buffer, &reply.data);
        if wreply.pending {
            match wreply.wait {
                WaitOutcome::Signaled => {},
                WaitOutcome::TimedOut => {
                    // The pending operation still owns the buffer: request
                    // cancellation and drain the final completion before
                    // handing the buffer back.
                    self.driver.cancellations = self.driver.cancellations + 1;
                    return Err(WinDivertError::Timeout);
                },
                WaitOutcome::Failed(code) => {
                    return Err(recv_failure(code));
                },
            }
        }
        if reply.success {
            let take = if (reply.len as usize) <= written {
                reply.len as usize
            } else {
                written
            };
            let mut addrs = reply.addrs;
            if (packet_count as usize) < addrs.len() {
                addrs.truncate(packet_count as usize);
            }
            proof {
                assert(addrs@ =~= old(self).driver.recv_wait_replies[0].reply.addrs@.take(
                    spec_min(
                        packet_count as int,
                        old(self).driver.recv_wait_replies[0].reply.addrs.len() as int,
                    ),
                ));
            }
            Ok((take, addrs))
        } else if !wreply.pending {
            Err(recv_failure(reply.code))
        } else {
            Err(WinDivertError::OSError(reply.code))
        }
    }

    /// The nobuf form of the batched overlapped receive, for the layers
    /// without payloads: only the address records come back.
    pub(crate) fn internal_recv_wait_ex_nobuf(&mut self, packet_count: u8, timeout_ms: u32) -> (r:
        Result<Vec<WINDIVERT_ADDRESS>, WinDivertError>)
        requires
            old(self).wf(),
            old(self).driver.recv_wait_replies.len() >= 1,
            old(self).driver.recv_calls < u64::MAX,
            old(self).driver.cancellations < u64::MAX,
        ensures
            final(self).wf(),
            ({
                let wreply = old(self).driver.recv_wait_replies[0];
                let reply = wreply.reply;
                let cancelled = wreply.pending && wreply.wait is TimedOut;
                SimulatedDriver::spec_recv_wait_step(
                    old(self).driver,
                    final(self).driver,
                    cancelled,
                ) && if !wreply.pending || wreply.wait is Signaled {
                    if reply.success {
                        match r {
                            Ok(addrs) => addrs@ == reply.addrs@.take(
                                spec_min(packet_count as int, reply.addrs.len() as int),
                            ),
                            Err(_) => false,
                        }
                    } else if !wreply.pending {
                        r == Err::<Vec<WINDIVERT_ADDRESS>, WinDivertError>(
                            spec_recv_failure(reply.code),
                        )
                    } else {
                        r == Err::<Vec<WINDIVERT_ADDRESS>, WinDivertError>(
                            WinDivertError::OSError(reply.code),
                        )
                    }
                } else {
                    match wreply.wait {
                        WaitOutcome::TimedOut => r == Err::<
                            Vec<WINDIVERT_ADDRESS>,
                            WinDivertError,
                        >(WinDivertError::Timeout),
                        WaitOutcome::Failed(code) => r == Err::<
                            Vec<WINDIVERT_ADDRESS>,
                            WinDivertError,
                        >(spec_recv_failure(code)),
                        WaitOutcome::Signaled => false,
                    }
                }
            }),
    {
        let wreply = self.driver.recv_wait_replies.remove(0);
        proof {
            assert(wreply == old(self).driver.recv_wait_replies[0]);
            assert(wreply.wf());
        }
        self.driver.recv_calls = self.driver.recv_calls + 1;
        let _event = self.tls_index.get_or_init_event();
        let reply = wreply.reply;
        if wreply.pending {
            match wreply.wait {
                WaitOutcome::Signaled => {},
                WaitOutcome::TimedOut => {
                    // Cancel, then drain, before the caller may reuse the
                    // record storage.
                    self.driver.cancellations = self.driver.cancellations + 1;
                    return Err(WinDivertError::Timeout);
                },
                WaitOutcome::Failed(code) => {
                    return Err(recv_failure(code));
                },
            }
        }
        if reply.success {
            let mut addrs = reply.addrs;
            if (packet_count as usize) < addrs.len() {
                addrs.truncate(packet_count as usize);
            }
            proof {
                assert(addrs@ =~= old(self).driver.recv_wait_replies[0].reply.addrs@.take(
                    spec_min(
                        packet_count as int,
                        old(self).driver.recv_wait_replies[0].reply.addrs.len() as int,
                    ),
                ));
            }
            Ok(addrs)
        } else if !wreply.pending {
            Err(recv_failure(reply.code))
        } else {
            Err(WinDivertError::OSError(reply.code))
        }
    }

    /// One synchronous injection of a single packet.  The driver receives
    /// exactly the packet's payload and its address record; on success
    /// the reported injected byte count comes back, and a failing status
    /// code is classified through the send error family.
    pub(crate) fn internal_send(&mut self, packet: &WinDivertPacket<L>) -> (r: Result<
        u32,
        WinDivertError,
    >)
        requires
            old(self).wf(),
            old(self).driver.send_replies.len() >= 1,
            old(self).driver.send_calls < u64::MAX,
            packet.address.wf(),
        ensures
            spec_send_result(*old(self), *final(self), *packet, r),
    {
        let reply = self.driver.send_replies.remove(0);
        self.driver.send_calls = self.driver.send_calls + 1;
        let data = sub_vec(&packet.data, 0, packet.data.len());
        proof {
            assert(data@ =~= packet.data@);
        }
        let addr = packet.address.as_raw().duplicate();
        self.driver.sent.push(SentBatch { data, addrs: vec![addr] });
        proof {
            assert(self.driver.sent@.take(old(self).driver.sent.len() as int)
                =~= old(self).driver.sent@);
        }
        if reply.success {
            Ok(reply.len)
        } else {
            Err(send_failure(reply.code))
        }
    }

    /// One synchronous batched injection.  More packets than the driver's
    /// batch maximum fail locally, before any driver call; otherwise the
    /// driver receives the packets' payloads concatenated in order with
    /// their address records laid out contiguously, and the reply decides
    /// the result as in a single send.
    pub(crate) fn internal_send_ex(&mut self, packets: &Vec<WinDivertPacket<L>>) -> (r: Result<
        u32,
        WinDivertError,
    >)
        requires
            old(self).wf(),
            packets.len() <= WINDIVERT_BATCH_MAX ==> old(self).driver.send_replies.len() >= 1,
            old(self).driver.send_calls < u64::MAX,
            forall|k: int| 0 <= k < packets.len() ==> (#[trigger] packets[k].address).wf(),
        ensures
            spec_send_ex_result(*old(self), *final(self), packets@, r),
    {
        if packets.len() > WINDIVERT_BATCH_MAX as usize {
            return Err(WinDivertError::Send(WinDivertSendError::TooManyPackets));
        }
        let reply = self.driver.send_replies.remove(0);
        self.driver.send_calls = self.driver.send_calls + 1;
        let n = packets.len();
        let mut data: Vec<u8> = Vec::new();
        let mut addrs: Vec<WINDIVERT_ADDRESS> = Vec::new();
        let mut i: usize = 0;
        while i < n
            invariant
                i <= n,
                n == packets.len(),
                forall|k: int| 0 <= k < packets.len() ==> (#[trigger] packets[k].address).wf(),
                data@ == spec_payloads(packets@.take(i as int)),
                addrs.len() == i,
                forall|k: int|
                    0 <= k < i ==> spec_addr_eq(#[trigger] addrs[k], packets[k].address@),
            decreases n - i,
        {
            data.extend_from_slice(packets[i].data.as_slice());
            addrs.push(packets[i].address.as_raw().duplicate());
            proof {
                assert(packets@.take(i + 1 as int).drop_last() =~= packets@.take(i as int));
                assert(packets@.take(i + 1 as int).last() == packets@[i as int]);
            }
            i = i + 1;
        }
        proof {
            assert(packets@.take(n as int) =~= packets@);
        }
        self.driver.sent.push(SentBatch { data, addrs });
        proof {
            assert(self.driver.sent@.take(old(self).driver.sent.len() as int)
                =~= old(self).driver.sent@);
        }
        if reply.success {
            Ok(reply.len)
        } else {
            Err(send_failure(reply.code))
        }
    }

    /// Queries the driver for a parameter's value.  The driver's reply
    /// decides: the reported value on success, the raw status code as the
    /// generic OS error otherwise.
    pub fn get_param(&mut self, param: WinDivertParam) -> (r: Result<u64, WinDivertError>)
        requires
            old(self).wf(),
            old(self).driver.param_replies.len() >= 1,
            old(self).driver.param_calls < u64::MAX,
        ensures
            final(self).wf(),
            final(self).tls_index == old(self).tls_index,
            SimulatedDriver::spec_param_step(old(self).driver, final(self).driver),
            ({
                let reply = old(self).driver.param_replies[0];
                if reply.success {
                    r == Ok::<u64, WinDivertError>(reply.value)
                } else {
                    r == Err::<u64, WinDivertError>(WinDivertError::OSError(reply.code))
                }
            }),
    {
        let reply = self.driver.param_replies.remove(0);
        self.driver.param_calls = self.driver.param_calls + 1;
        if reply.success {
            Ok(reply.value)
        } else {
            Err(WinDivertError::OSError(reply.code))
        }
    }

    /// Sets a driver parameter.  Naming a read-only parameter fails
    /// locally, before any driver call; otherwise the driver's reply
    /// decides as in a query.
    pub fn set_param(&mut self, param: WinDivertParam, value: u64) -> (r: Result<
        (),
        WinDivertError,
    >)
        requires
            old(self).wf(),
            !param.spec_read_only() ==> old(self).driver.param_replies.len() >= 1,
            old(self).driver.param_calls < u64::MAX,
        ensures
            final(self).wf(),
            final(self).tls_index == old(self).tls_index,
            if param.spec_read_only() {
                final(self).driver == old(self).driver && r == Err::<(), WinDivertError>(
                    WinDivertError::Parameter(param, value),
                )
            } else {
                SimulatedDriver::spec_param_step(old(self).driver, final(self).driver) && ({
                    let reply = old(self).driver.param_replies[0];
                    if reply.success {
                        r == Ok::<(), WinDivertError>(())
                    } else {
                        r == Err::<(), WinDivertError>(WinDivertError::OSError(reply.code))
                    }
                })
            },
    {
        match param {
            WinDivertParam::VersionMajor | WinDivertParam::VersionMinor => Err(
                WinDivertError::Parameter(param, value),
            ),
            _ => {
                let reply = self.driver.param_replies.remove(0);
                self.driver.param_calls = self.driver.param_calls + 1;
                if reply.success {
                    Ok(())
                } else {
                    Err(WinDivertError::OSError(reply.code))
                }
            },
        }
    }

    /// Disables future receives and/or sends on the handle without
    /// invalidating it; the handle stays usable for pending work and for
    /// a later close.
    pub fn shutdown(&mut self, mode: WinDivertShutdownMode) -> (r: Result<(), WinDivertError>)
        requires
            old(self).wf(),
            old(self).driver.control_replies.len() >= 1,
        ensures
            final(self).wf(),
            final(self).tls_index == old(self).tls_index,
            SimulatedDriver::spec_shutdown_step(
                old(self).driver,
                final(self).driver,
                mode.spec_value(),
            ),
            ({
                let reply = old(self).driver.control_replies[0];
                if reply.success {
                    r == Ok::<(), WinDivertError>(())
                } else {
                    r == Err::<(), WinDivertError>(WinDivertError::OSError(reply.code))
                }
            }),
    {
        let reply = self.driver.control_replies.remove(0);
        let mode_value = mode.as_u32();
        self.driver.shutdowns.push(mode_value);
        if reply.success {
            Ok(())
        } else {
            Err(WinDivertError::OSError(reply.code))
        }
    }

    /// Releases the handle, optionally chaining a request to uninstall
    /// the backing driver service.  The handle value is consumed and
    /// cannot be used after the call; the final driver state comes back
    /// for inspection.
    pub fn close(self, action: CloseAction) -> (r: (
        Result<(), WinDivertError>,
        SimulatedDriver,
    ))
        requires
            self.wf(),
            self.driver.control_replies.len() >= 1,
            self.driver.closes < u64::MAX,
            self.driver.uninstall_requests < u64::MAX,
        ensures
            r.1.wf(),
            SimulatedDriver::spec_close_step(
                self.driver,
                r.1,
                action == CloseAction::Uninstall,
            ),
            ({
                let reply = self.driver.control_replies[0];
                if reply.success {
                    r.0 == Ok::<(), WinDivertError>(())
                } else {
                    r.0 == Err::<(), WinDivertError>(WinDivertError::OSError(reply.code))
                }
            }),
    {
        let mut driver = self.driver;
        let reply = driver.control_replies.remove(0);
        driver.closes = driver.closes + 1;
        let uninstall = match action {
            CloseAction::Uninstall => true,
            CloseAction::Nothing => false,
        };
        if uninstall {
            driver.uninstall_requests = driver.uninstall_requests + 1;
        }
        if reply.success {
            (Ok(()), driver)
        } else {
            (Err(WinDivertError::OSError(reply.code)), driver)
        }
    }
}


/// The packets carved out of `buf[..take]` by their own header-declared
/// lengths, each paired with its address record.
pub open spec fn spec_ip_sliced<L: WinDivertLayerTrait>(
    packets: Seq<WinDivertPacket<L>>,
    buf: Seq<u8>,
    take: int,
    addrs: Seq<WINDIVERT_ADDRESS>,
) -> bool {
    &&& packets.len() == addrs.len()
    &&& forall|k: int|
        0 <= k < packets.len() ==> (#[trigger] packets[k]).data@ == buf.subrange(
            spec_ip_start(buf, take, k).unwrap(),
            spec_ip_start(buf, take, k + 1).unwrap(),
        ) && spec_addr_eq(packets[k].address@, addrs[k]) && packets[k].address.wf()
}

/// The nul-terminated strings carved out of `buf[..take]`, without their
/// terminators, each paired with its address record.
pub open spec fn spec_str_sliced<L: WinDivertLayerTrait>(
    packets: Seq<WinDivertPacket<L>>,
    buf: Seq<u8>,
    take: int,
    addrs: Seq<WINDIVERT_ADDRESS>,
) -> bool {
    &&& packets.len() == addrs.len()
    &&& forall|k: int|
        0 <= k < packets.len() ==> (#[trigger] packets[k]).data@ == buf.subrange(
            spec_str_start(buf, take, k).unwrap(),
            spec_nul_pos(buf, spec_str_start(buf, take, k).unwrap(), take).unwrap(),
        ) && spec_addr_eq(packets[k].address@, addrs[k]) && packets[k].address.wf()
}

/// The packets of a payload-less layer: one empty-data packet per
/// address record.
pub open spec fn spec_nodata_packets<L: WinDivertLayerTrait>(
    packets: Seq<WinDivertPacket<L>>,
    addrs: Seq<WINDIVERT_ADDRESS>,
) -> bool {
    &&& packets.len() == addrs.len()
    &&& forall|k: int|
        0 <= k < packets.len() ==> (#[trigger] packets[k]).data@.len() == 0 && spec_addr_eq(
            packets[k].address@,
            addrs[k],
        ) && packets[k].address.wf()
}

/// Carves `buffer[..take]` into one packet per address record, walking
/// the buffer by each packet's own header-declared length; a packet whose
/// header declares a length inconsistent with the buffer is a defensive
/// error, never a panic.
fn slice_ip_packets<L: WinDivertLayerTrait>(
    buffer: &Vec<u8>,
    take: usize,
    addrs: Vec<WINDIVERT_ADDRESS>,
) -> (r: Result<Vec<WinDivertPacket<L>>, WinDivertError>)
    requires
        take <= buffer.len(),
        forall|k: int| 0 <= k < addrs.len() ==> (#[trigger] addrs[k]).wf(),
    ensures
        match r {
            Ok(packets) => spec_ip_start(buffer@, take as int, addrs.len() as int) is Some
                && spec_ip_sliced(packets@, buffer@, take as int, addrs@),
            Err(e) => e == WinDivertError::MalformedPacket && spec_ip_start(
                buffer@,
                take as int,
                addrs.len() as int,
            ) is None,
        },
{
    let n = addrs.len();
    let ghost orig_addrs = addrs@;
    let mut rest = addrs;
    let mut packets: Vec<WinDivertPacket<L>> = Vec::new();
    let mut pos: usize = 0;
    let mut k: usize = 0;
    while k < n
        invariant
            k <= n,
            orig_addrs == addrs@,
            n == addrs.len(),
            rest@ == orig_addrs.skip(k as int),
            orig_addrs.len() == n,
            forall|j: int| 0 <= j < orig_addrs.len() ==> (#[trigger] orig_addrs[j]).wf(),
            take <= buffer.len(),
            pos <= take,
            spec_ip_start(buffer@, take as int, k as int) == Some(pos as int),
            packets.len() == k,
            forall|j: int|
                0 <= j < k ==> (#[trigger] packets[j]).data@ == buffer@.subrange(
                    spec_ip_start(buffer@, take as int, j).unwrap(),
                    spec_ip_start(buffer@, take as int, j + 1).unwrap(),
                ) && spec_addr_eq(packets[j].address@, orig_addrs[j]) && packets[j].address.wf(),
        decreases n - k,
    {
        match crate::utils::ip_packet_length(buffer, pos, take) {
            None => {
                proof {
                    assert(spec_ip_start(buffer@, take as int, k + 1) is None);
                    lemma_ip_start_none(buffer@, take as int, k + 1, n as int);
                }
                return Err(WinDivertError::MalformedPacket);
            },
            Some(l) => {
                let data = sub_vec(buffer, pos, pos + l);
                let addr = rest.remove(0);
                proof {
                    assert(addr == orig_addrs[k as int]);
                    assert(rest@ =~= orig_addrs.skip(k + 1 as int));
                }
                let addr = addr.duplicate();
                packets.push(WinDivertPacket { address: WinDivertAddress::from_raw(addr), data });
                pos = pos + l;
                k = k + 1;
            },
        }
    }
    Ok(packets)
}

/// Carves `buffer[..take]` into one nul-terminated string per address
/// record, dropping each terminator; a missing terminator is a defensive
/// error, never a panic.
fn slice_nul_packets<L: WinDivertLayerTrait>(
    buffer: &Vec<u8>,
    take: usize,
    addrs: Vec<WINDIVERT_ADDRESS>,
) -> (r: Result<Vec<WinDivertPacket<L>>, WinDivertError>)
    requires
        take <= buffer.len(),
        forall|k: int| 0 <= k < addrs.len() ==> (#[trigger] addrs[k]).wf(),
    ensures
        match r {
            Ok(packets) => spec_str_start(buffer@, take as int, addrs.len() as int) is Some
                && spec_str_sliced(packets@, buffer@, take as int, addrs@),
            Err(e) => e == WinDivertError::MalformedPacket && spec_str_start(
                buffer@,
                take as int,
                addrs.len() as int,
            ) is None,
        },
{
    let n = addrs.len();
    let ghost orig_addrs = addrs@;
    let mut rest = addrs;
    let mut packets: Vec<WinDivertPacket<L>> = Vec::new();
    let mut pos: usize = 0;
    let mut k: usize = 0;
    while k < n
        invariant
            k <= n,
            orig_addrs == addrs@,
            n == addrs.len(),
            rest@ == orig_addrs.skip(k as int),
            orig_addrs.len() == n,
            forall|j: int| 0 <= j < orig_addrs.len() ==> (#[trigger] orig_addrs[j]).wf(),
            take <= buffer.len(),
            pos <= take,
            spec_str_start(buffer@, take as int, k as int) == Some(pos as int),
            packets.len() == k,
            forall|j: int|
                0 <= j < k ==> (#[trigger] packets[j]).data@ == buffer@.subrange(
                    spec_str_start(buffer@, take as int, j).unwrap(),
                    spec_nul_pos(
                        buffer@,
                        spec_str_start(buffer@, take as int, j).unwrap(),
                        take as int,
                    ).unwrap(),
                ) && spec_addr_eq(packets[j].address@, orig_addrs[j]) && packets[j].address.wf(),
        decreases n - k,
    {
        match crate::utils::find_nul(buffer, pos, take) {
            None => {
                proof {
                    assert(spec_str_start(buffer@, take as int, k + 1) is None);
                    lemma_str_start_none(buffer@, take as int, k + 1, n as int);
                }
                return Err(WinDivertError::MalformedPacket);
            },
            Some(q) => {
                let data = sub_vec(buffer, pos, q);
                let addr = rest.remove(0);
                proof {
                    assert(addr == orig_addrs[k as int]);
                    assert(rest@ =~= orig_addrs.skip(k + 1 as int));
                }
                let addr = addr.duplicate();
                packets.push(WinDivertPacket { address: WinDivertAddress::from_raw(addr), data });
                pos = q + 1;
                k = k + 1;
            },
        }
    }
    Ok(packets)
}

/// One empty-data packet per address record, for the payload-less layers.
fn addrs_to_packets<L: WinDivertLayerTrait>(addrs: Vec<WINDIVERT_ADDRESS>) -> (r: Vec<
    WinDivertPacket<L>,
>)
    requires
        forall|k: int| 0 <= k < addrs.len() ==> (#[trigger] addrs[k]).wf(),
    ensures
        spec_nodata_packets(r@, addrs@),
{
    let n = addrs.len();
    let ghost orig_addrs = addrs@;
    let mut rest = addrs;
    let mut packets: Vec<WinDivertPacket<L>> = Vec::new();
    let mut k: usize = 0;
    while k < n
        invariant
            k <= n,
            orig_addrs == addrs@,
            n == addrs.len(),
            rest@ == orig_addrs.skip(k as int),
            orig_addrs.len() == n,
            forall|j: int| 0 <= j < orig_addrs.len() ==> (#[trigger] orig_addrs[j]).wf(),
            packets.len() == k,
            forall|j: int|
                0 <= j < k ==> (#[trigger] packets[j]).data@.len() == 0 && spec_addr_eq(
                    packets[j].address@,
                    orig_addrs[j],
                ) && packets[j].address.wf(),
        decreases n - k,
    {
        let addr = rest.remove(0);
        proof {
            assert(addr == orig_addrs[k as int]);
            assert(rest@ =~= orig_addrs.skip(k + 1 as int));
        }
        let addr = addr.duplicate();
        packets.push(WinDivertPacket { address: WinDivertAddress::from_raw(addr), data: Vec::new() });
        k = k + 1;
    }
    packets
}

/// What a handle constructor returns: the filter's nul position as a
/// local error before any driver call, else the recorded open call and
/// the reply's verdict, with a failing status code classified through the
/// open error family.
pub open spec fn spec_open_result<L: WinDivertLayerTrait>(
    driver: SimulatedDriver,
    filter: Seq<u8>,
    layer: u32,
    priority: i16,
    flags: u64,
    r: Result<WinDivert<L>, WinDivertError>,
) -> bool {
    match spec_nul_pos(filter, 0, filter.len() as int) {
        Some(p) => r == Err::<WinDivert<L>, WinDivertError>(
            WinDivertError::NullError(p as usize),
        ),
        None => {
            let reply = driver.open_replies[0];
            if reply.success {
                match r {
                    Ok(handle) => handle.wf() && SimulatedDriver::spec_open_step(
                        driver,
                        handle.driver,
                        filter,
                        layer,
                        priority,
                        flags,
                    ),
                    Err(_) => false,
                }
            } else {
                r == Err::<WinDivert<L>, WinDivertError>(spec_open_failure(reply.code))
            }
        },
    }
}

/// What a single buffered receive returns.
pub open spec fn spec_recv_result<L: WinDivertLayerTrait>(
    pre: WinDivert<L>,
    post: WinDivert<L>,
    bufpre: Seq<u8>,
    bufpost: Seq<u8>,
    r: Result<WinDivertPacket<L>, WinDivertError>,
) -> bool {
    let reply = pre.driver.recv_replies[0];
    &&& post.wf()
    &&& SimulatedDriver::spec_recv_step(pre.driver, post.driver)
    &&& post.tls_index == pre.tls_index
    &&& spec_buffer_written(bufpre, bufpost, reply.data@)
    &&& if reply.success {
        match r {
            Ok(p) => p.data@ == reply.data@.take(spec_recv_take(reply, bufpre.len() as int))
                && spec_addr_eq(p.address@, reply.addrs[0]) && p.address.wf(),
            Err(_) => false,
        }
    } else {
        r == Err::<WinDivertPacket<L>, WinDivertError>(spec_recv_failure(reply.code))
    }
}

/// What a single receive on a payload-less layer returns.
pub open spec fn spec_recv_nodata_result<L: WinDivertLayerTrait>(
    pre: WinDivert<L>,
    post: WinDivert<L>,
    r: Result<WinDivertPacket<L>, WinDivertError>,
) -> bool {
    let reply = pre.driver.recv_replies[0];
    &&& post.wf()
    &&& SimulatedDriver::spec_recv_step(pre.driver, post.driver)
    &&& post.tls_index == pre.tls_index
    &&& if reply.success {
        match r {
            Ok(p) => p.data@.len() == 0 && spec_addr_eq(p.address@, reply.addrs[0])
                && p.address.wf(),
            Err(_) => false,
        }
    } else {
        r == Err::<WinDivertPacket<L>, WinDivertError>(spec_recv_failure(reply.code))
    }
}

/// What a partial receive returns: a full packet on success, a partial
/// packet carrying exactly the written bytes on an insufficient-buffer
/// failure, and the plain receive's error otherwise.
pub open spec fn spec_partial_recv_result<L: WinDivertLayerTrait>(
    pre: WinDivert<L>,
    post: WinDivert<L>,
    bufpre: Seq<u8>,
    bufpost: Seq<u8>,
    r: Result<PacketEither<L>, WinDivertError>,
) -> bool {
    let reply = pre.driver.recv_replies[0];
    let written = spec_min(reply.data.len() as int, bufpre.len() as int);
    &&& post.wf()
    &&& SimulatedDriver::spec_recv_step(pre.driver, post.driver)
    &&& post.tls_index == pre.tls_index
    &&& spec_buffer_written(bufpre, bufpost, reply.data@)
    &&& if reply.success {
        match r {
            Ok(PacketEither::Full(p)) => p.data@ == reply.data@.take(
                spec_recv_take(reply, bufpre.len() as int),
            ) && spec_addr_eq(p.address@, reply.addrs[0]) && p.address.wf(),
            _ => false,
        }
    } else if reply.code == ERROR_INSUFFICIENT_BUFFER {
        match r {
            Ok(PacketEither::Partial(p)) => p.data@ == reply.data@.take(written) && spec_addr_eq(
                p.address@,
                reply.addrs[0],
            ) && p.address.wf(),
            _ => false,
        }
    } else {
        r == Err::<PacketEither<L>, WinDivertError>(spec_recv_failure(reply.code))
    }
}

/// True when an overlapped receive ran to completion: it completed at
/// once, or the wait on the thread's event was signalled.
pub open spec fn spec_wait_completed(wreply: RecvWaitReply) -> bool {
    !wreply.pending || wreply.wait is Signaled
}

/// The error an overlapped receive surfaces when it does not hand packets
/// back: the classified immediate failure; the raw completion failure; the
/// timeout after a cancellation; or the classified wait failure.
pub open spec fn spec_wait_err<T>(wreply: RecvWaitReply, r: Result<T, WinDivertError>) -> bool {
    if spec_wait_completed(wreply) {
        if wreply.reply.success {
            false
        } else if !wreply.pending {
            r == Err::<T, WinDivertError>(spec_recv_failure(wreply.reply.code))
        } else {
            r == Err::<T, WinDivertError>(WinDivertError::OSError(wreply.reply.code))
        }
    } else {
        match wreply.wait {
            WaitOutcome::TimedOut => r == Err::<T, WinDivertError>(WinDivertError::Timeout),
            WaitOutcome::Failed(code) => r == Err::<T, WinDivertError>(spec_recv_failure(code)),
            WaitOutcome::Signaled => false,
        }
    }
}

/// What a batched buffered receive returns after slicing: the packets
/// carved by their header lengths, a defensive error on a header
/// inconsistent with the buffer, or the receive failure.
pub open spec fn spec_recv_ex_ip_result<L: WinDivertLayerTrait>(
    pre: WinDivert<L>,
    post: WinDivert<L>,
    bufpre: Seq<u8>,
    bufpost: Seq<u8>,
    packet_count: u8,
    r: Result<Vec<WinDivertPacket<L>>, WinDivertError>,
) -> bool {
    let reply = pre.driver.recv_replies[0];
    let take = spec_recv_take(reply, bufpre.len() as int);
    let addrs = reply.addrs@.take(spec_min(packet_count as int, reply.addrs.len() as int));
    &&& post.wf()
    &&& SimulatedDriver::spec_recv_step(pre.driver, post.driver)
    &&& post.tls_index == pre.tls_index
    &&& spec_buffer_written(bufpre, bufpost, reply.data@)
    &&& if reply.success {
        if spec_ip_start(bufpost, take, addrs.len() as int) is Some {
            match r {
                Ok(packets) => spec_ip_sliced(packets@, bufpost, take, addrs),
                Err(_) => false,
            }
        } else {
            r == Err::<Vec<WinDivertPacket<L>>, WinDivertError>(WinDivertError::MalformedPacket)
        }
    } else {
        r == Err::<Vec<WinDivertPacket<L>>, WinDivertError>(spec_recv_failure(reply.code))
    }
}

/// What a batched buffered receive returns on the reflect layer: the
/// nul-terminated strings, a defensive error on a missing terminator, or
/// the receive failure.
pub open spec fn spec_recv_ex_str_result<L: WinDivertLayerTrait>(
    pre: WinDivert<L>,
    post: WinDivert<L>,
    bufpre: Seq<u8>,
    bufpost: Seq<u8>,
    packet_count: u8,
    r: Result<Vec<WinDivertPacket<L>>, WinDivertError>,
) -> bool {
    let reply = pre.driver.recv_replies[0];
    let take = spec_recv_take(reply, bufpre.len() as int);
    let addrs = reply.addrs@.take(spec_min(packet_count as int, reply.addrs.len() as int));
    &&& post.wf()
    &&& SimulatedDriver::spec_recv_step(pre.driver, post.driver)
    &&& post.tls_index == pre.tls_index
    &&& spec_buffer_written(bufpre, bufpost, reply.data@)
    &&& if reply.success {
        if spec_str_start(bufpost, take, addrs.len() as int) is Some {
            match r {
                Ok(packets) => spec_str_sliced(packets@, bufpost, take, addrs),
                Err(_) => false,
            }
        } else {
            r == Err::<Vec<WinDivertPacket<L>>, WinDivertError>(WinDivertError::MalformedPacket)
        }
    } else {
        r == Err::<Vec<WinDivertPacket<L>>, WinDivertError>(spec_recv_failure(reply.code))
    }
}

/// What a batched receive returns on a payload-less layer: one empty
/// packet per record, or the receive failure.
pub open spec fn spec_recv_ex_nodata_result<L: WinDivertLayerTrait>(
    pre: WinDivert<L>,
    post: WinDivert<L>,
    packet_count: u8,
    r: Result<Vec<WinDivertPacket<L>>, WinDivertError>,
) -> bool {
    let reply = pre.driver.recv_replies[0];
    let addrs = reply.addrs@.take(spec_min(packet_count as int, reply.addrs.len() as int));
    &&& post.wf()
    &&& SimulatedDriver::spec_recv_step(pre.driver, post.driver)
    &&& post.tls_index == pre.tls_index
    &&& if reply.success {
        match r {
            Ok(packets) => spec_nodata_packets(packets@, addrs),
            Err(_) => false,
        }
    } else {
        r == Err::<Vec<WinDivertPacket<L>>, WinDivertError>(spec_recv_failure(reply.code))
    }
}

/// What a single waiting receive returns: on completion, one packet read
/// from the buffer's front with the first record; otherwise the
/// overlapped error verdict, a cancellation having been issued on
/// timeout.
pub open spec fn spec_recv_wait_result<L: WinDivertLayerTrait>(
    pre: WinDivert<L>,
    post: WinDivert<L>,
    bufpre: Seq<u8>,
    bufpost: Seq<u8>,
    r: Result<WinDivertPacket<L>, WinDivertError>,
) -> bool {
    let wreply = pre.driver.recv_wait_replies[0];
    let reply = wreply.reply;
    let cancelled = wreply.pending && wreply.wait is TimedOut;
    &&& post.wf()
    &&& SimulatedDriver::spec_recv_wait_step(pre.driver, post.driver, cancelled)
    &&& spec_buffer_written(bufpre, bufpost, reply.data@)
    &&& if spec_wait_completed(wreply) && reply.success {
        match r {
            Ok(p) => p.data@ == reply.data@.take(spec_recv_take(reply, bufpre.len() as int))
                && spec_addr_eq(p.address@, reply.addrs[0]) && p.address.wf(),
            Err(_) => false,
        }
    } else {
        spec_wait_err(wreply, r)
    }
}

/// What a batched waiting receive returns after slicing by header
/// lengths.
pub open spec fn spec_recv_wait_ex_ip_result<L: WinDivertLayerTrait>(
    pre: WinDivert<L>,
    post: WinDivert<L>,
    bufpre: Seq<u8>,
    bufpost: Seq<u8>,
    packet_count: u8,
    r: Result<Vec<WinDivertPacket<L>>, WinDivertError>,
) -> bool {
    let wreply = pre.driver.recv_wait_replies[0];
    let reply = wreply.reply;
    let cancelled = wreply.pending && wreply.wait is TimedOut;
    let take = spec_recv_take(reply, bufpre.len() as int);
    let addrs = reply.addrs@.take(spec_min(packet_count as int, reply.addrs.len() as int));
    &&& post.wf()
    &&& SimulatedDriver::spec_recv_wait_step(pre.driver, post.driver, cancelled)
    &&& spec_buffer_written(bufpre, bufpost, reply.data@)
    &&& if spec_wait_completed(wreply) && reply.success {
        if spec_ip_start(bufpost, take, addrs.len() as int) is Some {
            match r {
                Ok(packets) => spec_ip_sliced(packets@, bufpost, take, addrs),
                Err(_) => false,
            }
        } else {
            r == Err::<Vec<WinDivertPacket<L>>, WinDivertError>(WinDivertError::MalformedPacket)
        }
    } else {
        spec_wait_err(wreply, r)
    }
}

/// What a single waiting receive returns on a payload-less layer.
pub open spec fn spec_recv_wait_nodata_result<L: WinDivertLayerTrait>(
    pre: WinDivert<L>,
    post: WinDivert<L>,
    r: Result<WinDivertPacket<L>, WinDivertError>,
) -> bool {
    let wreply = pre.driver.recv_wait_replies[0];
    let reply = wreply.reply;
    let cancelled = wreply.pending && wreply.wait is TimedOut;
    &&& post.wf()
    &&& SimulatedDriver::spec_recv_wait_step(pre.driver, post.driver, cancelled)
    &&& if spec_wait_completed(wreply) && reply.success {
        match r {
            Ok(p) => p.data@.len() == 0 && spec_addr_eq(p.address@, reply.addrs[0])
                && p.address.wf(),
            Err(_) => false,
        }
    } else {
        spec_wait_err(wreply, r)
    }
}

/// What a batched waiting receive returns on a payload-less layer.
pub open spec fn spec_recv_wait_ex_nodata_result<L: WinDivertLayerTrait>(
    pre: WinDivert<L>,
    post: WinDivert<L>,
    packet_count: u8,
    r: Result<Vec<WinDivertPacket<L>>, WinDivertError>,
) -> bool {
    let wreply = pre.driver.recv_wait_replies[0];
    let reply = wreply.reply;
    let cancelled = wreply.pending && wreply.wait is TimedOut;
    let addrs = reply.addrs@.take(spec_min(packet_count as int, reply.addrs.len() as int));
    &&& post.wf()
    &&& SimulatedDriver::spec_recv_wait_step(pre.driver, post.driver, cancelled)
    &&& if spec_wait_completed(wreply) && reply.success {
        match r {
            Ok(packets) => spec_nodata_packets(packets@, addrs),
            Err(_) => false,
        }
    } else {
        spec_wait_err(wreply, r)
    }
}

/// What a single send returns: the driver received exactly this payload
/// and record, and the reply decides the injected count or the classified
/// failure.
pub open spec fn spec_send_result<L: WinDivertLayerTrait>(
    pre: WinDivert<L>,
    post: WinDivert<L>,
    packet: WinDivertPacket<L>,
    r: Result<u32, WinDivertError>,
) -> bool {
    let reply = pre.driver.send_replies[0];
    &&& post.wf()
    &&& post.tls_index == pre.tls_index
    &&& SimulatedDriver::spec_send_step(pre.driver, post.driver, packet.data@, 1)
    &&& spec_addr_eq(post.driver.sent[pre.driver.sent.len() as int].addrs[0], packet.address@)
    &&& if reply.success {
        r == Ok::<u32, WinDivertError>(reply.len)
    } else {
        r == Err::<u32, WinDivertError>(spec_send_failure(reply.code))
    }
}

/// What a batched send returns: more packets than the batch maximum fail
/// locally with the driver untouched; otherwise the driver received the
/// concatenated payloads with the records laid out in order, and the
/// reply decides.
pub open spec fn spec_send_ex_result<L: WinDivertLayerTrait>(
    pre: WinDivert<L>,
    post: WinDivert<L>,
    packets: Seq<WinDivertPacket<L>>,
    r: Result<u32, WinDivertError>,
) -> bool {
    &&& post.wf()
    &&& post.tls_index == pre.tls_index
    &&& if packets.len() > WINDIVERT_BATCH_MAX {
        post.driver == pre.driver && r == Err::<u32, WinDivertError>(
            WinDivertError::Send(WinDivertSendError::TooManyPackets),
        )
    } else {
        let reply = pre.driver.send_replies[0];
        &&& SimulatedDriver::spec_send_step(
            pre.driver,
            post.driver,
            spec_payloads(packets),
            packets.len() as int,
        )
        &&& forall|k: int|
            0 <= k < packets.len() ==> spec_addr_eq(
                #[trigger] post.driver.sent[pre.driver.sent.len() as int].addrs[k],
                packets[k].address@,
            )
        &&& if reply.success {
            r == Ok::<u32, WinDivertError>(reply.len)
        } else {
            r == Err::<u32, WinDivertError>(spec_send_failure(reply.code))
        }
    }
}


} // verus!
