//! The driver model: scripted responses and a record of what reached the
//! driver.
//!
//! Every handle operation is one call across the driver boundary; the
//! call's outcome is a success flag, an OS status code, and whatever the
//! driver wrote.  [`SimulatedDriver`] carries those outcomes as explicit
//! values, consumed front to back, and counts the calls that reached it,
//! so every engine operation can be specified and checked against the
//! responses it was given.  A platform shim drives the same engine by
//! translating real driver calls into the same response values.

use vstd::prelude::*;

use crate::address::WINDIVERT_ADDRESS;
use crate::error::ERROR_INSUFFICIENT_BUFFER;

verus! {

/// What one receive call reports: the bytes and address records the
/// driver wrote, the byte count it reported, and the success flag with
/// its status code.
#[derive(Debug)]
pub struct RecvReply {
    /// Whether the call returned success.
    pub success: bool,
    /// The OS status code reported on failure.
    pub code: u32,
    /// The bytes the driver writes into the caller's buffer (truncated to
    /// the buffer's length).
    pub data: Vec<u8>,
    /// The address records the driver writes.
    pub addrs: Vec<WINDIVERT_ADDRESS>,
    /// The byte count the driver reports received.
    pub len: u32,
}

impl RecvReply {
    /// The reply is internally consistent: its written records are
    /// well-formed, and when the call succeeded or failed for want of
    /// buffer space, the reported count covers the written bytes and at
    /// least one record was written.
    pub open spec fn wf(&self) -> bool {
        &&& (self.success || self.code == ERROR_INSUFFICIENT_BUFFER) ==> self.len as int
            <= self.data.len() && self.addrs.len() >= 1
        &&& forall|k: int| 0 <= k < self.addrs.len() ==> (#[trigger] self.addrs[k]).wf()
    }

    /// A reply reporting `data` received, with one address record.
    pub fn packet(data: Vec<u8>, addr: WINDIVERT_ADDRESS) -> (r: RecvReply)
        requires
            data.len() <= u32::MAX,
            addr.wf(),
        ensures
            r.wf(),
            r.success,
            r.data@ == data@,
            r.addrs.len() == 1,
            r.addrs[0] == addr,
            r.len == data.len(),
    {
        let len = data.len() as u32;
        RecvReply { success: true, code: 0, data, addrs: vec![addr], len }
    }

    /// A reply reporting `data` received as a batch with the given
    /// address records.
    pub fn batch(data: Vec<u8>, addrs: Vec<WINDIVERT_ADDRESS>) -> (r: RecvReply)
        requires
            data.len() <= u32::MAX,
            addrs.len() >= 1,
            forall|k: int| 0 <= k < addrs.len() ==> (#[trigger] addrs[k]).wf(),
        ensures
            r.wf(),
            r.success,
            r.data@ == data@,
            r.addrs@ == addrs@,
            r.len == data.len(),
    {
        let len = data.len() as u32;
        RecvReply { success: true, code: 0, data, addrs, len }
    }

    /// A failing reply with the given OS status code and nothing written.
    /// An insufficient-buffer failure writes truncated data, so it is
    /// built with [`RecvReply::failure_with_data`] instead.
    pub fn failure(code: u32) -> (r: RecvReply)
        requires
            code != ERROR_INSUFFICIENT_BUFFER,
        ensures
            r.wf(),
            !r.success,
            r.code == code,
            r.data.len() == 0,
            r.addrs.len() == 0,
    {
        RecvReply { success: false, code, data: Vec::new(), addrs: Vec::new(), len: 0 }
    }

    /// A failing reply that still wrote truncated bytes and an address,
    /// as an insufficient-buffer failure does.
    pub fn failure_with_data(code: u32, data: Vec<u8>, addr: WINDIVERT_ADDRESS) -> (r: RecvReply)
        requires
            data.len() <= u32::MAX,
            addr.wf(),
        ensures
            r.wf(),
            !r.success,
            r.code == code,
            r.data@ == data@,
            r.addrs.len() == 1,
            r.addrs[0] == addr,
            r.len == data.len(),
    {
        let len = data.len() as u32;
        RecvReply { success: false, code, data, addrs: vec![addr], len }
    }
}

/// How a bounded wait on the thread's event ended.
#[derive(Debug, Copy, Clone, PartialEq, Eq, Structural)]
pub enum WaitOutcome {
    /// The event signalled before the timeout.
    Signaled,
    /// The timeout expired first.
    TimedOut,
    /// The wait itself failed with the carried OS status code.
    Failed(u32),
}

/// What one overlapped receive reports: the issue call's outcome, the
/// wait's outcome, and the completed reply.
#[derive(Debug)]
pub struct RecvWaitReply {
    /// Whether the issue call reported the operation as pending rather
    /// than completing or failing at once.
    pub pending: bool,
    /// The reply: the immediate one when the issue call completed at
    /// once, or the completed one fetched after the event signals.
    pub reply: RecvReply,
    /// How the wait on the thread's event ended; consulted only when the
    /// issue call reported pending.
    pub wait: WaitOutcome,
}

impl RecvWaitReply {
    /// The carried reply is internally consistent.
    pub open spec fn wf(&self) -> bool {
        self.reply.wf()
    }
}

/// What one send call reports.
#[derive(Debug, Copy, Clone, PartialEq, Eq, Structural)]
pub struct SendReply {
    /// Whether the call returned success.
    pub success: bool,
    /// The OS status code reported on failure.
    pub code: u32,
    /// The byte count the driver reports injected.
    pub len: u32,
}

/// What one parameter call reports.
#[derive(Debug, Copy, Clone, PartialEq, Eq, Structural)]
pub struct ParamReply {
    /// Whether the call returned success.
    pub success: bool,
    /// The OS status code reported on failure.
    pub code: u32,
    /// The value the driver reports, for a get call.
    pub value: u64,
}

/// What one open, shutdown or close call reports.
#[derive(Debug, Copy, Clone, PartialEq, Eq, Structural)]
pub struct ControlReply {
    /// Whether the call returned success.
    pub success: bool,
    /// The OS status code reported on failure.
    pub code: u32,
}

/// One open call as it reached the driver.
#[derive(Debug)]
pub struct OpenCall {
    /// The filter string's bytes, without a terminator.
    pub filter: Vec<u8>,
    /// The layer number.
    pub layer: u32,
    /// The priority.
    pub priority: i16,
    /// The flag word.
    pub flags: u64,
}

/// One send call as it reached the driver: the concatenated payload bytes
/// and the address records, laid out contiguously.
#[derive(Debug)]
pub struct SentBatch {
    /// The concatenated payload buffer.
    pub data: Vec<u8>,
    /// The address records, one per packet.
    pub addrs: Vec<WINDIVERT_ADDRESS>,
}

/// The deterministic driver model a handle talks to.
///
/// The reply vectors are the script, consumed front to back, one entry
/// per call of its family.  The remaining fields record what reached the
/// driver: call counts, issued cancellations, open parameters, shutdown
/// modes and sent batches.
#[derive(Debug)]
pub struct SimulatedDriver {
    /// Replies for open calls.
    pub open_replies: Vec<ControlReply>,
    /// Replies for plain receive calls, single or batched.
    pub recv_replies: Vec<RecvReply>,
    /// Replies for overlapped receive calls.
    pub recv_wait_replies: Vec<RecvWaitReply>,
    /// Replies for send calls.
    pub send_replies: Vec<SendReply>,
    /// Replies for parameter calls.
    pub param_replies: Vec<ParamReply>,
    /// Replies for shutdown and close calls.
    pub control_replies: Vec<ControlReply>,
    /// Open calls that reached the driver.
    pub opens: Vec<OpenCall>,
    /// Receive calls that reached the driver, waiting ones included.
    pub recv_calls: u64,
    /// Send calls that reached the driver.
    pub send_calls: u64,
    /// Parameter calls that reached the driver.
    pub param_calls: u64,
    /// Cancellations issued for pending overlapped operations.
    pub cancellations: u64,
    /// Shutdown modes that reached the driver.
    pub shutdowns: Vec<u32>,
    /// Close calls that reached the driver.
    pub closes: u64,
    /// Driver uninstalls requested while closing.
    pub uninstall_requests: u64,
    /// Batches handed to the driver by send calls.
    pub sent: Vec<SentBatch>,
}

impl SimulatedDriver {
    /// Every scripted reply is internally consistent.
    pub open spec fn wf(&self) -> bool {
        &&& forall|k: int| 0 <= k < self.recv_replies.len() ==> (#[trigger] self.recv_replies[k]).wf()
        &&& forall|k: int|
            0 <= k < self.recv_wait_replies.len() ==> (#[trigger] self.recv_wait_replies[k]).wf()
    }

    /// A driver with an empty script and no recorded calls.
    pub fn new() -> (r: SimulatedDriver)
        ensures
            r.wf(),
            r.open_replies.len() == 0,
            r.recv_replies.len() == 0,
            r.recv_wait_replies.len() == 0,
            r.send_replies.len() == 0,
            r.param_replies.len() == 0,
            r.control_replies.len() == 0,
            r.opens.len() == 0,
            r.recv_calls == 0,
            r.send_calls == 0,
            r.param_calls == 0,
            r.cancellations == 0,
            r.shutdowns.len() == 0,
            r.closes == 0,
            r.uninstall_requests == 0,
            r.sent.len() == 0,
    {
        SimulatedDriver {
            open_replies: Vec::new(),
            recv_replies: Vec::new(),
            recv_wait_replies: Vec::new(),
            send_replies: Vec::new(),
            param_replies: Vec::new(),
            control_replies: Vec::new(),
            opens: Vec::new(),
            recv_calls: 0,
            send_calls: 0,
            param_calls: 0,
            cancellations: 0,
            shutdowns: Vec::new(),
            closes: 0,
            uninstall_requests: 0,
            sent: Vec::new(),
        }
    }

    /// The records of `pre` and `post` agree, except that one receive
    /// call consumed the head receive reply.
    pub open spec fn spec_recv_step(pre: Self, post: Self) -> bool {
        &&& post.recv_replies@ == pre.recv_replies@.remove(0)
        &&& post.recv_calls == pre.recv_calls + 1
        &&& post.recv_wait_replies == pre.recv_wait_replies
        &&& post.open_replies == pre.open_replies
        &&& post.send_replies == pre.send_replies
        &&& post.param_replies == pre.param_replies
        &&& post.control_replies == pre.control_replies
        &&& post.opens == pre.opens
        &&& post.send_calls == pre.send_calls
        &&& post.param_calls == pre.param_calls
        &&& post.cancellations == pre.cancellations
        &&& post.shutdowns == pre.shutdowns
        &&& post.closes == pre.closes
        &&& post.uninstall_requests == pre.uninstall_requests
        &&& post.sent == pre.sent
    }

    /// The records of `pre` and `post` agree, except that one overlapped
    /// receive call consumed the head waiting reply and, when `cancelled`,
    /// issued one cancellation.
    pub open spec fn spec_recv_wait_step(pre: Self, post: Self, cancelled: bool) -> bool {
        &&& post.recv_wait_replies@ == pre.recv_wait_replies@.remove(0)
        &&& post.recv_calls == pre.recv_calls + 1
        &&& post.cancellations == pre.cancellations + (if cancelled { 1int } else { 0int })
        &&& post.recv_replies == pre.recv_replies
        &&& post.open_replies == pre.open_replies
        &&& post.send_replies == pre.send_replies
        &&& post.param_replies == pre.param_replies
        &&& post.control_replies == pre.control_replies
        &&& post.opens == pre.opens
        &&& post.send_calls == pre.send_calls
        &&& post.param_calls == pre.param_calls
        &&& post.shutdowns == pre.shutdowns
        &&& post.closes == pre.closes
        &&& post.uninstall_requests == pre.uninstall_requests
        &&& post.sent == pre.sent
    }

    /// The records of `pre` and `post` agree, except that one send call
    /// consumed the head send reply and handed the driver one batch.
    pub open spec fn spec_send_step(pre: Self, post: Self, batch_data: Seq<u8>, addr_count: int) -> bool {
        &&& post.send_replies@ == pre.send_replies@.remove(0)
        &&& post.send_calls == pre.send_calls + 1
        &&& post.sent.len() == pre.sent.len() + 1
        &&& post.sent@.take(pre.sent.len() as int) == pre.sent@
        &&& post.sent[pre.sent.len() as int].data@ == batch_data
        &&& post.sent[pre.sent.len() as int].addrs.len() == addr_count
        &&& post.recv_replies == pre.recv_replies
        &&& post.recv_wait_replies == pre.recv_wait_replies
        &&& post.open_replies == pre.open_replies
        &&& post.param_replies == pre.param_replies
        &&& post.control_replies == pre.control_replies
        &&& post.opens == pre.opens
        &&& post.recv_calls == pre.recv_calls
        &&& post.param_calls == pre.param_calls
        &&& post.cancellations == pre.cancellations
        &&& post.shutdowns == pre.shutdowns
        &&& post.closes == pre.closes
        &&& post.uninstall_requests == pre.uninstall_requests
    }

    /// The records of `pre` and `post` agree, except that one parameter
    /// call consumed the head parameter reply.
    pub open spec fn spec_param_step(pre: Self, post: Self) -> bool {
        &&& post.param_replies@ == pre.param_replies@.remove(0)
        &&& post.param_calls == pre.param_calls + 1
        &&& post.recv_replies == pre.recv_replies
        &&& post.recv_wait_replies == pre.recv_wait_replies
        &&& post.open_replies == pre.open_replies
        &&& post.send_replies == pre.send_replies
        &&& post.control_replies == pre.control_replies
        &&& post.opens == pre.opens
        &&& post.recv_calls == pre.recv_calls
        &&& post.send_calls == pre.send_calls
        &&& post.cancellations == pre.cancellations
        &&& post.shutdowns == pre.shutdowns
        &&& post.closes == pre.closes
        &&& post.uninstall_requests == pre.uninstall_requests
        &&& post.sent == pre.sent
    }


    /// The records of `pre` and `post` agree, except that one open call
    /// consumed the head open reply and was recorded with its parameters.
    pub open spec fn spec_open_step(
        pre: Self,
        post: Self,
        filter: Seq<u8>,
        layer: u32,
        priority: i16,
        flags: u64,
    ) -> bool {
        &&& post.open_replies@ == pre.open_replies@.remove(0)
        &&& post.opens.len() == pre.opens.len() + 1
        &&& post.opens@.take(pre.opens.len() as int) == pre.opens@
        &&& post.opens[pre.opens.len() as int].filter@ == filter
        &&& post.opens[pre.opens.len() as int].layer == layer
        &&& post.opens[pre.opens.len() as int].priority == priority
        &&& post.opens[pre.opens.len() as int].flags == flags
        &&& post.recv_replies == pre.recv_replies
        &&& post.recv_wait_replies == pre.recv_wait_replies
        &&& post.send_replies == pre.send_replies
        &&& post.param_replies == pre.param_replies
        &&& post.control_replies == pre.control_replies
        &&& post.recv_calls == pre.recv_calls
        &&& post.send_calls == pre.send_calls
        &&& post.param_calls == pre.param_calls
        &&& post.cancellations == pre.cancellations
        &&& post.shutdowns == pre.shutdowns
        &&& post.closes == pre.closes
        &&& post.uninstall_requests == pre.uninstall_requests
        &&& post.sent == pre.sent
    }

    /// The records of `pre` and `post` agree, except that one shutdown
    /// call consumed the head control reply and recorded its mode.
    pub open spec fn spec_shutdown_step(pre: Self, post: Self, mode: u32) -> bool {
        &&& post.control_replies@ == pre.control_replies@.remove(0)
        &&& post.shutdowns@ == pre.shutdowns@.push(mode)
        &&& post.open_replies == pre.open_replies
        &&& post.recv_replies == pre.recv_replies
        &&& post.recv_wait_replies == pre.recv_wait_replies
        &&& post.send_replies == pre.send_replies
        &&& post.param_replies == pre.param_replies
        &&& post.opens == pre.opens
        &&& post.recv_calls == pre.recv_calls
        &&& post.send_calls == pre.send_calls
        &&& post.param_calls == pre.param_calls
        &&& post.cancellations == pre.cancellations
        &&& post.closes == pre.closes
        &&& post.uninstall_requests == pre.uninstall_requests
        &&& post.sent == pre.sent
    }

    /// The records of `pre` and `post` agree, except that one close call
    /// consumed the head control reply and, when `uninstall`, requested a
    /// driver uninstall.
    pub open spec fn spec_close_step(pre: Self, post: Self, uninstall: bool) -> bool {
        &&& post.control_replies@ == pre.control_replies@.remove(0)
        &&& post.closes == pre.closes + 1
        &&& post.uninstall_requests == pre.uninstall_requests + (if uninstall {
            1int
        } else {
            0int
        })
        &&& post.open_replies == pre.open_replies
        &&& post.recv_replies == pre.recv_replies
        &&& post.recv_wait_replies == pre.recv_wait_replies
        &&& post.send_replies == pre.send_replies
        &&& post.param_replies == pre.param_replies
        &&& post.opens == pre.opens
        &&& post.recv_calls == pre.recv_calls
        &&& post.send_calls == pre.send_calls
        &&& post.param_calls == pre.param_calls
        &&& post.cancellations == pre.cancellations
        &&& post.shutdowns == pre.shutdowns
        &&& post.sent == pre.sent
    }

    /// Nothing reached the driver and the script is unchanged.

    pub open spec fn spec_untouched(pre: Self, post: Self) -> bool {
        post == pre
    }
}

} // verus!
