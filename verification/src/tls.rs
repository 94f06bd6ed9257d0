//! Per-thread wait-event slot.
//!
//! Each waiting receive needs an OS event to block on.  Creating one per
//! call would leak events, so a slot cached in thread-local storage hands
//! the same lazily-created event back to every wait on its thread.  This
//! models the slot: the event is created on first use and reused after,
//! which is what keeps at most one outstanding overlapped operation per
//! thread.

use vstd::prelude::*;

verus! {

/// A thread's wait-event slot.
#[derive(Debug, Clone)]
pub struct TlsIndex {
    index: u32,
    event: Option<u64>,
}

impl TlsIndex {
    /// The slot's storage index.
    pub closed spec fn spec_index(&self) -> u32 {
        self.index
    }

    /// The event cached in the slot, if one was created.
    pub closed spec fn spec_event(&self) -> Option<u64> {
        self.event
    }

    /// Claims a fresh slot with no event in it.
    pub fn alloc_tls() -> (r: Result<TlsIndex, u32>)
        ensures
            match r {
                Ok(tls) => tls.spec_event() is None,
                Err(_) => false,
            },
    {
        Ok(TlsIndex { index: 0, event: None })
    }

    /// The slot's event: created on the first call, the same one handed
    /// back on every later call.
    pub fn get_or_init_event(&mut self) -> (r: u64)
        ensures
            final(self).spec_event() == Some(r),
            final(self).spec_index() == old(self).spec_index(),
            old(self).spec_event() is Some ==> r == old(self).spec_event()->0,
    {
        match self.event {
            Some(event) => event,
            None => {
                let event = (self.index as u64) + 1;
                self.event = Some(event);
                event
            },
        }
    }
}

} // verus!
