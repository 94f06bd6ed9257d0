//! Fluent builder for a handle's open parameters.

use vstd::prelude::*;

use super::{spec_open_result, WinDivert};
use crate::driver::SimulatedDriver;
use crate::error::WinDivertError;
use crate::layer::WinDivertLayerTrait;
use crate::newtypes::{WinDivertFlags, WinDivertLayer};
use crate::utils::spec_nul_pos;

verus! {

/// Collects a filter, layer, priority and flags before opening a handle.
#[derive(Debug)]
pub struct WinDivertBuilder {
    /// The filter string's bytes.
    pub filter: Vec<u8>,
    /// The layer to open on.
    pub layer: WinDivertLayer,
    /// The priority to open with.
    pub priority: i16,
    /// The flag word to open with.
    pub flags: WinDivertFlags,
}

impl WinDivertBuilder {
    /// A builder for the given filter and layer, with zero priority and
    /// no flags.
    pub fn new(filter: Vec<u8>, layer: WinDivertLayer) -> (r: WinDivertBuilder)
        ensures
            r.filter@ == filter@,
            r.layer == layer,
            r.priority == 0,
            r.flags@ == 0u64,
    {
        WinDivertBuilder { filter, layer, priority: 0, flags: WinDivertFlags::new() }
    }

    /// Priority setter.
    pub fn priority(self, priority: i16) -> (r: Self)
        ensures
            r.filter@ == self.filter@,
            r.layer == self.layer,
            r.priority == priority,
            r.flags == self.flags,
    {
        Self { priority, ..self }
    }

    /// Flags setter.
    pub fn flags(self, flags: WinDivertFlags) -> (r: Self)
        ensures
            r.filter@ == self.filter@,
            r.layer == self.layer,
            r.priority == self.priority,
            r.flags == flags,
    {
        Self { flags, ..self }
    }

    /// Opens a handle with the collected parameters against the given
    /// driver.  The layer marker must name the layer the builder holds.
    pub fn build<L: WinDivertLayerTrait>(self, driver: SimulatedDriver) -> (r: Result<
        WinDivert<L>,
        WinDivertError,
    >)
        requires
            driver.wf(),
            L::layer_value() == Some(self.layer),
            spec_nul_pos(self.filter@, 0, self.filter.len() as int) is None
                ==> driver.open_replies.len() >= 1,
        ensures
            spec_open_result(
                driver,
                self.filter@,
                self.layer.spec_value(),
                self.priority,
                self.flags@,
                r,
            ),
    {
        WinDivert::<L>::open_bytes(driver, self.filter, self.layer, self.priority, self.flags)
    }
}

} // verus!
