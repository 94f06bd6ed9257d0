//! Control-code request structures shared with the driver.
//!
//! Each request travels to the driver as a fixed packed block of
//! little-endian fields; the wire form of each structure is its fields'
//! bytes in order, with no padding.

use vstd::prelude::*;

verus! {

/// Receive request: the caller's address-record array and the slot the
/// driver reports the filled record count through, both as raw addresses.
#[derive(Debug, Default, Copy, Clone, PartialEq, Eq, Structural)]
pub struct WINDIVERT_IOCTL_RECV {
    /// Address of the caller's address-record array.
    pub addr: u64,
    /// Address of the record-count slot the driver fills.
    pub addr_len_ptr: u64,
}

/// Send request: laid out exactly as the receive request.
#[derive(Debug, Default, Copy, Clone, PartialEq, Eq, Structural)]
pub struct WINDIVERT_IOCTL_SEND {
    /// Address of the caller's address-record array.
    pub addr: u64,
    /// Address of the record-count slot the driver reads.
    pub addr_len_ptr: u64,
}

/// Handle initialization request.
#[derive(Debug, Default, Copy, Clone, PartialEq, Eq, Structural)]
pub struct WINDIVERT_IOCTL_INITIALIZE {
    /// The layer the handle binds to.
    pub layer: u32,
    /// The handle's priority.
    pub priority: u32,
    /// The handle's open-flags word.
    pub flags: u64,
}

/// Handle startup request.
#[derive(Debug, Default, Copy, Clone, PartialEq, Eq, Structural)]
pub struct WINDIVERT_IOCTL_STARTUP {
    /// The handle's open-flags word.
    pub flags: u64,
}

/// Handle shutdown request.
#[derive(Debug, Default, Copy, Clone, PartialEq, Eq, Structural)]
pub struct WINDIVERT_IOCTL_SHUTDOWN {
    /// The shutdown mode.
    pub how: u32,
}

/// Parameter query request.
#[derive(Debug, Default, Copy, Clone, PartialEq, Eq, Structural)]
pub struct WINDIVERT_IOCTL_GET_PARAM {
    /// The parameter number queried.
    pub param: u32,
}

/// Parameter set request.
#[derive(Debug, Default, Copy, Clone, PartialEq, Eq, Structural)]
pub struct WINDIVERT_IOCTL_SET_PARAM {
    /// The value to set.
    pub val: u64,
    /// The parameter number set.
    pub param: u32,
}

} // verus!
