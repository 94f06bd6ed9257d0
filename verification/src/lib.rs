//! User-mode access layer for a kernel packet-diversion driver.
//!
//! A handle is bound to a boolean packet filter and a layer (network,
//! forward, flow, socket, or reflect); the caller then receives matched
//! packets or events and may re-inject or block them.  The crate verifies
//! the core of that access layer: the packed address/header binary
//! layouts, the flag and parameter value types, the error taxonomy that
//! maps OS status codes to domain errors, the layer typestate that gates
//! which operations exist per layer, and the blocking/overlapped receive
//! and send protocol.
//!
//! The kernel driver itself is an outside collaborator.  Its behaviour at
//! the call boundary is captured by [`driver::SimulatedDriver`], a
//! deterministic model of the driver's responses; every engine operation
//! is specified and verified against that model.  A platform shim can run
//! the same verified protocol by feeding real driver responses through
//! the same interface.

pub mod address;
pub mod bitfield;
pub mod divert;
pub mod driver;
pub mod error;
pub mod header;
pub mod ioctl;
pub mod layer;
pub mod newtypes;
pub mod packet;
pub mod prelude;
pub mod service;
pub mod tls;
pub mod utils;
pub mod wire;

use vstd::prelude::*;

verus! {

/// The smaller of two lengths, used throughout the buffer contracts.
pub open spec fn spec_min(a: int, b: int) -> int {
    if a <= b {
        a
    } else {
        b
    }
}

} // verus!
