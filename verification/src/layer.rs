//! Marker types for the layer typestate.
//!
//! Each handle is parameterised by one of these markers; operations that a
//! layer does not support simply do not exist on that instantiation, so a
//! wrong call fails to compile instead of failing at run time.

use vstd::prelude::*;

use crate::newtypes::WinDivertLayer;

verus! {

/// Network type for typestate pattern.
#[derive(Debug, Clone, Copy)]
pub struct NetworkLayer;

/// Forward type for typestate pattern.
#[derive(Debug, Clone, Copy)]
pub struct ForwardLayer;

/// Flow type for typestate pattern.
#[derive(Debug, Clone, Copy)]
pub struct FlowLayer;

/// Socket type for typestate pattern.
#[derive(Debug, Clone, Copy)]
pub struct SocketLayer;

/// Reflect type for typestate pattern.
#[derive(Debug, Clone, Copy)]
pub struct ReflectLayer;

/// Seals [`WinDivertLayerTrait`] to the closed set of markers above.
pub trait Sealed {

}

/// Trait for typestate pattern.
///
/// `layer_value` names the driver layer a marker stands for; it is `None`
/// only for `()`, the marker of a handle whose layer is chosen at run time.
pub trait WinDivertLayerTrait: Sealed + core::fmt::Debug + core::clone::Clone {
    /// The driver layer this marker stands for, if fixed at compile time.
    spec fn layer_value() -> Option<WinDivertLayer>;

    /// True for the layers whose events carry a payload buffer.
    spec fn spec_captures_data() -> bool;

    /// Utility method to identify data capturing layers in the typestate.
    fn captures_data() -> (r: bool)
        ensures
            r == Self::spec_captures_data(),
    ;
}

impl Sealed for NetworkLayer {

}

impl Sealed for ForwardLayer {

}

impl Sealed for FlowLayer {

}

impl Sealed for SocketLayer {

}

impl Sealed for ReflectLayer {

}

impl WinDivertLayerTrait for NetworkLayer {
    open spec fn layer_value() -> Option<WinDivertLayer> {
        Some(WinDivertLayer::Network)
    }

    open spec fn spec_captures_data() -> bool {
        true
    }

    fn captures_data() -> (r: bool) {
        true
    }
}

impl WinDivertLayerTrait for ForwardLayer {
    open spec fn layer_value() -> Option<WinDivertLayer> {
        Some(WinDivertLayer::Forward)
    }

    open spec fn spec_captures_data() -> bool {
        true
    }

    fn captures_data() -> (r: bool) {
        true
    }
}

impl WinDivertLayerTrait for FlowLayer {
    open spec fn layer_value() -> Option<WinDivertLayer> {
        Some(WinDivertLayer::Flow)
    }

    open spec fn spec_captures_data() -> bool {
        false
    }

    fn captures_data() -> (r: bool) {
        false
    }
}

impl WinDivertLayerTrait for SocketLayer {
    open spec fn layer_value() -> Option<WinDivertLayer> {
        Some(WinDivertLayer::Socket)
    }

    open spec fn spec_captures_data() -> bool {
        false
    }

    fn captures_data() -> (r: bool) {
        false
    }
}

impl WinDivertLayerTrait for ReflectLayer {
    open spec fn layer_value() -> Option<WinDivertLayer> {
        Some(WinDivertLayer::Reflect)
    }

    open spec fn spec_captures_data() -> bool {
        true
    }

    fn captures_data() -> (r: bool) {
        true
    }
}

} // verus!
