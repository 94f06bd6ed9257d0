//! Error taxonomy: domain errors and their mapping from OS status codes.
//!
//! Each fallible driver call reports failure through an OS status code.
//! The `try_from` functions below classify a code into a typed error when
//! it names a known condition for that call family, and hand the code
//! back unmodified otherwise, so no information is lost.

use vstd::prelude::*;

use crate::newtypes::WinDivertParam;

verus! {

/// OS status code reported when a captured packet exceeds the buffer.
pub const ERROR_INSUFFICIENT_BUFFER: u32 = 122;

/// OS status code reported when the handle is shut down and drained.
pub const ERROR_NO_DATA: u32 = 232;

/// OS status code reported when an injected impostor packet's TTL expired.
pub const ERROR_HOST_UNREACHABLE: u32 = 1232;

/// OS status code reported when an overlapped call is still in flight.
pub const ERROR_IO_PENDING: u32 = 997;

/// Error for unexpected integers in value conversions.
///
/// Carries the integer the driver reported, which matched no known value
/// of the named enum.
#[derive(Debug, Copy, Clone, PartialEq, Eq, Structural)]
pub enum WinDivertValueError {
    /// Unexpected value for a layer.
    Layer(u32),
    /// Unexpected value for an event.
    Event(u8),
    /// Unexpected value for a parameter.
    Parameter(u32),
    /// Unexpected value for a shutdown mode.
    Shutdown(u32),
}

/// Possible errors when opening a handle.
#[derive(Debug, Copy, Clone, PartialEq, Eq, Structural)]
pub enum WinDivertOpenError {
    /// The driver file was not found.
    MissingSYS,
    /// The calling application lacks the required access rights.
    AccessDenied,
    /// Invalid filter string, layer, priority, or flags.
    InvalidParameter,
    /// The driver file does not have a valid digital signature.
    InvalidImageHash,
    /// An incompatible version of the driver is currently loaded.
    IncompatibleVersion,
    /// The handle was opened with the no-installs flag and the driver is
    /// not already installed.
    MissingInstall,
    /// The driver is blocked by security software or by a virtualization
    /// environment without driver support.
    DriverBlocked,
    /// The base filtering engine service is disabled.
    BaseFilteringEngineDisabled,
}

impl WinDivertOpenError {
    /// The classification this family applies to an OS status code.
    pub open spec fn spec_from_code(code: u32) -> Result<WinDivertOpenError, u32> {
        if code == 2 {
            Ok(WinDivertOpenError::MissingSYS)
        } else if code == 5 {
            Ok(WinDivertOpenError::AccessDenied)
        } else if code == 87 {
            Ok(WinDivertOpenError::InvalidParameter)
        } else if code == 577 {
            Ok(WinDivertOpenError::InvalidImageHash)
        } else if code == 654 {
            Ok(WinDivertOpenError::IncompatibleVersion)
        } else if code == 1060 {
            Ok(WinDivertOpenError::MissingInstall)
        } else if code == 1257 {
            Ok(WinDivertOpenError::DriverBlocked)
        } else if code == 1753 {
            Ok(WinDivertOpenError::BaseFilteringEngineDisabled)
        } else {
            Err(code)
        }
    }

    /// Classifies an OS status code from a failed open call; an
    /// unrecognized code is returned unchanged.
    pub fn try_from(code: u32) -> (r: Result<WinDivertOpenError, u32>)
        ensures
            r == WinDivertOpenError::spec_from_code(code),
    {
        match code {
            2 => Ok(WinDivertOpenError::MissingSYS),
            5 => Ok(WinDivertOpenError::AccessDenied),
            87 => Ok(WinDivertOpenError::InvalidParameter),
            577 => Ok(WinDivertOpenError::InvalidImageHash),
            654 => Ok(WinDivertOpenError::IncompatibleVersion),
            1060 => Ok(WinDivertOpenError::MissingInstall),
            1257 => Ok(WinDivertOpenError::DriverBlocked),
            1753 => Ok(WinDivertOpenError::BaseFilteringEngineDisabled),
            _ => Err(code),
        }
    }
}

/// Possible errors when receiving.
#[derive(Debug, Copy, Clone, PartialEq, Eq, Structural)]
pub enum WinDivertRecvError {
    /// The captured packet is larger than the provided buffer; the
    /// address record is still valid.  Recoverable.
    InsufficientBuffer,
    /// The handle has been shut down and the packet queue is empty.
    /// Terminal for that handle.
    NoData,
}

impl WinDivertRecvError {
    /// The classification this family applies to an OS status code.
    pub open spec fn spec_from_code(code: u32) -> Result<WinDivertRecvError, u32> {
        if code == ERROR_INSUFFICIENT_BUFFER {
            Ok(WinDivertRecvError::InsufficientBuffer)
        } else if code == ERROR_NO_DATA {
            Ok(WinDivertRecvError::NoData)
        } else {
            Err(code)
        }
    }

    /// Classifies an OS status code from a failed receive call; an
    /// unrecognized code is returned unchanged.
    pub fn try_from(code: u32) -> (r: Result<WinDivertRecvError, u32>)
        ensures
            r == WinDivertRecvError::spec_from_code(code),
    {
        match code {
            ERROR_INSUFFICIENT_BUFFER => Ok(WinDivertRecvError::InsufficientBuffer),
            ERROR_NO_DATA => Ok(WinDivertRecvError::NoData),
            _ => Err(code),
        }
    }
}

/// Possible errors when sending.
#[derive(Debug, Copy, Clone, PartialEq, Eq, Structural)]
pub enum WinDivertSendError {
    /// More packets were handed to a batched send than the driver's batch
    /// maximum.  Raised locally, before any driver call.
    TooManyPackets,
    /// The TTL of an injected impostor packet reached zero.
    HostUnrachable,
}

impl WinDivertSendError {
    /// The classification this family applies to an OS status code.
    pub open spec fn spec_from_code(code: u32) -> Result<WinDivertSendError, u32> {
        if code == ERROR_HOST_UNREACHABLE {
            Ok(WinDivertSendError::HostUnrachable)
        } else {
            Err(code)
        }
    }

    /// Classifies an OS status code from a failed send call; an
    /// unrecognized code is returned unchanged.
    pub fn try_from(code: u32) -> (r: Result<WinDivertSendError, u32>)
        ensures
            r == WinDivertSendError::spec_from_code(code),
    {
        match code {
            ERROR_HOST_UNREACHABLE => Ok(WinDivertSendError::HostUnrachable),
            _ => Err(code),
        }
    }
}

/// Aggregate error type surfaced by every fallible operation.
#[derive(Debug, Copy, Clone, PartialEq, Eq, Structural)]
pub enum WinDivertError {
    /// Unexpected value in type conversions.
    Value(WinDivertValueError),
    /// Specific errors for handle constructors.
    Open(WinDivertOpenError),
    /// Specific errors for receive calls.
    Recv(WinDivertRecvError),
    /// Specific errors for send calls.
    Send(WinDivertSendError),
    /// The filter string holds a nul byte at the carried position.
    NullError(usize),
    /// Generic OS error, carrying the unrecognized status code.
    OSError(u32),
    /// A read-only parameter was named in a set call, with the value.
    Parameter(WinDivertParam, u64),
    /// A bounded wait expired before the operation completed.
    Timeout,
    /// A batched receive found a packet whose own header declares a
    /// length inconsistent with the received buffer.
    MalformedPacket,
}

/// The error a receive call surfaces for a failing OS status code:
/// the typed variant for the two known codes, the raw code otherwise.
pub open spec fn spec_recv_failure(code: u32) -> WinDivertError {
    match WinDivertRecvError::spec_from_code(code) {
        Ok(e) => WinDivertError::Recv(e),
        Err(c) => WinDivertError::OSError(c),
    }
}

/// Maps a failing receive call's OS status code to the surfaced error.
pub fn recv_failure(code: u32) -> (r: WinDivertError)
    ensures
        r == spec_recv_failure(code),
{
    match WinDivertRecvError::try_from(code) {
        Ok(e) => WinDivertError::Recv(e),
        Err(c) => WinDivertError::OSError(c),
    }
}

/// The error a send call surfaces for a failing OS status code.
pub open spec fn spec_send_failure(code: u32) -> WinDivertError {
    match WinDivertSendError::spec_from_code(code) {
        Ok(e) => WinDivertError::Send(e),
        Err(c) => WinDivertError::OSError(c),
    }
}

/// Maps a failing send call's OS status code to the surfaced error.
pub fn send_failure(code: u32) -> (r: WinDivertError)
    ensures
        r == spec_send_failure(code),
{
    match WinDivertSendError::try_from(code) {
        Ok(e) => WinDivertError::Send(e),
        Err(c) => WinDivertError::OSError(c),
    }
}

/// The error an open call surfaces for a failing OS status code.
pub open spec fn spec_open_failure(code: u32) -> WinDivertError {
    match WinDivertOpenError::spec_from_code(code) {
        Ok(e) => WinDivertError::Open(e),
        Err(c) => WinDivertError::OSError(c),
    }
}

/// Maps a failing open call's OS status code to the surfaced error.
pub fn open_failure(code: u32) -> (r: WinDivertError)
    ensures
        r == spec_open_failure(code),
{
    match WinDivertOpenError::try_from(code) {
        Ok(e) => WinDivertError::Open(e),
        Err(c) => WinDivertError::OSError(c),
    }
}


/// Law: the receive classification is exact and lossless — each known
/// status code maps to its variant, and every other code passes through
/// as the generic OS error, unchanged.
pub proof fn lemma_recv_classification_lossless(code: u32)
    ensures
        code == ERROR_INSUFFICIENT_BUFFER ==> spec_recv_failure(code) == WinDivertError::Recv(
            WinDivertRecvError::InsufficientBuffer,
        ),
        code == ERROR_NO_DATA ==> spec_recv_failure(code) == WinDivertError::Recv(
            WinDivertRecvError::NoData,
        ),
        code != ERROR_INSUFFICIENT_BUFFER && code != ERROR_NO_DATA ==> spec_recv_failure(code)
            == WinDivertError::OSError(code),
{
}

/// Law: the send classification is exact and lossless in the same way.
pub proof fn lemma_send_classification_lossless(code: u32)
    ensures
        code == ERROR_HOST_UNREACHABLE ==> spec_send_failure(code) == WinDivertError::Send(
            WinDivertSendError::HostUnrachable,
        ),
        code != ERROR_HOST_UNREACHABLE ==> spec_send_failure(code) == WinDivertError::OSError(
            code,
        ),
{
}

/// Law: the open classification is exact and lossless: the eight known
/// codes map to their variants and every other code passes through.
pub proof fn lemma_open_classification_lossless(code: u32)
    ensures
        WinDivertOpenError::spec_from_code(code) is Ok <==> (code == 2 || code == 5 || code == 87
            || code == 577 || code == 654 || code == 1060 || code == 1257 || code == 1753),
        WinDivertOpenError::spec_from_code(code) is Err ==> spec_open_failure(code)
            == WinDivertError::OSError(code),
{
}

} // verus!
