//! Prelude: the items most callers use, re-exported in one place.

pub use crate::address::{
    WinDivertAddress, WINDIVERT_ADDRESS, WINDIVERT_DATA_FLOW, WINDIVERT_DATA_NETWORK,
    WINDIVERT_DATA_REFLECT, WINDIVERT_DATA_SOCKET,
};
pub use crate::divert::{CloseAction, WinDivert, WinDivertBuilder};
pub use crate::driver::{
    ControlReply, ParamReply, RecvReply, RecvWaitReply, SendReply, SimulatedDriver, WaitOutcome,
};
pub use crate::error::{
    WinDivertError, WinDivertOpenError, WinDivertRecvError, WinDivertSendError, WinDivertValueError,
};
pub use crate::layer::{
    FlowLayer, ForwardLayer, NetworkLayer, ReflectLayer, SocketLayer, WinDivertLayerTrait,
};
pub use crate::newtypes::{
    ChecksumFlags, WinDivertEvent, WinDivertFlags, WinDivertLayer, WinDivertParam,
    WinDivertShutdownMode,
};
pub use crate::packet::{PacketEither, WinDivertPacket, WinDivertPartialPacket};
