use windivert::error::{
    open_failure, recv_failure, send_failure, WinDivertError, WinDivertOpenError,
    WinDivertRecvError, WinDivertSendError, WinDivertValueError,
};
use windivert::newtypes::{
    WinDivertEvent, WinDivertLayer, WinDivertParam, WinDivertShutdownMode,
};

#[test]
fn open_error_classification_is_exact() {
    assert_eq!(WinDivertOpenError::try_from(2), Ok(WinDivertOpenError::MissingSYS));
    assert_eq!(WinDivertOpenError::try_from(5), Ok(WinDivertOpenError::AccessDenied));
    assert_eq!(WinDivertOpenError::try_from(87), Ok(WinDivertOpenError::InvalidParameter));
    assert_eq!(WinDivertOpenError::try_from(577), Ok(WinDivertOpenError::InvalidImageHash));
    assert_eq!(WinDivertOpenError::try_from(654), Ok(WinDivertOpenError::IncompatibleVersion));
    assert_eq!(WinDivertOpenError::try_from(1060), Ok(WinDivertOpenError::MissingInstall));
    assert_eq!(WinDivertOpenError::try_from(1257), Ok(WinDivertOpenError::DriverBlocked));
    assert_eq!(
        WinDivertOpenError::try_from(1753),
        Ok(WinDivertOpenError::BaseFilteringEngineDisabled)
    );
    assert_eq!(WinDivertOpenError::try_from(3), Err(3));
    assert_eq!(open_failure(3), WinDivertError::OSError(3));
    assert_eq!(
        open_failure(1060),
        WinDivertError::Open(WinDivertOpenError::MissingInstall)
    );
}

#[test]
fn recv_error_classification_is_exact() {
    assert_eq!(
        WinDivertRecvError::try_from(122),
        Ok(WinDivertRecvError::InsufficientBuffer)
    );
    assert_eq!(WinDivertRecvError::try_from(232), Ok(WinDivertRecvError::NoData));
    assert_eq!(WinDivertRecvError::try_from(999), Err(999));
    assert_eq!(
        recv_failure(122),
        WinDivertError::Recv(WinDivertRecvError::InsufficientBuffer)
    );
    assert_eq!(recv_failure(232), WinDivertError::Recv(WinDivertRecvError::NoData));
    assert_eq!(recv_failure(999), WinDivertError::OSError(999));
}

#[test]
fn send_error_classification_is_exact() {
    assert_eq!(
        WinDivertSendError::try_from(1232),
        Ok(WinDivertSendError::HostUnrachable)
    );
    assert_eq!(WinDivertSendError::try_from(5), Err(5));
    assert_eq!(
        send_failure(1232),
        WinDivertError::Send(WinDivertSendError::HostUnrachable)
    );
    assert_eq!(send_failure(5), WinDivertError::OSError(5));
}

#[test]
fn layer_conversions_round_trip() {
    assert_eq!(WinDivertLayer::try_from(0), Ok(WinDivertLayer::Network));
    assert_eq!(WinDivertLayer::try_from(1), Ok(WinDivertLayer::Forward));
    assert_eq!(WinDivertLayer::try_from(2), Ok(WinDivertLayer::Flow));
    assert_eq!(WinDivertLayer::try_from(3), Ok(WinDivertLayer::Socket));
    assert_eq!(WinDivertLayer::try_from(4), Ok(WinDivertLayer::Reflect));
    assert_eq!(WinDivertLayer::try_from(5), Err(WinDivertValueError::Layer(5)));
    assert_eq!(WinDivertLayer::Reflect.as_u8(), 4);
    assert_eq!(WinDivertLayer::Socket.as_u32(), 3);
}

#[test]
fn event_conversions_round_trip() {
    for v in 0u8..10u8 {
        let event = WinDivertEvent::try_from(v).unwrap();
        assert_eq!(event.as_u8(), v);
        assert_eq!(event.as_u32(), v as u32);
    }
    assert_eq!(WinDivertEvent::try_from(10), Err(WinDivertValueError::Event(10)));
    assert_eq!(WinDivertEvent::SocketClose.as_u8(), 7);
    assert_eq!(WinDivertEvent::ReflectOpen.as_u8(), 8);
}

#[test]
fn shutdown_conversions_round_trip() {
    assert_eq!(WinDivertShutdownMode::try_from(1), Ok(WinDivertShutdownMode::Recv));
    assert_eq!(WinDivertShutdownMode::try_from(2), Ok(WinDivertShutdownMode::Send));
    assert_eq!(WinDivertShutdownMode::try_from(3), Ok(WinDivertShutdownMode::Both));
    assert_eq!(
        WinDivertShutdownMode::try_from(0),
        Err(WinDivertValueError::Shutdown(0))
    );
    assert_eq!(
        WinDivertShutdownMode::try_from(4),
        Err(WinDivertValueError::Shutdown(4))
    );
    assert_eq!(WinDivertShutdownMode::Both.as_u32(), 3);
}

#[test]
fn param_conversions_round_trip() {
    assert_eq!(WinDivertParam::try_from(0), Ok(WinDivertParam::QueueLength));
    assert_eq!(WinDivertParam::try_from(1), Ok(WinDivertParam::QueueTime));
    assert_eq!(WinDivertParam::try_from(2), Ok(WinDivertParam::QueueSize));
    assert_eq!(WinDivertParam::try_from(3), Ok(WinDivertParam::VersionMajor));
    assert_eq!(WinDivertParam::try_from(4), Ok(WinDivertParam::VersionMinor));
    assert_eq!(WinDivertParam::try_from(5), Err(WinDivertValueError::Parameter(5)));
    assert_eq!(WinDivertParam::QueueSize.as_u32(), 2);
}
