use windivert::address::{WinDivertAddress, WINDIVERT_ADDRESS};
use windivert::divert::{CloseAction, WinDivert, WinDivertBuilder};
use windivert::driver::{
    ControlReply, ParamReply, RecvReply, RecvWaitReply, SendReply, SimulatedDriver, WaitOutcome,
};
use windivert::error::{WinDivertError, WinDivertRecvError, WinDivertSendError};
use windivert::layer::{FlowLayer, NetworkLayer, ReflectLayer, SocketLayer};
use windivert::newtypes::{
    WinDivertEvent, WinDivertFlags, WinDivertLayer, WinDivertParam, WinDivertShutdownMode,
};
use windivert::packet::{PacketEither, WinDivertPacket};
use windivert::tls::TlsIndex;

/// A fixed 20-byte IPv4 ping packet: version 4, header length 5, total
/// length 20, TTL 64, ICMP protocol.
fn echo_request() -> Vec<u8> {
    vec![
        0x45, 0x00, 0x00, 0x14, 0x00, 0x01, 0x00, 0x00, 0x40, 0x01, 0x00, 0x00, 0x7f, 0x00, 0x00,
        0x01, 0x7f, 0x00, 0x00, 0x02,
    ]
}

/// An IPv4 packet of the given total length (at least twenty bytes).
fn ipv4_packet(total_len: usize) -> Vec<u8> {
    let mut p = echo_request();
    p[2] = ((total_len / 0x100) % 0x100) as u8;
    p[3] = (total_len % 0x100) as u8;
    while p.len() < total_len {
        p.push(0xAB);
    }
    p
}

fn opened_network(driver: SimulatedDriver) -> WinDivert<NetworkLayer> {
    let mut driver = driver;
    driver.open_replies.push(ControlReply { success: true, code: 0 });
    WinDivert::network(driver, "true", 0, WinDivertFlags::new()).unwrap()
}

#[test]
fn get_event_twice_returns_same_event() {
    let tls = TlsIndex::alloc_tls();
    assert!(tls.is_ok());
    let mut tls = tls.unwrap();
    let event_a = tls.get_or_init_event();
    let event_b = tls.get_or_init_event();
    assert_eq!(event_a, event_b);
}

#[test]
fn recv_ok() {
    let mut driver = SimulatedDriver::new();
    driver
        .recv_replies
        .push(RecvReply::packet(echo_request(), WINDIVERT_ADDRESS::default()));
    let mut divert = opened_network(driver);
    let mut buffer = vec![0u8; 1500];
    let packet = divert.recv(&mut buffer);
    assert!(packet.is_ok());
    let packet = packet.unwrap();
    assert_eq!(packet.data[..], echo_request()[..]);
}

#[test]
fn partial_recv_full() {
    let mut driver = SimulatedDriver::new();
    driver
        .recv_replies
        .push(RecvReply::packet(echo_request(), WINDIVERT_ADDRESS::default()));
    let mut divert = opened_network(driver);
    let mut buffer = vec![0u8; 1500];
    let packet = divert.partial_recv(&mut buffer);
    assert!(packet.is_ok());
    let packet = packet.unwrap();
    match packet {
        PacketEither::Partial(_) => assert!(false),
        PacketEither::Full(packet) => {
            assert_eq!(packet.data[..], echo_request()[..]);
        },
    };
}

#[test]
fn partial_recv_partial() {
    let mut driver = SimulatedDriver::new();
    driver.recv_replies.push(RecvReply::failure_with_data(
        122,
        echo_request(),
        WINDIVERT_ADDRESS::default(),
    ));
    let mut divert = opened_network(driver);
    let mut buffer = vec![0u8; echo_request().len() - 10];
    let packet = divert.partial_recv(&mut buffer);
    assert!(packet.is_ok());
    let packet = packet.unwrap();
    match packet {
        PacketEither::Full(_) => assert!(false),
        PacketEither::Partial(partial_packet) => {
            assert_eq!(
                partial_packet.data[..],
                echo_request()[..partial_packet.data.len()]
            );
        },
    };
}

#[test]
fn recv_ex_ok() {
    let count = 5usize;
    let mut data = Vec::new();
    let mut addrs = Vec::new();
    for _ in 0..count {
        data.extend_from_slice(&echo_request());
        addrs.push(WINDIVERT_ADDRESS::default());
    }
    let mut driver = SimulatedDriver::new();
    driver.recv_replies.push(RecvReply::batch(data, addrs));
    let mut divert = opened_network(driver);
    let mut buffer = vec![0u8; 1500 * count];
    let packets = divert.recv_ex(&mut buffer, count as u8);
    assert!(packets.is_ok());
    let packets = packets.unwrap();
    assert_eq!(count, packets.len());
    for packet in packets.iter() {
        assert_eq!(packet.data[..], echo_request()[..]);
    }
}

#[test]
fn recv_wait_ok() {
    let mut driver = SimulatedDriver::new();
    driver.recv_wait_replies.push(RecvWaitReply {
        pending: true,
        reply: RecvReply::packet(echo_request(), WINDIVERT_ADDRESS::default()),
        wait: WaitOutcome::Signaled,
    });
    let mut divert = opened_network(driver);
    let mut buffer = vec![0u8; 1500];
    let packet = divert.recv_wait(&mut buffer, 100);
    assert!(packet.is_ok());
    let packet = packet.unwrap();
    assert_eq!(packet.data[..], echo_request()[..]);
}

#[test]
fn recv_ex_wait_ok() {
    let count = 5usize;
    let mut data = Vec::new();
    let mut addrs = Vec::new();
    for _ in 0..count {
        data.extend_from_slice(&echo_request());
        addrs.push(WINDIVERT_ADDRESS::default());
    }
    let mut driver = SimulatedDriver::new();
    driver.recv_wait_replies.push(RecvWaitReply {
        pending: true,
        reply: RecvReply::batch(data, addrs),
        wait: WaitOutcome::Signaled,
    });
    let mut divert = opened_network(driver);
    let mut buffer = vec![0u8; 1500 * count];
    let packets = divert.recv_wait_ex(&mut buffer, count as u8, 100);
    assert!(packets.is_ok());
    let packets = packets.unwrap();
    assert_eq!(count, packets.len());
    for packet in packets.iter() {
        assert_eq!(packet.data[..], echo_request()[..]);
    }
}

#[test]
fn send_ok() {
    let mut driver = SimulatedDriver::new();
    driver.send_replies.push(SendReply {
        success: true,
        code: 0,
        len: echo_request().len() as u32,
    });
    let mut divert = opened_network(driver);
    let packet = WinDivertPacket::<NetworkLayer>::new(echo_request());
    let result = divert.send(&packet);
    assert!(result.is_ok());
    assert_eq!(result.unwrap(), echo_request().len() as u32);
    assert_eq!(divert.driver.sent.len(), 1);
    assert_eq!(divert.driver.sent[0].data[..], echo_request()[..]);
}

#[test]
fn send_ex_ok() {
    let count = 5usize;
    let mut driver = SimulatedDriver::new();
    driver.send_replies.push(SendReply {
        success: true,
        code: 0,
        len: (echo_request().len() * count) as u32,
    });
    let mut divert = opened_network(driver);
    let packets: Vec<_> = (0..count)
        .map(|_| WinDivertPacket::<NetworkLayer>::new(echo_request()))
        .collect();
    let result = divert.send_ex(&packets);
    assert!(result.is_ok());
    assert_eq!(result.unwrap(), (echo_request().len() * count) as u32);
    let mut expected = Vec::new();
    for _ in 0..count {
        expected.extend_from_slice(&echo_request());
    }
    assert_eq!(divert.driver.sent.len(), 1);
    assert_eq!(divert.driver.sent[0].data[..], expected[..]);
    assert_eq!(divert.driver.sent[0].addrs.len(), count);
}

#[test]
fn recv_classifies_insufficient_buffer() {
    let mut driver = SimulatedDriver::new();
    driver.recv_replies.push(RecvReply::failure_with_data(
        122,
        Vec::new(),
        WINDIVERT_ADDRESS::default(),
    ));
    let mut divert = opened_network(driver);
    let mut buffer = vec![0u8; 64];
    let r = divert.recv(&mut buffer);
    assert_eq!(
        r.unwrap_err(),
        WinDivertError::Recv(WinDivertRecvError::InsufficientBuffer)
    );
}

#[test]
fn recv_classifies_no_data() {
    let mut driver = SimulatedDriver::new();
    driver.recv_replies.push(RecvReply::failure(232));
    let mut divert = opened_network(driver);
    let mut buffer = vec![0u8; 64];
    let r = divert.recv(&mut buffer);
    assert_eq!(r.unwrap_err(), WinDivertError::Recv(WinDivertRecvError::NoData));
}

#[test]
fn recv_passes_unknown_codes_through() {
    let mut driver = SimulatedDriver::new();
    driver.recv_replies.push(RecvReply::failure(998));
    let mut divert = opened_network(driver);
    let mut buffer = vec![0u8; 64];
    let r = divert.recv(&mut buffer);
    assert_eq!(r.unwrap_err(), WinDivertError::OSError(998));
}

#[test]
fn partial_recv_other_errors_match_recv() {
    let mut driver = SimulatedDriver::new();
    driver.recv_replies.push(RecvReply::failure(232));
    let mut divert = opened_network(driver);
    let mut buffer = vec![0u8; 64];
    let r = divert.partial_recv(&mut buffer);
    assert_eq!(r.unwrap_err(), WinDivertError::Recv(WinDivertRecvError::NoData));
}

#[test]
fn scenario_network_recv_fixed_ping() {
    let mut driver = SimulatedDriver::new();
    driver.open_replies.push(ControlReply { success: true, code: 0 });
    driver
        .recv_replies
        .push(RecvReply::packet(echo_request(), WINDIVERT_ADDRESS::default()));
    let divert = WinDivert::<NetworkLayer>::network(driver, "true", 0, WinDivertFlags::new());
    assert!(divert.is_ok());
    let mut divert = divert.unwrap();
    let mut buffer = vec![0u8; 1500];
    let packet = divert.recv(&mut buffer).unwrap();
    assert_eq!(packet.data.len(), 20);
    assert_eq!(packet.data[..], echo_request()[..]);
    assert_eq!(packet.address.event(), WinDivertEvent::NetworkPacket);
}

#[test]
fn recv_ex_slices_by_total_length_not_stride() {
    let first = ipv4_packet(20);
    let second = ipv4_packet(28);
    let mut data = first.clone();
    data.extend_from_slice(&second);
    let addrs = vec![WINDIVERT_ADDRESS::default(), WINDIVERT_ADDRESS::default()];
    let mut driver = SimulatedDriver::new();
    driver.recv_replies.push(RecvReply::batch(data, addrs));
    let mut divert = opened_network(driver);
    let mut buffer = vec![0u8; 256];
    let packets = divert.recv_ex(&mut buffer, 2).unwrap();
    assert_eq!(packets.len(), 2);
    assert_eq!(packets[0].data[..], first[..]);
    assert_eq!(packets[1].data[..], second[..]);
}

#[test]
fn recv_ex_malformed_header_is_an_error() {
    let data = vec![0xFFu8; 40];
    let addrs = vec![WINDIVERT_ADDRESS::default()];
    let mut driver = SimulatedDriver::new();
    driver.recv_replies.push(RecvReply::batch(data, addrs));
    let mut divert = opened_network(driver);
    let mut buffer = vec![0u8; 64];
    let packets = divert.recv_ex(&mut buffer, 1);
    assert_eq!(packets.unwrap_err(), WinDivertError::MalformedPacket);
}

#[test]
fn scenario_recv_wait_timeout_cancels() {
    let mut driver = SimulatedDriver::new();
    driver.recv_wait_replies.push(RecvWaitReply {
        pending: true,
        reply: RecvReply::failure(0),
        wait: WaitOutcome::TimedOut,
    });
    let mut divert = opened_network(driver);
    let mut buffer = vec![0u8; 1500];
    let r = divert.recv_wait(&mut buffer, 100);
    assert_eq!(r.unwrap_err(), WinDivertError::Timeout);
    assert_eq!(divert.driver.cancellations, 1);
}

#[test]
fn scenario_send_ex_over_batch_maximum_fails_locally() {
    let driver = SimulatedDriver::new();
    let mut divert = opened_network(driver);
    let packets: Vec<_> = (0..256)
        .map(|_| WinDivertPacket::<NetworkLayer>::new(echo_request()))
        .collect();
    let r = divert.send_ex(&packets);
    assert_eq!(
        r.unwrap_err(),
        WinDivertError::Send(WinDivertSendError::TooManyPackets)
    );
    assert_eq!(divert.driver.send_calls, 0);
    assert_eq!(divert.driver.sent.len(), 0);
}

#[test]
fn scenario_set_param_version_fails_locally_get_succeeds() {
    let mut driver = SimulatedDriver::new();
    driver.param_replies.push(ParamReply { success: true, code: 0, value: 2 });
    let mut divert = opened_network(driver);
    let r = divert.set_param(WinDivertParam::VersionMajor, 7);
    assert_eq!(
        r.unwrap_err(),
        WinDivertError::Parameter(WinDivertParam::VersionMajor, 7)
    );
    assert_eq!(divert.driver.param_calls, 0);
    let v = divert.get_param(WinDivertParam::VersionMajor);
    assert_eq!(v.unwrap(), 2);
    assert_eq!(divert.driver.param_calls, 1);
}

#[test]
fn open_rejects_filter_with_nul_byte() {
    let driver = SimulatedDriver::new();
    let r = WinDivert::<NetworkLayer>::network(driver, "true\0 and tcp", 0, WinDivertFlags::new());
    match r {
        Err(WinDivertError::NullError(p)) => assert_eq!(p, 4),
        _ => assert!(false),
    }
}

#[test]
fn open_classifies_access_denied() {
    let mut driver = SimulatedDriver::new();
    driver.open_replies.push(ControlReply { success: false, code: 5 });
    let r = WinDivert::<NetworkLayer>::network(driver, "true", 0, WinDivertFlags::new());
    match r {
        Err(WinDivertError::Open(e)) => {
            assert_eq!(e, windivert::error::WinDivertOpenError::AccessDenied)
        },
        _ => assert!(false),
    }
}

#[test]
fn flow_open_forces_sniff_and_recv_only() {
    let mut driver = SimulatedDriver::new();
    driver.open_replies.push(ControlReply { success: true, code: 0 });
    let divert = WinDivert::<FlowLayer>::flow(driver, "true", 0, WinDivertFlags::new()).unwrap();
    assert_eq!(divert.driver.opens.len(), 1);
    assert_eq!(divert.driver.opens[0].flags, 0x0005);
    assert_eq!(divert.driver.opens[0].layer, 2);
}

#[test]
fn socket_open_forces_recv_only() {
    let mut driver = SimulatedDriver::new();
    driver.open_replies.push(ControlReply { success: true, code: 0 });
    let divert =
        WinDivert::<SocketLayer>::socket(driver, "true", 0, WinDivertFlags::new()).unwrap();
    assert_eq!(divert.driver.opens[0].flags, 0x0004);
    assert_eq!(divert.driver.opens[0].layer, 3);
}

#[test]
fn flow_recv_has_no_payload() {
    let mut driver = SimulatedDriver::new();
    driver.open_replies.push(ControlReply { success: true, code: 0 });
    let mut addr = WINDIVERT_ADDRESS::default();
    addr.set_event(windivert::newtypes::WinDivertEvent::FlowStablished);
    driver.recv_replies.push(RecvReply::packet(Vec::new(), addr));
    let mut divert = WinDivert::<FlowLayer>::flow(driver, "true", 0, WinDivertFlags::new()).unwrap();
    let packet = divert.recv().unwrap();
    assert_eq!(packet.data.len(), 0);
    assert_eq!(packet.address.event(), WinDivertEvent::FlowStablished);
}

#[test]
fn reflect_recv_ex_splits_on_nul() {
    let mut data = Vec::new();
    data.extend_from_slice(b"true\0");
    data.extend_from_slice(b"ip and tcp\0");
    let addrs = vec![WINDIVERT_ADDRESS::default(), WINDIVERT_ADDRESS::default()];
    let mut driver = SimulatedDriver::new();
    driver.open_replies.push(ControlReply { success: true, code: 0 });
    driver.recv_replies.push(RecvReply::batch(data, addrs));
    let mut divert =
        WinDivert::<ReflectLayer>::reflect(driver, "true", 0, WinDivertFlags::new()).unwrap();
    let mut buffer = vec![0u8; 64];
    let packets = divert.recv_ex(&mut buffer, 2).unwrap();
    assert_eq!(packets.len(), 2);
    assert_eq!(packets[0].data[..], b"true"[..]);
    assert_eq!(packets[1].data[..], b"ip and tcp"[..]);
}

#[test]
fn shutdown_records_mode() {
    let mut driver = SimulatedDriver::new();
    driver.control_replies.push(ControlReply { success: true, code: 0 });
    let mut divert = opened_network(driver);
    let r = divert.shutdown(WinDivertShutdownMode::Both);
    assert!(r.is_ok());
    assert_eq!(divert.driver.shutdowns, vec![3u32]);
}

#[test]
fn close_with_uninstall_requests_uninstall() {
    let mut driver = SimulatedDriver::new();
    driver.control_replies.push(ControlReply { success: true, code: 0 });
    let divert = opened_network(driver);
    let (r, driver) = divert.close(CloseAction::Uninstall);
    assert!(r.is_ok());
    assert_eq!(driver.closes, 1);
    assert_eq!(driver.uninstall_requests, 1);
}

#[test]
fn builder_collects_parameters() {
    let builder = WinDivertBuilder::new(b"true".to_vec(), WinDivertLayer::Network)
        .priority(17)
        .flags(WinDivertFlags::new().set_sniff());
    assert_eq!(builder.priority, 17);
    assert_eq!(builder.filter, b"true".to_vec());
    let mut driver = SimulatedDriver::new();
    driver.open_replies.push(ControlReply { success: true, code: 0 });
    let divert: WinDivert<NetworkLayer> = builder.build(driver).unwrap();
    assert_eq!(divert.driver.opens[0].priority, 17);
    assert_eq!(divert.driver.opens[0].flags, 0x0001);
}

#[test]
fn packet_conversions_keep_payload() {
    let packet = WinDivertPacket::<NetworkLayer>::new(echo_request());
    let owned = packet.into_owned();
    assert_eq!(owned.data[..], echo_request()[..]);
    let either = PacketEither::Full(owned);
    let partial = either.to_partial();
    assert_eq!(partial.data[..], echo_request()[..]);
    let either = PacketEither::Partial(partial);
    let full = either.to_full();
    assert_eq!(full.data[..], echo_request()[..]);
}

#[test]
fn send_classifies_host_unreachable() {
    let mut driver = SimulatedDriver::new();
    driver.send_replies.push(SendReply { success: false, code: 1232, len: 0 });
    let mut divert = opened_network(driver);
    let packet = WinDivertPacket::<NetworkLayer>::new(echo_request());
    let r = divert.send(&packet);
    assert_eq!(
        r.unwrap_err(),
        WinDivertError::Send(WinDivertSendError::HostUnrachable)
    );
}

#[test]
fn recv_wait_failed_wait_is_classified() {
    let mut driver = SimulatedDriver::new();
    driver.recv_wait_replies.push(RecvWaitReply {
        pending: true,
        reply: RecvReply::failure(0),
        wait: WaitOutcome::Failed(232),
    });
    let mut divert = opened_network(driver);
    let mut buffer = vec![0u8; 64];
    let r = divert.recv_wait(&mut buffer, 50);
    assert_eq!(r.unwrap_err(), WinDivertError::Recv(WinDivertRecvError::NoData));
}

#[test]
fn recv_wait_immediate_completion_returns_packet() {
    let mut driver = SimulatedDriver::new();
    driver.recv_wait_replies.push(RecvWaitReply {
        pending: false,
        reply: RecvReply::packet(echo_request(), WINDIVERT_ADDRESS::default()),
        wait: WaitOutcome::TimedOut,
    });
    let mut divert = opened_network(driver);
    let mut buffer = vec![0u8; 1500];
    let packet = divert.recv_wait(&mut buffer, 100).unwrap();
    assert_eq!(packet.data[..], echo_request()[..]);
    assert_eq!(divert.driver.cancellations, 0);
}

#[test]
fn flow_recv_wait_zero_timeout_uses_plain_recv() {
    let mut driver = SimulatedDriver::new();
    driver.open_replies.push(ControlReply { success: true, code: 0 });
    driver
        .recv_replies
        .push(RecvReply::packet(Vec::new(), WINDIVERT_ADDRESS::default()));
    let mut divert = WinDivert::<FlowLayer>::flow(driver, "true", 0, WinDivertFlags::new()).unwrap();
    let packet = divert.recv_wait(0).unwrap();
    assert_eq!(packet.data.len(), 0);
    assert_eq!(divert.driver.recv_replies.len(), 0);
}

#[test]
fn socket_recv_ex_hands_back_one_packet_per_record() {
    let mut driver = SimulatedDriver::new();
    driver.open_replies.push(ControlReply { success: true, code: 0 });
    let mut addr = WINDIVERT_ADDRESS::default();
    addr.set_event(WinDivertEvent::SocketBind);
    let mut addr2 = WINDIVERT_ADDRESS::default();
    addr2.set_event(WinDivertEvent::SocketClose);
    driver
        .recv_replies
        .push(RecvReply::batch(Vec::new(), vec![addr, addr2]));
    let mut divert =
        WinDivert::<SocketLayer>::socket(driver, "true", 0, WinDivertFlags::new()).unwrap();
    let packets = divert.recv_ex(2).unwrap();
    assert_eq!(packets.len(), 2);
    assert_eq!(packets[0].address.event(), WinDivertEvent::SocketBind);
    assert_eq!(packets[1].address.event(), WinDivertEvent::SocketClose);
    assert_eq!(packets[0].data.len(), 0);
}

#[test]
fn reflect_recv_ex_missing_terminator_is_an_error() {
    let data = b"no terminator here".to_vec();
    let addrs = vec![WINDIVERT_ADDRESS::default()];
    let mut driver = SimulatedDriver::new();
    driver.open_replies.push(ControlReply { success: true, code: 0 });
    driver.recv_replies.push(RecvReply::batch(data, addrs));
    let mut divert =
        WinDivert::<ReflectLayer>::reflect(driver, "true", 0, WinDivertFlags::new()).unwrap();
    let mut buffer = vec![0u8; 64];
    let r = divert.recv_ex(&mut buffer, 1);
    assert_eq!(r.unwrap_err(), WinDivertError::MalformedPacket);
}

#[test]
fn get_param_failure_passes_code_through() {
    let mut driver = SimulatedDriver::new();
    driver.param_replies.push(ParamReply { success: false, code: 6, value: 0 });
    let mut divert = opened_network(driver);
    let r = divert.get_param(WinDivertParam::QueueLength);
    assert_eq!(r.unwrap_err(), WinDivertError::OSError(6));
}

#[test]
fn set_param_queue_parameter_reaches_the_driver() {
    let mut driver = SimulatedDriver::new();
    driver.param_replies.push(ParamReply { success: true, code: 0, value: 0 });
    let mut divert = opened_network(driver);
    let r = divert.set_param(WinDivertParam::QueueLength, 8192);
    assert!(r.is_ok());
    assert_eq!(divert.driver.param_calls, 1);
}

#[test]
fn network_address_interface_fields_round_trip() {
    let mut addr = WinDivertAddress::<NetworkLayer>::new();
    addr.set_interface_index(7);
    addr.set_subinterface_index(3);
    assert_eq!(addr.interface_index(), 7);
    assert_eq!(addr.subinterface_index(), 3);
    addr.set_outbound(true);
    addr.set_impostor(true);
    addr.set_ip_checksum(true);
    addr.set_tcp_checksum(true);
    addr.set_udp_checksum(true);
    assert!(addr.outbound());
    assert!(addr.impostor());
    assert!(addr.ip_checksum());
    assert!(addr.tcp_checksum());
    assert!(addr.udp_checksum());
    assert!(!addr.sniffed());
    assert!(!addr.loopback());
    assert!(!addr.ipv6());
    assert_eq!(addr.interface_index(), 7);
}

#[test]
fn flow_address_reads_its_data_block() {
    // The flow data block: endpoint, parent endpoint, process id, the two
    // sixteen-byte addresses, the two ports, and the protocol.
    let mut block = vec![0u8; 64];
    block[0] = 0x11;
    block[8] = 0x22;
    block[16] = 0x33;
    block[20] = 0xAA;
    block[36] = 0xBB;
    block[52] = 0x10;
    block[53] = 0x27;
    block[54] = 0xBB;
    block[55] = 0x01;
    block[56] = 6;
    let mut record = WINDIVERT_ADDRESS::new();
    record.set_event(WinDivertEvent::FlowStablished);
    record.set_data_bytes(&block);
    record.set_timestamp(-5);
    let mut driver = SimulatedDriver::new();
    driver.open_replies.push(ControlReply { success: true, code: 0 });
    driver.recv_replies.push(RecvReply::packet(Vec::new(), record));
    let mut divert = WinDivert::<FlowLayer>::flow(driver, "true", 0, WinDivertFlags::new()).unwrap();
    let packet = divert.recv().unwrap();
    assert_eq!(packet.address.endpoint_id(), 0x11);
    assert_eq!(packet.address.parent_endpoint_id(), 0x22);
    assert_eq!(packet.address.process_id(), 0x33);
    assert_eq!(packet.address.local_port(), 0x2710);
    assert_eq!(packet.address.remote_port(), 0x01BB);
    assert_eq!(packet.address.protocol(), 6);
    assert_eq!(packet.address.local_address_bytes()[0], 0xAA);
    assert_eq!(packet.address.remote_address_bytes()[0], 0xBB);
    assert_eq!(packet.address.event_timestamp(), -5);
}

#[test]
fn reflect_address_reads_its_data_block() {
    // The reflect data block: timestamp, process id, layer, flags,
    // priority.
    let mut block = vec![0u8; 64];
    block[0] = 0x2A;
    block[8] = 0x09;
    block[12] = 4;
    block[16] = 0x05;
    block[24] = 0xFF;
    block[25] = 0xFF;
    let mut record = WINDIVERT_ADDRESS::new();
    record.set_event(WinDivertEvent::ReflectOpen);
    record.set_data_bytes(&block);
    let mut driver = SimulatedDriver::new();
    driver.open_replies.push(ControlReply { success: true, code: 0 });
    driver.recv_replies.push(RecvReply::packet(b"true\0".to_vec(), record));
    let mut divert =
        WinDivert::<ReflectLayer>::reflect(driver, "true", 0, WinDivertFlags::new()).unwrap();
    let mut buffer = vec![0u8; 64];
    let packet = divert.recv(&mut buffer).unwrap();
    assert_eq!(packet.address.timestamp(), 0x2A);
    assert_eq!(packet.address.process_id(), 9);
    assert_eq!(packet.address.layer(), WinDivertLayer::Reflect);
    assert_eq!(packet.address.flags(), 5);
    assert_eq!(packet.address.priority(), -1);
}
