use windivert::address::WINDIVERT_ADDRESS;
use windivert::bitfield::BitfieldUnit;
use windivert::header::{
    WINDIVERT_ICMPHDR, WINDIVERT_ICMPV6HDR, WINDIVERT_IPHDR, WINDIVERT_IPV6HDR, WINDIVERT_TCPHDR,
    WINDIVERT_UDPHDR,
};
use windivert::newtypes::{WinDivertEvent, WinDivertLayer};

#[test]
fn bitfield_set_then_get_round_trips() {
    let mut unit = BitfieldUnit::new(4);
    unit.set(0, 8, 0xA5);
    unit.set(8, 8, 0x3C);
    unit.set(16, 1, 1);
    unit.set(23, 1, 1);
    assert_eq!(unit.get(0, 8), 0xA5);
    assert_eq!(unit.get(8, 8), 0x3C);
    assert_eq!(unit.get(16, 1), 1);
    assert_eq!(unit.get(23, 1), 1);
}

#[test]
fn bitfield_set_masks_to_width() {
    let mut unit = BitfieldUnit::new(2);
    unit.set(4, 4, 0xFF);
    assert_eq!(unit.get(4, 4), 0x0F);
    assert_eq!(unit.get(0, 4), 0);
    assert_eq!(unit.get(8, 8), 0);
}

#[test]
fn bitfield_set_does_not_perturb_other_fields() {
    let mut unit = BitfieldUnit::new(4);
    unit.set(0, 8, 0x11);
    unit.set(8, 8, 0x22);
    unit.set(17, 1, 1);
    unit.set(16, 1, 1);
    unit.set(18, 1, 1);
    unit.set(17, 1, 0);
    assert_eq!(unit.get(0, 8), 0x11);
    assert_eq!(unit.get(8, 8), 0x22);
    assert_eq!(unit.get(16, 1), 1);
    assert_eq!(unit.get(17, 1), 0);
    assert_eq!(unit.get(18, 1), 1);
}

#[test]
fn bitfield_bytes_round_trip() {
    let bytes = vec![0x01u8, 0x02, 0x03, 0x04];
    let unit = BitfieldUnit::from_bytes(&bytes);
    assert_eq!(unit.to_bytes(), bytes);
    assert_eq!(unit.get(0, 8), 0x01);
    assert_eq!(unit.get(24, 8), 0x04);
}

#[test]
fn address_layer_and_event_round_trip() {
    let mut addr = WINDIVERT_ADDRESS::new();
    addr.set_layer(WinDivertLayer::Flow);
    addr.set_event(WinDivertEvent::SocketConnect);
    assert_eq!(addr.layer(), WinDivertLayer::Flow);
    assert_eq!(addr.event(), WinDivertEvent::SocketConnect);
}

#[test]
fn address_flags_are_isolated() {
    let mut addr = WINDIVERT_ADDRESS::new();
    addr.set_sniffed(true);
    addr.set_loopback(true);
    addr.set_ipv6(true);
    addr.set_outbound(true);
    addr.set_outbound(false);
    assert!(addr.sniffed());
    assert!(!addr.outbound());
    assert!(addr.loopback());
    assert!(!addr.impostor());
    assert!(addr.ipv6());
    assert!(!addr.ipchecksum());
    assert!(!addr.tcpchecksum());
    assert!(!addr.udpchecksum());
    assert_eq!(addr.layer(), WinDivertLayer::Network);
    assert_eq!(addr.event(), WinDivertEvent::NetworkPacket);
    addr.set_ipchecksum(true);
    addr.set_tcpchecksum(true);
    addr.set_udpchecksum(true);
    addr.set_impostor(true);
    assert!(addr.ipchecksum());
    assert!(addr.tcpchecksum());
    assert!(addr.udpchecksum());
    assert!(addr.impostor());
    assert!(addr.sniffed());
}

#[test]
fn ipv4_header_fields_use_network_byte_order() {
    let mut h = WINDIVERT_IPHDR::new();
    h.set_version(4);
    h.set_header_length(5);
    h.set_length(0x0014);
    h.set_id(0xBEEF);
    h.set_ttl(64);
    h.set_protocol(6);
    h.set_checksum(0x1234);
    h.set_src_addr(0x7F000001);
    h.set_dst_addr(0x08080808);
    assert_eq!(h.version(), 4);
    assert_eq!(h.header_length(), 5);
    assert_eq!(h.length(), 20);
    assert_eq!(h.id(), 0xBEEF);
    assert_eq!(h.ttl(), 64);
    assert_eq!(h.protocol(), 6);
    assert_eq!(h.checksum(), 0x1234);
    assert_eq!(h.src_addr(), 0x7F000001);
    assert_eq!(h.dst_addr(), 0x08080808);
    let bytes = h.as_bytes();
    assert_eq!(bytes[0], 0x45);
    assert_eq!(bytes[2], 0x00);
    assert_eq!(bytes[3], 0x14);
    assert_eq!(bytes[12], 0x7F);
    assert_eq!(bytes[15], 0x01);
}

#[test]
fn ipv4_fragment_fields_share_their_bytes() {
    let mut h = WINDIVERT_IPHDR::new();
    h.set_fragment_offset(0x1ABC);
    h.set_MF(true);
    h.set_DF(true);
    assert_eq!(h.fragment_offset(), 0x1ABC);
    assert!(h.MF());
    assert!(h.DF());
    h.set_MF(false);
    assert_eq!(h.fragment_offset(), 0x1ABC);
    assert!(!h.MF());
    assert!(h.DF());
}

#[test]
fn ipv6_header_fields_round_trip() {
    let mut h = WINDIVERT_IPV6HDR::new();
    h.set_version(6);
    h.set_traffic_class(0xA7);
    h.set_flow_label(0xABCDE);
    h.set_next_header(17);
    h.set_hop_limit(255);
    h.set_src_addr(0x20010DB8_00000000_00000000_00000001);
    h.set_dst_addr(0xFE800000_00000000_00000000_00000042);
    assert_eq!(h.version(), 6);
    assert_eq!(h.traffic_class(), 0xA7);
    assert_eq!(h.flow_label(), 0xABCDE);
    assert_eq!(h.next_header(), 17);
    assert_eq!(h.hop_limit(), 255);
    assert_eq!(h.src_addr(), 0x20010DB8_00000000_00000000_00000001);
    assert_eq!(h.dst_addr(), 0xFE800000_00000000_00000000_00000042);
    let bytes = h.as_bytes();
    assert_eq!(bytes[0], 0x6A);
    assert_eq!(bytes[1], 0x7A);
    assert_eq!(bytes[2], 0xBC);
    assert_eq!(bytes[3], 0xDE);
    assert_eq!(bytes[8], 0x20);
    assert_eq!(bytes[23], 0x01);
}

#[test]
fn icmp_headers_round_trip() {
    let mut h = WINDIVERT_ICMPHDR::new();
    h.set_msg_type(8);
    h.set_msg_code(0);
    h.set_Checksum(0xF7FF);
    h.set_Body(0x00010002);
    assert_eq!(h.msg_type(), 8);
    assert_eq!(h.msg_code(), 0);
    assert_eq!(h.checksum(), 0xF7FF);
    assert_eq!(h.body(), 0x00010002);
    let mut h6 = WINDIVERT_ICMPV6HDR::new();
    h6.set_msg_type(128);
    h6.set_Checksum(0x0102);
    h6.set_Body(0xDEADBEEF);
    assert_eq!(h6.msg_type(), 128);
    assert_eq!(h6.checksum(), 0x0102);
    assert_eq!(h6.body(), 0xDEADBEEF);
    assert_eq!(h6.as_bytes()[2], 0x01);
    assert_eq!(h6.as_bytes()[3], 0x02);
}

#[test]
fn tcp_header_fields_round_trip() {
    let mut h = WINDIVERT_TCPHDR::new();
    h.set_src_port(443);
    h.set_dst_port(51000);
    h.set_seq_number(0x01020304);
    h.set_ACK_number(0x0A0B0C0D);
    h.set_header_length(5);
    h.set_SYN(1);
    h.set_ACK(1);
    h.set_window(0xFFFF);
    h.set_Checksum(0x7777);
    h.set_urg_ptr(0x0001);
    assert_eq!(h.src_port(), 443);
    assert_eq!(h.dst_port(), 51000);
    assert_eq!(h.seq_number(), 0x01020304);
    assert_eq!(h.ACK_number(), 0x0A0B0C0D);
    assert_eq!(h.header_length(), 5);
    assert_eq!(h.SYN(), 1);
    assert_eq!(h.ACK(), 1);
    assert_eq!(h.FIN(), 0);
    assert_eq!(h.RST(), 0);
    assert_eq!(h.PSH(), 0);
    assert_eq!(h.URG(), 0);
    assert_eq!(h.window(), 0xFFFF);
    assert_eq!(h.checksum(), 0x7777);
    assert_eq!(h.urg_ptr(), 0x0001);
    let bytes = h.as_bytes();
    assert_eq!(bytes[0], 0x01);
    assert_eq!(bytes[1], 0xBB);
    assert_eq!(bytes[13], 0x12);
}

#[test]
fn udp_header_fields_round_trip() {
    let mut h = WINDIVERT_UDPHDR::new();
    h.set_src_port(53);
    h.set_dst_port(33000);
    h.set_length(28);
    h.set_Checksum(0xABCD);
    assert_eq!(h.src_port(), 53);
    assert_eq!(h.dst_port(), 33000);
    assert_eq!(h.length(), 28);
    assert_eq!(h.checksum(), 0xABCD);
    let bytes = h.as_bytes();
    assert_eq!(bytes[0], 0x00);
    assert_eq!(bytes[1], 0x35);
    assert_eq!(bytes[4], 0x00);
    assert_eq!(bytes[5], 28);
}

#[test]
fn headers_from_bytes_expose_wire_values() {
    let bytes = vec![
        0x45, 0x00, 0x00, 0x54, 0x12, 0x34, 0x40, 0x00, 0x40, 0x01, 0xAA, 0xBB, 0xC0, 0xA8, 0x00,
        0x01, 0xC0, 0xA8, 0x00, 0x02,
    ];
    let h = WINDIVERT_IPHDR::from_bytes(bytes);
    assert_eq!(h.version(), 4);
    assert_eq!(h.header_length(), 5);
    assert_eq!(h.length(), 0x54);
    assert_eq!(h.id(), 0x1234);
    assert!(h.DF());
    assert!(!h.MF());
    assert_eq!(h.fragment_offset(), 0);
    assert_eq!(h.ttl(), 0x40);
    assert_eq!(h.protocol(), 1);
    assert_eq!(h.checksum(), 0xAABB);
    assert_eq!(h.src_addr(), 0xC0A80001);
    assert_eq!(h.dst_addr(), 0xC0A80002);
}
