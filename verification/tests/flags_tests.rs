use windivert::newtypes::{ChecksumFlags, WinDivertFlags};

#[test]
fn open_flags_round_trip_every_named_bit() {
    let all = WinDivertFlags::new()
        .set_sniff()
        .set_drop()
        .set_recv_only()
        .set_send_only()
        .set_no_installs()
        .set_fragments();
    assert_eq!(all.as_u64(), 0x3F);
    let cleared = all
        .unset_sniff()
        .unset_drop()
        .unset_recv_only()
        .unset_send_only()
        .unset_no_installs()
        .unset_fragments();
    assert_eq!(cleared.as_u64(), 0);
}

#[test]
fn open_flags_builder_encodes_exact_subsets() {
    assert_eq!(WinDivertFlags::new().set_sniff().as_u64(), 0x01);
    assert_eq!(WinDivertFlags::new().set_drop().as_u64(), 0x02);
    assert_eq!(WinDivertFlags::new().set_recv_only().as_u64(), 0x04);
    assert_eq!(WinDivertFlags::new().set_send_only().as_u64(), 0x08);
    assert_eq!(WinDivertFlags::new().set_no_installs().as_u64(), 0x10);
    assert_eq!(WinDivertFlags::new().set_fragments().as_u64(), 0x20);
    assert_eq!(
        WinDivertFlags::new().set_sniff().set_fragments().as_u64(),
        0x21
    );
}

#[test]
fn open_flags_set_value_replaces_only_its_bit() {
    let mut flags = WinDivertFlags::new().set_sniff().set_recv_only();
    flags.set_sniff_value(false);
    assert_eq!(flags.as_u64(), 0x04);
    flags.set_drop_value(true);
    assert_eq!(flags.as_u64(), 0x06);
    flags.set_send_only_value(true);
    flags.set_no_installs_value(true);
    flags.set_fragments_value(true);
    assert_eq!(flags.as_u64(), 0x3E);
    flags.set_recv_only_value(false);
    assert_eq!(flags.as_u64(), 0x3A);
}

#[test]
fn open_flags_layer_defaults() {
    assert_eq!(WinDivertFlags::flow_default().as_u64(), 0x05);
    assert_eq!(WinDivertFlags::socket_default().as_u64(), 0x04);
    assert_eq!(WinDivertFlags::reflect_default().as_u64(), 0x05);
    assert_eq!(WinDivertFlags::default().as_u64(), 0);
}

#[test]
fn checksum_flags_round_trip_every_named_bit() {
    let all = ChecksumFlags::new()
        .set_no_ip()
        .set_no_icmp()
        .set_no_icmpv6()
        .set_no_tcp()
        .set_no_udp();
    assert_eq!(all.as_u64(), 0x1F);
    let cleared = all
        .unset_no_ip()
        .unset_no_icmp()
        .unset_no_icmpv6()
        .unset_no_tcp()
        .unset_no_udp();
    assert_eq!(cleared.as_u64(), 0);
}

#[test]
fn checksum_flags_set_value_replaces_only_its_bit() {
    let mut flags = ChecksumFlags::new().set_no_ip().set_no_tcp();
    flags.set_no_ip_value(false);
    assert_eq!(flags.as_u64(), 0x08);
    flags.set_no_icmp_value(true);
    flags.set_no_icmpv6_value(true);
    flags.set_no_udp_value(true);
    assert_eq!(flags.as_u64(), 0x1E);
    flags.set_no_tcp_value(false);
    assert_eq!(flags.as_u64(), 0x16);
}
