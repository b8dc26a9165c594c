use packet_flow::decode::handle_transport_protocol;
use packet_flow::model::{AddressSet, IpAddress, Ipv4Address};
use packet_flow::normalize::{normalize_frame, InterfaceCaps};
use packet_flow::process_one_frame;
use packet_flow::render::ColorConfig;

use pnet::packet::arp::{ArpHardwareTypes, ArpOperations, MutableArpPacket};
use pnet::packet::ethernet::{EtherTypes, MutableEthernetPacket};
use pnet::packet::ip::IpNextHeaderProtocols;
use pnet::packet::ipv4::MutableIpv4Packet;
use pnet::packet::ipv6::MutableIpv6Packet;
use pnet::packet::tcp::MutableTcpPacket;
use pnet::packet::udp::MutableUdpPacket;
use pnet::packet::MutablePacket;
use pnet::util::MacAddr;

fn v4(a: u8, b: u8, c: u8, d: u8) -> IpAddress {
    IpAddress::V4(Ipv4Address { a, b, c, d })
}

fn host_set() -> AddressSet {
    let mut set = AddressSet::new();
    set.insert(v4(10, 0, 0, 2));
    set
}

fn plain() -> ColorConfig {
    ColorConfig { enabled: false }
}

fn ethernet_caps() -> InterfaceCaps {
    InterfaceCaps { is_up: true, is_broadcast: true, is_loopback: false, is_point_to_point: false }
}

fn ipv4_udp_datagram() -> Vec<u8> {
    let mut ip_buf = vec![0u8; 20 + 8];
    {
        let mut ip = MutableIpv4Packet::new(&mut ip_buf[..]).unwrap();
        ip.set_version(4);
        ip.set_header_length(5);
        ip.set_total_length((20 + 8) as u16);
        ip.set_ttl(64);
        ip.set_next_level_protocol(IpNextHeaderProtocols::Udp);
        let mut udp = MutableUdpPacket::new(ip.payload_mut()).unwrap();
        udp.set_source(53);
        udp.set_destination(53000);
        udp.set_length(8);
    }
    ip_buf[12..16].copy_from_slice(&[1, 1, 1, 1]);
    ip_buf[16..20].copy_from_slice(&[10, 0, 0, 2]);
    ip_buf
}

fn wrap_ethernet(ethertype: pnet::packet::ethernet::EtherType, payload: &[u8]) -> Vec<u8> {
    let mut eth_buf = vec![0u8; 14 + payload.len()];
    {
        let mut eth = MutableEthernetPacket::new(&mut eth_buf[..]).unwrap();
        eth.set_ethertype(ethertype);
        eth.set_source(MacAddr(0, 0, 0, 0, 0, 1));
        eth.set_destination(MacAddr(0, 0, 0, 0, 0, 2));
        eth.set_payload(payload);
    }
    eth_buf
}

#[test]
fn scenario_ipv4_udp_dns_inbound() {
    let frame = wrap_ethernet(EtherTypes::Ipv4, &ipv4_udp_datagram());
    let line = process_one_frame(&frame, "eth0", &ethernet_caps(), &host_set(), true, &plain())
        .expect("line");
    assert_eq!(
        line,
        "[eth0]: 10.0.0.2:53000 <===== [UDP/DNS] ===== 1.1.1.1:53; length: 8"
    );
}

#[test]
fn scenario_ipv6_tcp_outbound_empty_host_set() {
    let mut ip6_buf = vec![0u8; 40 + 20];
    {
        let mut ip6 = MutableIpv6Packet::new(&mut ip6_buf[..]).unwrap();
        ip6.set_version(6);
        ip6.set_payload_length(20);
        ip6.set_next_header(IpNextHeaderProtocols::Tcp);
        ip6.set_hop_limit(64);
        let mut tcp = MutableTcpPacket::new(ip6.payload_mut()).unwrap();
        tcp.set_source(50000);
        tcp.set_destination(443);
    }
    // Source and destination are both ::1.
    ip6_buf[23] = 1;
    ip6_buf[39] = 1;
    let frame = wrap_ethernet(EtherTypes::Ipv6, &ip6_buf);
    let empty = AddressSet::new();
    let line = process_one_frame(&frame, "eth0", &ethernet_caps(), &empty, true, &plain())
        .expect("line");
    assert_eq!(line, "[eth0]: ::1:50000 ===== [TCP] =====> ::1:443; length: 20");
}

#[test]
fn scenario_arp_request_inbound() {
    let mut arp_buf = vec![0u8; 28];
    {
        let mut arp = MutableArpPacket::new(&mut arp_buf[..]).unwrap();
        arp.set_hardware_type(ArpHardwareTypes::Ethernet);
        arp.set_protocol_type(EtherTypes::Ipv4);
        arp.set_hw_addr_len(6);
        arp.set_proto_addr_len(4);
        arp.set_operation(ArpOperations::Request);
        arp.set_sender_hw_addr(MacAddr(0, 1, 2, 3, 4, 5));
        arp.set_target_hw_addr(MacAddr(6, 7, 8, 9, 10, 11));
    }
    arp_buf[14..18].copy_from_slice(&[10, 0, 0, 3]);
    arp_buf[24..28].copy_from_slice(&[10, 0, 0, 2]);
    let mut frame = vec![0u8; 14 + arp_buf.len()];
    {
        let mut eth = MutableEthernetPacket::new(&mut frame[..]).unwrap();
        eth.set_ethertype(EtherTypes::Arp);
        eth.set_source(MacAddr(0, 1, 2, 3, 4, 5));
        eth.set_destination(MacAddr(6, 7, 8, 9, 10, 11));
        eth.set_payload(&arp_buf);
    }
    let line = process_one_frame(&frame, "eth0", &ethernet_caps(), &host_set(), true, &plain())
        .expect("line");
    // Inbound: the target endpoint leads, and the operation code is 1.
    assert_eq!(
        line,
        "[eth0]: 06:07:08:09:0a:0b(10.0.0.2) <==== [ARP] ====== 00:01:02:03:04:05(10.0.0.3); operation: 1"
    );
}

#[test]
fn scenario_udp_suppressed_yields_no_line() {
    let frame = wrap_ethernet(EtherTypes::Ipv4, &ipv4_udp_datagram());
    let out = process_one_frame(&frame, "eth0", &ethernet_caps(), &host_set(), false, &plain());
    assert!(out.is_none());
}

#[test]
fn scenario_truncated_icmp_is_malformed() {
    let mut ip_buf = vec![0u8; 20 + 1];
    {
        let mut ip = MutableIpv4Packet::new(&mut ip_buf[..]).unwrap();
        ip.set_version(4);
        ip.set_header_length(5);
        ip.set_total_length((20 + 1) as u16);
        ip.set_ttl(64);
        ip.set_next_level_protocol(IpNextHeaderProtocols::Icmp);
    }
    ip_buf[12..16].copy_from_slice(&[8, 8, 8, 8]);
    ip_buf[16..20].copy_from_slice(&[10, 0, 0, 2]);
    let frame = wrap_ethernet(EtherTypes::Ipv4, &ip_buf);
    let line = process_one_frame(&frame, "eth0", &ethernet_caps(), &host_set(), true, &plain())
        .expect("line");
    assert_eq!(line, "[eth0]: Malformed ICMP Packet");
}

#[test]
fn malformed_short_frames() {
    let caps = ethernet_caps();
    let set = host_set();
    let line = process_one_frame(&[0u8; 5], "eth0", &caps, &set, true, &plain()).expect("line");
    assert_eq!(line, "[eth0]: Malformed Ethernet Packet");
    let frame = wrap_ethernet(EtherTypes::Ipv4, &[0u8; 10]);
    let line = process_one_frame(&frame, "eth0", &caps, &set, true, &plain()).expect("line");
    assert_eq!(line, "[eth0]: Malformed IPv4 Packet");
    let frame = wrap_ethernet(EtherTypes::Ipv6, &[0u8; 30]);
    let line = process_one_frame(&frame, "eth0", &caps, &set, true, &plain()).expect("line");
    assert_eq!(line, "[eth0]: Malformed IPv6 Packet");
    let frame = wrap_ethernet(EtherTypes::Arp, &[0u8; 20]);
    let line = process_one_frame(&frame, "eth0", &caps, &set, true, &plain()).expect("line");
    assert_eq!(line, "[eth0]: Malformed ARP Packet");
}

#[test]
fn unknown_ethertype_diagnostic() {
    let frame = wrap_ethernet(pnet::packet::ethernet::EtherType::new(0x1234), &[0u8; 40]);
    let line = process_one_frame(&frame, "eth0", &ethernet_caps(), &host_set(), true, &plain())
        .expect("line");
    assert_eq!(
        line,
        "[eth0]: 00:00:00:00:00:01 ===== [Unknown] =====> 00:00:00:00:00:02; ethertype: 4660 length: 54"
    );
}

#[test]
fn unknown_transport_diagnostic() {
    let mut ip_buf = vec![0u8; 20 + 4];
    {
        let mut ip = MutableIpv4Packet::new(&mut ip_buf[..]).unwrap();
        ip.set_version(4);
        ip.set_header_length(5);
        ip.set_total_length((20 + 4) as u16);
        ip.set_ttl(64);
        ip.set_next_level_protocol(pnet::packet::ip::IpNextHeaderProtocol::new(99));
    }
    ip_buf[12..16].copy_from_slice(&[1, 2, 3, 4]);
    ip_buf[16..20].copy_from_slice(&[10, 0, 0, 2]);
    let frame = wrap_ethernet(EtherTypes::Ipv4, &ip_buf);
    let line = process_one_frame(&frame, "eth0", &ethernet_caps(), &host_set(), true, &plain())
        .expect("line");
    assert_eq!(
        line,
        "[eth0]: 1.2.3.4 ===== [Unknown IPv4 packet] =====> 10.0.0.2; protocol: 99 length: 4"
    );
}

#[test]
fn transport_dispatch_suppresses_only_udp() {
    let set = host_set();
    let colors = plain();
    let none = handle_transport_protocol(
        "eth0",
        v4(1, 1, 1, 1),
        v4(10, 0, 0, 2),
        17,
        &[0u8; 8],
        &set,
        true,
        &colors,
    );
    assert!(none.is_none());
    let some = handle_transport_protocol(
        "eth0",
        v4(1, 1, 1, 1),
        v4(10, 0, 0, 2),
        6,
        &[0u8; 20],
        &set,
        true,
        &colors,
    );
    assert!(some.is_some());
}

#[test]
fn loopback_capture_is_wrapped_in_synthetic_ethernet() {
    let caps = InterfaceCaps {
        is_up: true,
        is_broadcast: false,
        is_loopback: true,
        is_point_to_point: false,
    };
    let ip_buf = ipv4_udp_datagram();
    let mut raw = vec![0u8; 14];
    raw.extend_from_slice(&ip_buf);
    let line = process_one_frame(&raw, "lo0", &caps, &host_set(), true, &plain()).expect("line");
    assert_eq!(line, "[lo0]: 10.0.0.2:53000 <===== [UDP/DNS] ===== 1.1.1.1:53; length: 8");
}

#[test]
fn point_to_point_capture_starts_at_offset_zero() {
    let caps = InterfaceCaps {
        is_up: true,
        is_broadcast: false,
        is_loopback: false,
        is_point_to_point: true,
    };
    let raw = ipv4_udp_datagram();
    let line = process_one_frame(&raw, "tun0", &caps, &host_set(), true, &plain()).expect("line");
    assert_eq!(line, "[tun0]: 10.0.0.2:53000 <===== [UDP/DNS] ===== 1.1.1.1:53; length: 8");
}

#[test]
fn unrecognized_version_nibble_falls_through_to_ethernet() {
    let caps = InterfaceCaps {
        is_up: true,
        is_broadcast: false,
        is_loopback: false,
        is_point_to_point: true,
    };
    // Version nibble 5: not IP, so the buffer is read as a literal frame.
    let mut raw = vec![0u8; 40];
    raw[0] = 0x50;
    let out = normalize_frame(&raw, &caps);
    assert_eq!(out, raw);
    let line = process_one_frame(&raw, "tun0", &caps, &host_set(), true, &plain()).expect("line");
    assert!(line.contains("[Unknown]"));
}

#[test]
fn ordinary_interface_passes_frames_through() {
    let frame = wrap_ethernet(EtherTypes::Ipv4, &ipv4_udp_datagram());
    let out = normalize_frame(&frame, &ethernet_caps());
    assert_eq!(out, frame);
}
