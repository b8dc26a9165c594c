use vstd::prelude::*;

use crate::direction::{classify, dir_of};
use crate::model::{AddressSet, IpAddress, NetEvent, Transport};
use crate::render::{malformed_line, spec_render_line, ColorConfig};
use crate::wire::{
    icmp_kind, icmp_ok, icmpv6_ok, icmpv6_transport, read_icmp_kind, read_tcp_transport,
    read_udp_transport, tcp_ok, tcp_transport, udp_ok, udp_transport, ICMPV6_HEADER_LEN,
    ICMP_ECHO_LEN, ICMP_ECHO_REPLY, ICMP_ECHO_REQUEST, ICMP_HEADER_LEN, TCP_HEADER_LEN,
    UDP_HEADER_LEN,
};

verus! {

/// What every successfully decoded event satisfies: it carries the
/// interface name and the network-layer endpoints it was built from, and
/// its direction is the classification of the destination against the
/// host's addresses.
pub open spec fn event_fields(
    ev: NetEvent,
    name: Seq<char>,
    src: IpAddress,
    dst: IpAddress,
    ips: Set<IpAddress>,
    t: Transport,
) -> bool {
    &&& ev.interface@ == name
    &&& ev.source == src
    &&& ev.destination == dst
    &&& ev.direction == dir_of(ips, dst)
    &&& ev.transport == t
}

/// Builds the event for one decoded transport, classifying its direction.
fn make_event(
    interface_name: &str,
    source: IpAddress,
    destination: IpAddress,
    transport: Transport,
    ips: &AddressSet,
) -> (ev: NetEvent)
    ensures
        event_fields(ev, interface_name@, source, destination, ips@, transport),
{
    let dir = classify(destination, ips);
    NetEvent::new(interface_name, dir, source, destination, transport)
}

/// Decodes a UDP header into an event; a buffer shorter than the 8-byte
/// header is malformed and yields no event.
pub fn build_udp_event(
    interface_name: &str,
    source: IpAddress,
    destination: IpAddress,
    packet: &[u8],
    ips: &AddressSet,
) -> (r: Option<NetEvent>)
    ensures
        match r {
            Some(ev) => udp_ok(packet@) && event_fields(
                ev,
                interface_name@,
                source,
                destination,
                ips@,
                udp_transport(packet@),
            ),
            None => !udp_ok(packet@),
        },
{
    if packet.len() >= UDP_HEADER_LEN {
        let t = read_udp_transport(packet);
        Some(make_event(interface_name, source, destination, t, ips))
    } else {
        None
    }
}

/// Decodes a TCP header into an event; a buffer shorter than the 20-byte
/// header is malformed and yields no event.
pub fn build_tcp_event(
    interface_name: &str,
    source: IpAddress,
    destination: IpAddress,
    packet: &[u8],
    ips: &AddressSet,
) -> (r: Option<NetEvent>)
    ensures
        match r {
            Some(ev) => tcp_ok(packet@) && event_fields(
                ev,
                interface_name@,
                source,
                destination,
                ips@,
                tcp_transport(packet@),
            ),
            None => !tcp_ok(packet@),
        },
{
    if packet.len() >= TCP_HEADER_LEN {
        let t = read_tcp_transport(packet);
        Some(make_event(interface_name, source, destination, t, ips))
    } else {
        None
    }
}

/// Decodes an ICMP message into an event. A buffer shorter than the 4-byte
/// header is malformed, and so is an echo request or reply shorter than its
/// 8-byte echo header.
pub fn build_icmp_event(
    interface_name: &str,
    source: IpAddress,
    destination: IpAddress,
    packet: &[u8],
    ips: &AddressSet,
) -> (r: Option<NetEvent>)
    ensures
        match r {
            Some(ev) => icmp_ok(packet@) && event_fields(
                ev,
                interface_name@,
                source,
                destination,
                ips@,
                Transport::Icmp(icmp_kind(packet@)),
            ),
            None => !icmp_ok(packet@),
        },
{
    if packet.len() < ICMP_HEADER_LEN {
        return None;
    }
    let ty = packet[0];
    if (ty == ICMP_ECHO_REPLY || ty == ICMP_ECHO_REQUEST) && packet.len() < ICMP_ECHO_LEN {
        return None;
    }
    let k = read_icmp_kind(packet);
    Some(make_event(interface_name, source, destination, Transport::Icmp(k), ips))
}

/// Decodes an ICMPv6 message into an event; only the type byte is decoded.
/// A buffer shorter than the 4-byte header is malformed.
pub fn build_icmpv6_event(
    interface_name: &str,
    source: IpAddress,
    destination: IpAddress,
    packet: &[u8],
    ips: &AddressSet,
) -> (r: Option<NetEvent>)
    ensures
        match r {
            Some(ev) => icmpv6_ok(packet@) && event_fields(
                ev,
                interface_name@,
                source,
                destination,
                ips@,
                icmpv6_transport(packet@),
            ),
            None => !icmpv6_ok(packet@),
        },
{
    if packet.len() >= ICMPV6_HEADER_LEN {
        let t = Transport::Icmpv6 { type_u8: packet[0] };
        Some(make_event(interface_name, source, destination, t, ips))
    } else {
        None
    }
}

// ----- The line each transport handler produces -----

/// The line a UDP packet produces: its rendered event, or the malformed
/// diagnostic when the buffer is shorter than the UDP header.
pub open spec fn udp_line(
    name: Seq<char>,
    src: IpAddress,
    dst: IpAddress,
    p: Seq<u8>,
    ips: Set<IpAddress>,
    color: bool,
) -> Seq<char> {
    if udp_ok(p) {
        spec_render_line(name, dir_of(ips, dst), src, dst, udp_transport(p), color)
    } else {
        malformed_line(name, "UDP"@)
    }
}

pub open spec fn tcp_line(
    name: Seq<char>,
    src: IpAddress,
    dst: IpAddress,
    p: Seq<u8>,
    ips: Set<IpAddress>,
    color: bool,
) -> Seq<char> {
    if tcp_ok(p) {
        spec_render_line(name, dir_of(ips, dst), src, dst, tcp_transport(p), color)
    } else {
        malformed_line(name, "TCP"@)
    }
}

pub open spec fn icmp_line(
    name: Seq<char>,
    src: IpAddress,
    dst: IpAddress,
    p: Seq<u8>,
    ips: Set<IpAddress>,
    color: bool,
) -> Seq<char> {
    if icmp_ok(p) {
        spec_render_line(name, dir_of(ips, dst), src, dst, Transport::Icmp(icmp_kind(p)), color)
    } else {
        malformed_line(name, "ICMP"@)
    }
}

pub open spec fn icmpv6_line(
    name: Seq<char>,
    src: IpAddress,
    dst: IpAddress,
    p: Seq<u8>,
    ips: Set<IpAddress>,
    color: bool,
) -> Seq<char> {
    if icmpv6_ok(p) {
        spec_render_line(name, dir_of(ips, dst), src, dst, icmpv6_transport(p), color)
    } else {
        malformed_line(name, "ICMPv6"@)
    }
}

/// Renders the line for a UDP packet: the event's line, or the malformed
/// diagnostic.
pub fn handle_udp_packet(
    interface_name: &str,
    source: IpAddress,
    destination: IpAddress,
    packet: &[u8],
    ips: &AddressSet,
    colors: &ColorConfig,
) -> (line: String)
    ensures
        line@ == udp_line(interface_name@, source, destination, packet@, ips@, colors.enabled),
{
    match build_udp_event(interface_name, source, destination, packet, ips) {
        Some(ev) => crate::render::render_line(&ev, colors),
        None => crate::render::malformed_text(interface_name, "UDP"),
    }
}

pub fn handle_tcp_packet(
    interface_name: &str,
    source: IpAddress,
    destination: IpAddress,
    packet: &[u8],
    ips: &AddressSet,
    colors: &ColorConfig,
) -> (line: String)
    ensures
        line@ == tcp_line(interface_name@, source, destination, packet@, ips@, colors.enabled),
{
    match build_tcp_event(interface_name, source, destination, packet, ips) {
        Some(ev) => crate::render::render_line(&ev, colors),
        None => crate::render::malformed_text(interface_name, "TCP"),
    }
}

pub fn handle_icmp_packet(
    interface_name: &str,
    source: IpAddress,
    destination: IpAddress,
    packet: &[u8],
    ips: &AddressSet,
    colors: &ColorConfig,
) -> (line: String)
    ensures
        line@ == icmp_line(interface_name@, source, destination, packet@, ips@, colors.enabled),
{
    match build_icmp_event(interface_name, source, destination, packet, ips) {
        Some(ev) => crate::render::render_line(&ev, colors),
        None => crate::render::malformed_text(interface_name, "ICMP"),
    }
}

pub fn handle_icmpv6_packet(
    interface_name: &str,
    source: IpAddress,
    destination: IpAddress,
    packet: &[u8],
    ips: &AddressSet,
    colors: &ColorConfig,
) -> (line: String)
    ensures
        line@ == icmpv6_line(interface_name@, source, destination, packet@, ips@, colors.enabled),
{
    match build_icmpv6_event(interface_name, source, destination, packet, ips) {
        Some(ev) => crate::render::render_line(&ev, colors),
        None => crate::render::malformed_text(interface_name, "ICMPv6"),
    }
}

} // verus!
