use vstd::prelude::*;

use crate::direction::dir_of;
use crate::model::{AddressSet, IpAddress, NetEvent, Transport};
use crate::packets::{
    build_icmp_event, build_icmpv6_event, build_tcp_event, build_udp_event, event_fields,
    handle_icmp_packet, handle_icmpv6_packet, handle_tcp_packet, handle_udp_packet, icmp_line,
    icmpv6_line, tcp_line, udp_line,
};
use crate::render::{
    malformed_line, spec_render_line, unknown_ethertype_line, unknown_transport_line, ColorConfig,
};
use crate::wire::{
    arp_ok, arp_operation, arp_sender_ip, arp_sender_mac, arp_target_ip, arp_target_mac,
    eth_dest_mac, eth_ethertype, eth_ok, eth_payload, eth_source_mac, icmp_kind, icmp_ok,
    icmpv6_ok, icmpv6_transport, ipv4_destination, ipv4_ok, ipv4_payload, ipv4_protocol,
    ipv4_source, ipv6_destination, ipv6_next_header, ipv6_ok, ipv6_payload, ipv6_source,
    read_arp_sender_ip, read_arp_sender_mac, read_arp_target_ip, read_arp_target_mac, read_be16,
    read_eth_dest_mac, read_eth_source_mac, read_ipv4_destination, read_ipv4_source,
    read_ipv6_destination, read_ipv6_source, tcp_ok, tcp_transport, udp_ok, udp_transport, ARP_LEN,
    ETHERNET_HEADER_LEN, ETHERTYPE_ARP, ETHERTYPE_IPV4, ETHERTYPE_IPV6, IPV4_HEADER_LEN,
    IPV6_HEADER_LEN, PROTO_ICMP, PROTO_ICMPV6, PROTO_TCP, PROTO_UDP,
};

verus! {

/// The transport-layer slice of an IPv4 datagram, as `ipv4_payload` says.
pub fn ipv4_payload_slice(p: &[u8]) -> (r: &[u8])
    requires
        ipv4_ok(p@),
    ensures
        r@ == ipv4_payload(p@),
{
    let hl = p[0] % 16;
    let header_bytes: usize = (hl as usize) * 4;
    let start: usize = if hl <= 5 {
        IPV4_HEADER_LEN
    } else {
        header_bytes
    };
    let total = read_be16(p, 2) as usize;
    let declared: usize = if total >= header_bytes {
        total - header_bytes
    } else {
        0
    };
    if p.len() <= start {
        let r = &p[0..0];
        proof {
            assert(r@ =~= ipv4_payload(p@));
        }
        r
    } else {
        let end: usize = if start + declared <= p.len() {
            start + declared
        } else {
            p.len()
        };
        &p[start..end]
    }
}

/// The transport-layer slice of an IPv6 datagram, as `ipv6_payload` says.
pub fn ipv6_payload_slice(p: &[u8]) -> (r: &[u8])
    requires
        ipv6_ok(p@),
    ensures
        r@ == ipv6_payload(p@),
{
    let declared = read_be16(p, 4) as usize;
    if p.len() <= IPV6_HEADER_LEN {
        let r = &p[0..0];
        proof {
            assert(r@ =~= ipv6_payload(p@));
        }
        r
    } else {
        let end: usize = if IPV6_HEADER_LEN + declared <= p.len() {
            IPV6_HEADER_LEN + declared
        } else {
            p.len()
        };
        &p[IPV6_HEADER_LEN..end]
    }
}

// ----- What each layer decodes to: (source, destination, transport) -----

/// What an IPv4 datagram decodes to, or `None` when it is malformed,
/// carries a transport this tool does not decode, or is suppressed UDP.
pub open spec fn spec_ipv4_decoded(p: Seq<u8>, noudp: bool) -> Option<
    (IpAddress, IpAddress, Transport),
> {
    if !ipv4_ok(p) {
        None
    } else {
        let src = IpAddress::V4(ipv4_source(p));
        let dst = IpAddress::V4(ipv4_destination(p));
        let tp = ipv4_payload(p);
        if ipv4_protocol(p) == PROTO_UDP {
            if noudp || !udp_ok(tp) {
                None
            } else {
                Some((src, dst, udp_transport(tp)))
            }
        } else if ipv4_protocol(p) == PROTO_TCP {
            if tcp_ok(tp) {
                Some((src, dst, tcp_transport(tp)))
            } else {
                None
            }
        } else if ipv4_protocol(p) == PROTO_ICMP {
            if icmp_ok(tp) {
                Some((src, dst, Transport::Icmp(icmp_kind(tp))))
            } else {
                None
            }
        } else {
            None
        }
    }
}

/// What an IPv6 datagram decodes to; ICMPv6 takes the place of ICMP.
pub open spec fn spec_ipv6_decoded(p: Seq<u8>, noudp: bool) -> Option<
    (IpAddress, IpAddress, Transport),
> {
    if !ipv6_ok(p) {
        None
    } else {
        let src = IpAddress::V6(ipv6_source(p));
        let dst = IpAddress::V6(ipv6_destination(p));
        let tp = ipv6_payload(p);
        if ipv6_next_header(p) == PROTO_UDP {
            if noudp || !udp_ok(tp) {
                None
            } else {
                Some((src, dst, udp_transport(tp)))
            }
        } else if ipv6_next_header(p) == PROTO_TCP {
            if tcp_ok(tp) {
                Some((src, dst, tcp_transport(tp)))
            } else {
                None
            }
        } else if ipv6_next_header(p) == PROTO_ICMPV6 {
            if icmpv6_ok(tp) {
                Some((src, dst, icmpv6_transport(tp)))
            } else {
                None
            }
        } else {
            None
        }
    }
}

/// What an ARP frame decodes to. Endpoints and hardware addresses all come
/// from the ARP message itself: each party's protocol address is paired
/// with that party's hardware address.
pub open spec fn spec_arp_decoded(f: Seq<u8>) -> Option<(IpAddress, IpAddress, Transport)> {
    if eth_ok(f) && arp_ok(eth_payload(f)) {
        let p = eth_payload(f);
        Some(
            (
                IpAddress::V4(arp_sender_ip(p)),
                IpAddress::V4(arp_target_ip(p)),
                Transport::Arp {
                    operation: arp_operation(p),
                    sender_mac: arp_sender_mac(p),
                    sender_ip: arp_sender_ip(p),
                    target_mac: arp_target_mac(p),
                    target_ip: arp_target_ip(p),
                },
            ),
        )
    } else {
        None
    }
}

/// What a whole Ethernet frame decodes to, dispatching on the ethertype.
pub open spec fn spec_eth_decoded(f: Seq<u8>, noudp: bool) -> Option<
    (IpAddress, IpAddress, Transport),
> {
    if !eth_ok(f) {
        None
    } else if eth_ethertype(f) == ETHERTYPE_IPV4 {
        spec_ipv4_decoded(eth_payload(f), noudp)
    } else if eth_ethertype(f) == ETHERTYPE_IPV6 {
        spec_ipv6_decoded(eth_payload(f), noudp)
    } else if eth_ethertype(f) == ETHERTYPE_ARP {
        spec_arp_decoded(f)
    } else {
        None
    }
}

// ----- Event builders, one per network layer -----

/// Decodes the IPv4 datagram inside an Ethernet frame into an event, if
/// the layers are well-formed, the transport is one this tool decodes, and
/// UDP is not suppressed.
pub fn build_ipv4_event(
    interface_name: &str,
    frame: &[u8],
    ips: &AddressSet,
    noudp: bool,
) -> (r: Option<NetEvent>)
    ensures
        match r {
            Some(ev) => {
                &&& eth_ok(frame@)
                &&& spec_ipv4_decoded(eth_payload(frame@), noudp) matches Some(d)
                    && event_fields(ev, interface_name@, d.0, d.1, ips@, d.2)
            },
            None => !eth_ok(frame@) || spec_ipv4_decoded(eth_payload(frame@), noudp) is None,
        },
{
    if frame.len() < ETHERNET_HEADER_LEN {
        return None;
    }
    let p = &frame[ETHERNET_HEADER_LEN..frame.len()];
    if p.len() < IPV4_HEADER_LEN {
        return None;
    }
    let src = IpAddress::V4(read_ipv4_source(p));
    let dst = IpAddress::V4(read_ipv4_destination(p));
    let proto = p[9];
    let tp = ipv4_payload_slice(p);
    if proto == PROTO_UDP {
        if noudp {
            None
        } else {
            build_udp_event(interface_name, src, dst, tp, ips)
        }
    } else if proto == PROTO_TCP {
        build_tcp_event(interface_name, src, dst, tp, ips)
    } else if proto == PROTO_ICMP {
        build_icmp_event(interface_name, src, dst, tp, ips)
    } else {
        None
    }
}

/// Decodes the IPv6 datagram inside an Ethernet frame into an event.
pub fn build_ipv6_event(
    interface_name: &str,
    frame: &[u8],
    ips: &AddressSet,
    noudp: bool,
) -> (r: Option<NetEvent>)
    ensures
        match r {
            Some(ev) => {
                &&& eth_ok(frame@)
                &&& spec_ipv6_decoded(eth_payload(frame@), noudp) matches Some(d)
                    && event_fields(ev, interface_name@, d.0, d.1, ips@, d.2)
            },
            None => !eth_ok(frame@) || spec_ipv6_decoded(eth_payload(frame@), noudp) is None,
        },
{
    if frame.len() < ETHERNET_HEADER_LEN {
        return None;
    }
    let p = &frame[ETHERNET_HEADER_LEN..frame.len()];
    if p.len() < IPV6_HEADER_LEN {
        return None;
    }
    let src = IpAddress::V6(read_ipv6_source(p));
    let dst = IpAddress::V6(read_ipv6_destination(p));
    let next = p[6];
    let tp = ipv6_payload_slice(p);
    if next == PROTO_UDP {
        if noudp {
            None
        } else {
            build_udp_event(interface_name, src, dst, tp, ips)
        }
    } else if next == PROTO_TCP {
        build_tcp_event(interface_name, src, dst, tp, ips)
    } else if next == PROTO_ICMPV6 {
        build_icmpv6_event(interface_name, src, dst, tp, ips)
    } else {
        None
    }
}

/// Decodes the ARP payload of an Ethernet frame into an event. Direction
/// is classified against the ARP target protocol address, which stands as
/// the event's destination.
pub fn build_arp_event(interface_name: &str, frame: &[u8], ips: &AddressSet) -> (r: Option<
    NetEvent,
>)
    ensures
        match r {
            Some(ev) => spec_arp_decoded(frame@) matches Some(d)
                && event_fields(ev, interface_name@, d.0, d.1, ips@, d.2),
            None => spec_arp_decoded(frame@) is None,
        },
{
    if frame.len() < ETHERNET_HEADER_LEN {
        return None;
    }
    let p = &frame[ETHERNET_HEADER_LEN..frame.len()];
    if p.len() < ARP_LEN {
        return None;
    }
    let sender_ip = read_arp_sender_ip(p);
    let target_ip = read_arp_target_ip(p);
    let t = Transport::Arp {
        operation: read_be16(p, 6),
        sender_mac: read_arp_sender_mac(p),
        sender_ip,
        target_mac: read_arp_target_mac(p),
        target_ip,
    };
    let dir = crate::direction::classify(IpAddress::V4(target_ip), ips);
    Some(
        NetEvent::new(
            interface_name,
            dir,
            IpAddress::V4(sender_ip),
            IpAddress::V4(target_ip),
            t,
        ),
    )
}

/// Decodes a whole Ethernet frame into an event, dispatching on the
/// ethertype; anything else — an unknown ethertype, a malformed layer, or
/// suppressed UDP — yields no event.
pub fn build_ethernet_event(
    interface_name: &str,
    frame: &[u8],
    ips: &AddressSet,
    noudp: bool,
) -> (r: Option<NetEvent>)
    ensures
        match r {
            Some(ev) => spec_eth_decoded(frame@, noudp) matches Some(d)
                && event_fields(ev, interface_name@, d.0, d.1, ips@, d.2),
            None => spec_eth_decoded(frame@, noudp) is None,
        },
{
    if frame.len() < ETHERNET_HEADER_LEN {
        return None;
    }
    let et = read_be16(frame, 12);
    if et == ETHERTYPE_IPV4 {
        build_ipv4_event(interface_name, frame, ips, noudp)
    } else if et == ETHERTYPE_IPV6 {
        build_ipv6_event(interface_name, frame, ips, noudp)
    } else if et == ETHERTYPE_ARP {
        build_arp_event(interface_name, frame, ips)
    } else {
        None
    }
}

// ----- The line (or silence) a whole frame produces -----

/// The line an ARP frame produces: its rendered event, or the malformed
/// diagnostic when the payload is shorter than the 28-byte ARP message.
pub open spec fn arp_line(f: Seq<u8>, name: Seq<char>, ips: Set<IpAddress>, color: bool) -> Seq<
    char,
> {
    match spec_arp_decoded(f) {
        Some(d) => spec_render_line(name, dir_of(ips, d.1), d.0, d.1, d.2, color),
        None => malformed_line(name, "ARP"@),
    }
}

/// What one normalized Ethernet frame turns into. `None` is silence:
/// suppressed UDP traffic. Every other outcome is one line — a rendered
/// event, a layer-specific malformed diagnostic, or an unknown-ethertype /
/// unknown-transport diagnostic.
pub open spec fn spec_frame_line(
    f: Seq<u8>,
    name: Seq<char>,
    ips: Set<IpAddress>,
    noudp: bool,
    color: bool,
) -> Option<Seq<char>> {
    if !eth_ok(f) {
        Some(malformed_line(name, "Ethernet"@))
    } else {
        let p = eth_payload(f);
        if eth_ethertype(f) == ETHERTYPE_IPV4 {
            if !ipv4_ok(p) {
                Some(malformed_line(name, "IPv4"@))
            } else {
                let src = IpAddress::V4(ipv4_source(p));
                let dst = IpAddress::V4(ipv4_destination(p));
                let tp = ipv4_payload(p);
                if ipv4_protocol(p) == PROTO_UDP {
                    if noudp {
                        None
                    } else {
                        Some(udp_line(name, src, dst, tp, ips, color))
                    }
                } else if ipv4_protocol(p) == PROTO_TCP {
                    Some(tcp_line(name, src, dst, tp, ips, color))
                } else if ipv4_protocol(p) == PROTO_ICMP {
                    Some(icmp_line(name, src, dst, tp, ips, color))
                } else {
                    Some(
                        unknown_transport_line(name, src, dst, ipv4_protocol(p), tp.len() as int),
                    )
                }
            }
        } else if eth_ethertype(f) == ETHERTYPE_IPV6 {
            if !ipv6_ok(p) {
                Some(malformed_line(name, "IPv6"@))
            } else {
                let src = IpAddress::V6(ipv6_source(p));
                let dst = IpAddress::V6(ipv6_destination(p));
                let tp = ipv6_payload(p);
                if ipv6_next_header(p) == PROTO_UDP {
                    if noudp {
                        None
                    } else {
                        Some(udp_line(name, src, dst, tp, ips, color))
                    }
                } else if ipv6_next_header(p) == PROTO_TCP {
                    Some(tcp_line(name, src, dst, tp, ips, color))
                } else if ipv6_next_header(p) == PROTO_ICMPV6 {
                    Some(icmpv6_line(name, src, dst, tp, ips, color))
                } else {
                    Some(
                        unknown_transport_line(
                            name,
                            src,
                            dst,
                            ipv6_next_header(p),
                            tp.len() as int,
                        ),
                    )
                }
            }
        } else if eth_ethertype(f) == ETHERTYPE_ARP {
            Some(arp_line(f, name, ips, color))
        } else {
            Some(
                unknown_ethertype_line(
                    name,
                    eth_source_mac(f),
                    eth_dest_mac(f),
                    eth_ethertype(f),
                    f.len() as int,
                ),
            )
        }
    }
}

/// Renders the line for an ARP frame: the event's line, or the malformed
/// diagnostic.
pub fn handle_arp_packet(
    interface_name: &str,
    frame: &[u8],
    ips: &AddressSet,
    colors: &ColorConfig,
) -> (line: String)
    ensures
        line@ == arp_line(frame@, interface_name@, ips@, colors.enabled),
{
    match build_arp_event(interface_name, frame, ips) {
        Some(ev) => crate::render::render_line(&ev, colors),
        None => crate::render::malformed_text(interface_name, "ARP"),
    }
}

/// Dispatches a transport payload on the IP next-level protocol number.
/// `None` is suppressed UDP; an unknown protocol yields its diagnostic.
pub fn handle_transport_protocol(
    interface_name: &str,
    source: IpAddress,
    destination: IpAddress,
    protocol: u8,
    packet: &[u8],
    ips: &AddressSet,
    noudp: bool,
    colors: &ColorConfig,
) -> (r: Option<String>)
    ensures
        match r {
            None => protocol == PROTO_UDP && noudp,
            Some(line) => {
                &&& !(protocol == PROTO_UDP && noudp)
                &&& protocol == PROTO_UDP ==> line@ == udp_line(
                    interface_name@,
                    source,
                    destination,
                    packet@,
                    ips@,
                    colors.enabled,
                )
                &&& protocol == PROTO_TCP ==> line@ == tcp_line(
                    interface_name@,
                    source,
                    destination,
                    packet@,
                    ips@,
                    colors.enabled,
                )
                &&& protocol == PROTO_ICMP ==> line@ == icmp_line(
                    interface_name@,
                    source,
                    destination,
                    packet@,
                    ips@,
                    colors.enabled,
                )
                &&& protocol == PROTO_ICMPV6 ==> line@ == icmpv6_line(
                    interface_name@,
                    source,
                    destination,
                    packet@,
                    ips@,
                    colors.enabled,
                )
                &&& (protocol != PROTO_UDP && protocol != PROTO_TCP && protocol != PROTO_ICMP
                    && protocol != PROTO_ICMPV6) ==> line@ == unknown_transport_line(
                    interface_name@,
                    source,
                    destination,
                    protocol,
                    packet@.len() as int,
                )
            },
        },
{
    if protocol == PROTO_UDP {
        if noudp {
            None
        } else {
            Some(handle_udp_packet(interface_name, source, destination, packet, ips, colors))
        }
    } else if protocol == PROTO_TCP {
        Some(handle_tcp_packet(interface_name, source, destination, packet, ips, colors))
    } else if protocol == PROTO_ICMP {
        Some(handle_icmp_packet(interface_name, source, destination, packet, ips, colors))
    } else if protocol == PROTO_ICMPV6 {
        Some(handle_icmpv6_packet(interface_name, source, destination, packet, ips, colors))
    } else {
        Some(
            crate::render::unknown_transport_text(
                interface_name,
                &source,
                &destination,
                protocol,
                packet.len(),
            ),
        )
    }
}

/// Turns one normalized Ethernet frame into its output line, or into
/// nothing for suppressed UDP, exactly as `spec_frame_line` says.
pub fn handle_ethernet_frame(
    interface_name: &str,
    frame: &[u8],
    ips: &AddressSet,
    noudp: bool,
    colors: &ColorConfig,
) -> (r: Option<String>)
    ensures
        match r {
            None => spec_frame_line(frame@, interface_name@, ips@, noudp, colors.enabled) is None,
            Some(line) => spec_frame_line(frame@, interface_name@, ips@, noudp, colors.enabled)
                == Some(line@),
        },
{
    if frame.len() < ETHERNET_HEADER_LEN {
        return Some(crate::render::malformed_text(interface_name, "Ethernet"));
    }
    let et = read_be16(frame, 12);
    if et == ETHERTYPE_IPV4 {
        let p = &frame[ETHERNET_HEADER_LEN..frame.len()];
        if p.len() < IPV4_HEADER_LEN {
            return Some(crate::render::malformed_text(interface_name, "IPv4"));
        }
        let src = IpAddress::V4(read_ipv4_source(p));
        let dst = IpAddress::V4(read_ipv4_destination(p));
        let proto = p[9];
        let tp = ipv4_payload_slice(p);
        if proto == PROTO_ICMPV6 {
            // An IPv4 datagram never carries ICMPv6; fall to the unknown
            // transport diagnostic rather than decode it as such.
            return Some(
                crate::render::unknown_transport_text(interface_name, &src, &dst, proto, tp.len()),
            );
        }
        handle_transport_protocol(interface_name, src, dst, proto, tp, ips, noudp, colors)
    } else if et == ETHERTYPE_IPV6 {
        let p = &frame[ETHERNET_HEADER_LEN..frame.len()];
        if p.len() < IPV6_HEADER_LEN {
            return Some(crate::render::malformed_text(interface_name, "IPv6"));
        }
        let src = IpAddress::V6(read_ipv6_source(p));
        let dst = IpAddress::V6(read_ipv6_destination(p));
        let next = p[6];
        let tp = ipv6_payload_slice(p);
        if next == PROTO_ICMP {
            // ICMP for IPv4 is not decoded under IPv6; report it unknown.
            return Some(
                crate::render::unknown_transport_text(interface_name, &src, &dst, next, tp.len()),
            );
        }
        handle_transport_protocol(interface_name, src, dst, next, tp, ips, noudp, colors)
    } else if et == ETHERTYPE_ARP {
        Some(handle_arp_packet(interface_name, frame, ips, colors))
    } else {
        let smac = read_eth_source_mac(frame);
        let dmac = read_eth_dest_mac(frame);
        Some(
            crate::render::unknown_ethertype_text(interface_name, &smac, &dmac, et, frame.len()),
        )
    }
}

// ----- Laws of the dispatcher -----

/// A well-formed Ethernet+IPv4+UDP buffer decodes to a UDP transport whose
/// `is_dns` flag is true exactly when the source or destination port is
/// 53, and false for every other port combination.
pub proof fn lemma_ipv4_udp_is_dns(f: Seq<u8>)
    requires
        eth_ok(f),
        eth_ethertype(f) == ETHERTYPE_IPV4,
        ipv4_ok(eth_payload(f)),
        ipv4_protocol(eth_payload(f)) == PROTO_UDP,
        udp_ok(ipv4_payload(eth_payload(f))),
    ensures
        spec_ipv4_decoded(eth_payload(f), false) matches Some(d) && (d.2 matches Transport::Udp {
            src_port,
            dst_port,
            is_dns,
            ..
        } && (is_dns <==> (src_port == 53 || dst_port == 53))),
{
}

/// A well-formed Ethernet+IPv6+TCP buffer decodes to a TCP transport
/// carrying exactly the ports written into the TCP header, with the
/// length of the whole captured segment.
pub proof fn lemma_ipv6_tcp_ports(f: Seq<u8>, noudp: bool)
    requires
        eth_ok(f),
        eth_ethertype(f) == ETHERTYPE_IPV6,
        ipv6_ok(eth_payload(f)),
        ipv6_next_header(eth_payload(f)) == PROTO_TCP,
        tcp_ok(ipv6_payload(eth_payload(f))),
    ensures
        spec_eth_decoded(f, noudp) matches Some(d) && d.2 == tcp_transport(
            ipv6_payload(eth_payload(f)),
        ),
        spec_eth_decoded(f, noudp) matches Some(d) && (d.2 matches Transport::Tcp {
            src_port,
            dst_port,
            length,
        } && src_port == crate::wire::be16(ipv6_payload(eth_payload(f)), 0) && dst_port
            == crate::wire::be16(ipv6_payload(eth_payload(f)), 2) && length == ipv6_payload(
            eth_payload(f),
        ).len()),
{
}

/// An ARP frame's direction is classified from the ARP target protocol
/// address — which stands as the decoded event's destination — not from
/// any IP-layer destination field.
pub proof fn lemma_arp_direction_from_target(f: Seq<u8>, ips: Set<IpAddress>)
    requires
        eth_ok(f),
        arp_ok(eth_payload(f)),
    ensures
        spec_arp_decoded(f) matches Some(d) && d.1 == IpAddress::V4(
            arp_target_ip(eth_payload(f)),
        ),
        dir_of(ips, IpAddress::V4(arp_target_ip(eth_payload(f))))
            == crate::model::Direction::Inbound <==> ips.contains(
            IpAddress::V4(arp_target_ip(eth_payload(f))),
        ),
{
}

/// A transport payload shorter than its fixed header always turns the
/// frame into the layer's malformed diagnostic line — never into an event.
pub proof fn lemma_malformed_transport_diagnostic(
    f: Seq<u8>,
    name: Seq<char>,
    ips: Set<IpAddress>,
    noudp: bool,
    color: bool,
)
    requires
        eth_ok(f),
    ensures
        (eth_ethertype(f) == ETHERTYPE_IPV4 && ipv4_ok(eth_payload(f)) && ipv4_protocol(
            eth_payload(f),
        ) == PROTO_UDP && !noudp && !udp_ok(ipv4_payload(eth_payload(f)))) ==> spec_frame_line(
            f,
            name,
            ips,
            noudp,
            color,
        ) == Some(malformed_line(name, "UDP"@)),
        (eth_ethertype(f) == ETHERTYPE_IPV4 && ipv4_ok(eth_payload(f)) && ipv4_protocol(
            eth_payload(f),
        ) == PROTO_TCP && !tcp_ok(ipv4_payload(eth_payload(f)))) ==> spec_frame_line(
            f,
            name,
            ips,
            noudp,
            color,
        ) == Some(malformed_line(name, "TCP"@)),
        (eth_ethertype(f) == ETHERTYPE_IPV4 && ipv4_ok(eth_payload(f)) && ipv4_protocol(
            eth_payload(f),
        ) == PROTO_ICMP && !icmp_ok(ipv4_payload(eth_payload(f)))) ==> spec_frame_line(
            f,
            name,
            ips,
            noudp,
            color,
        ) == Some(malformed_line(name, "ICMP"@)),
        (eth_ethertype(f) == ETHERTYPE_IPV6 && ipv6_ok(eth_payload(f)) && ipv6_next_header(
            eth_payload(f),
        ) == PROTO_UDP && !noudp && !udp_ok(ipv6_payload(eth_payload(f)))) ==> spec_frame_line(
            f,
            name,
            ips,
            noudp,
            color,
        ) == Some(malformed_line(name, "UDP"@)),
        (eth_ethertype(f) == ETHERTYPE_IPV6 && ipv6_ok(eth_payload(f)) && ipv6_next_header(
            eth_payload(f),
        ) == PROTO_TCP && !tcp_ok(ipv6_payload(eth_payload(f)))) ==> spec_frame_line(
            f,
            name,
            ips,
            noudp,
            color,
        ) == Some(malformed_line(name, "TCP"@)),
        (eth_ethertype(f) == ETHERTYPE_IPV6 && ipv6_ok(eth_payload(f)) && ipv6_next_header(
            eth_payload(f),
        ) == PROTO_ICMPV6 && !icmpv6_ok(ipv6_payload(eth_payload(f)))) ==> spec_frame_line(
            f,
            name,
            ips,
            noudp,
            color,
        ) == Some(malformed_line(name, "ICMPv6"@)),
{
}

} // verus!
