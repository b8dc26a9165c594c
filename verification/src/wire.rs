use vstd::prelude::*;

use crate::model::{IcmpKind, Ipv4Address, Ipv6Address, MacAddress, Transport};

verus! {

// Ethertype codes of the network-layer protocols the dispatcher understands.
pub const ETHERTYPE_IPV4: u16 = 0x0800;
pub const ETHERTYPE_ARP: u16 = 0x0806;
pub const ETHERTYPE_IPV6: u16 = 0x86DD;

// IP next-level protocol numbers of the transports the dispatcher understands.
pub const PROTO_ICMP: u8 = 1;
pub const PROTO_TCP: u8 = 6;
pub const PROTO_UDP: u8 = 17;
pub const PROTO_ICMPV6: u8 = 58;

// ICMP message types that get their identifier and sequence number decoded.
pub const ICMP_ECHO_REPLY: u8 = 0;
pub const ICMP_ECHO_REQUEST: u8 = 8;

// Fixed header sizes, in bytes; a buffer shorter than its layer's header is
// malformed at that layer.
pub const ETHERNET_HEADER_LEN: usize = 14;
pub const IPV4_HEADER_LEN: usize = 20;
pub const IPV6_HEADER_LEN: usize = 40;
pub const ARP_LEN: usize = 28;
pub const UDP_HEADER_LEN: usize = 8;
pub const TCP_HEADER_LEN: usize = 20;
pub const ICMP_HEADER_LEN: usize = 4;
pub const ICMP_ECHO_LEN: usize = 8;
pub const ICMPV6_HEADER_LEN: usize = 4;

/// The 16-bit big-endian field at offset `i`.
pub open spec fn be16(b: Seq<u8>, i: int) -> u16
    recommends
        0 <= i,
        i + 1 < b.len(),
{
    (b[i] * 256 + b[i + 1]) as u16
}

pub fn read_be16(b: &[u8], i: usize) -> (r: u16)
    requires
        i + 1 < b@.len(),
    ensures
        r == be16(b@, i as int),
{
    (b[i] as u16) * 256 + (b[i + 1] as u16)
}

// ----- Ethernet -----

pub open spec fn eth_ok(f: Seq<u8>) -> bool {
    f.len() >= ETHERNET_HEADER_LEN
}

pub open spec fn eth_ethertype(f: Seq<u8>) -> u16 {
    be16(f, 12)
}

pub open spec fn eth_dest_mac(f: Seq<u8>) -> MacAddress {
    MacAddress { m0: f[0], m1: f[1], m2: f[2], m3: f[3], m4: f[4], m5: f[5] }
}

pub open spec fn eth_source_mac(f: Seq<u8>) -> MacAddress {
    MacAddress { m0: f[6], m1: f[7], m2: f[8], m3: f[9], m4: f[10], m5: f[11] }
}

/// The bytes an Ethernet frame carries after its 14-byte header.
pub open spec fn eth_payload(f: Seq<u8>) -> Seq<u8> {
    f.skip(ETHERNET_HEADER_LEN as int)
}

// ----- IPv4 -----

pub open spec fn ipv4_ok(p: Seq<u8>) -> bool {
    p.len() >= IPV4_HEADER_LEN
}

/// Low nibble of the first byte: the IPv4 header length in 32-bit words.
pub open spec fn ipv4_header_words(p: Seq<u8>) -> u8 {
    p[0] % 16
}

pub open spec fn ipv4_total_length(p: Seq<u8>) -> u16 {
    be16(p, 2)
}

pub open spec fn ipv4_protocol(p: Seq<u8>) -> u8 {
    p[9]
}

pub open spec fn ipv4_source(p: Seq<u8>) -> Ipv4Address {
    Ipv4Address { a: p[12], b: p[13], c: p[14], d: p[15] }
}

pub open spec fn ipv4_destination(p: Seq<u8>) -> Ipv4Address {
    Ipv4Address { a: p[16], b: p[17], c: p[18], d: p[19] }
}

/// Where the IPv4 payload starts: after the fixed header and any options,
/// but never before byte 20 even when the header-length field is nonsense.
pub open spec fn ipv4_payload_start(p: Seq<u8>) -> int {
    if ipv4_header_words(p) <= 5 {
        IPV4_HEADER_LEN as int
    } else {
        ipv4_header_words(p) * 4
    }
}

/// How many payload bytes the total-length field declares, zero when it
/// claims less than the header itself occupies.
pub open spec fn ipv4_declared_payload_len(p: Seq<u8>) -> int {
    if ipv4_total_length(p) >= ipv4_header_words(p) * 4 {
        ipv4_total_length(p) - ipv4_header_words(p) * 4
    } else {
        0
    }
}

/// The transport-layer slice of an IPv4 datagram: starts after the options,
/// runs for the declared payload length, and is clipped to the captured
/// bytes; empty when the capture ends before the payload starts.
pub open spec fn ipv4_payload(p: Seq<u8>) -> Seq<u8> {
    let start = ipv4_payload_start(p);
    let declared_end = start + ipv4_declared_payload_len(p);
    let end = if declared_end <= p.len() {
        declared_end
    } else {
        p.len() as int
    };
    if p.len() <= start {
        Seq::empty()
    } else {
        p.subrange(start, end)
    }
}

// ----- IPv6 -----

pub open spec fn ipv6_ok(p: Seq<u8>) -> bool {
    p.len() >= IPV6_HEADER_LEN
}

pub open spec fn ipv6_payload_length(p: Seq<u8>) -> u16 {
    be16(p, 4)
}

pub open spec fn ipv6_next_header(p: Seq<u8>) -> u8 {
    p[6]
}

pub open spec fn ipv6_source(p: Seq<u8>) -> Ipv6Address {
    Ipv6Address {
        s0: be16(p, 8),
        s1: be16(p, 10),
        s2: be16(p, 12),
        s3: be16(p, 14),
        s4: be16(p, 16),
        s5: be16(p, 18),
        s6: be16(p, 20),
        s7: be16(p, 22),
    }
}

pub open spec fn ipv6_destination(p: Seq<u8>) -> Ipv6Address {
    Ipv6Address {
        s0: be16(p, 24),
        s1: be16(p, 26),
        s2: be16(p, 28),
        s3: be16(p, 30),
        s4: be16(p, 32),
        s5: be16(p, 34),
        s6: be16(p, 36),
        s7: be16(p, 38),
    }
}

/// The transport-layer slice of an IPv6 datagram: the bytes after the fixed
/// header, clipped to the declared payload length.
pub open spec fn ipv6_payload(p: Seq<u8>) -> Seq<u8> {
    let declared_end = IPV6_HEADER_LEN + ipv6_payload_length(p);
    let end = if declared_end <= p.len() {
        declared_end as int
    } else {
        p.len() as int
    };
    if p.len() <= IPV6_HEADER_LEN {
        Seq::empty()
    } else {
        p.subrange(IPV6_HEADER_LEN as int, end)
    }
}

// ----- ARP -----

pub open spec fn arp_ok(p: Seq<u8>) -> bool {
    p.len() >= ARP_LEN
}

pub open spec fn arp_operation(p: Seq<u8>) -> u16 {
    be16(p, 6)
}

pub open spec fn arp_sender_mac(p: Seq<u8>) -> MacAddress {
    MacAddress { m0: p[8], m1: p[9], m2: p[10], m3: p[11], m4: p[12], m5: p[13] }
}

pub open spec fn arp_sender_ip(p: Seq<u8>) -> Ipv4Address {
    Ipv4Address { a: p[14], b: p[15], c: p[16], d: p[17] }
}

pub open spec fn arp_target_mac(p: Seq<u8>) -> MacAddress {
    MacAddress { m0: p[18], m1: p[19], m2: p[20], m3: p[21], m4: p[22], m5: p[23] }
}

pub open spec fn arp_target_ip(p: Seq<u8>) -> Ipv4Address {
    Ipv4Address { a: p[24], b: p[25], c: p[26], d: p[27] }
}

// ----- Transports -----

pub open spec fn udp_ok(p: Seq<u8>) -> bool {
    p.len() >= UDP_HEADER_LEN
}

/// UDP: ports and the header's declared length are read from the wire;
/// a flow is DNS when either port is 53.
pub open spec fn udp_transport(p: Seq<u8>) -> Transport {
    Transport::Udp {
        src_port: be16(p, 0),
        dst_port: be16(p, 2),
        length: be16(p, 4),
        is_dns: be16(p, 0) == 53 || be16(p, 2) == 53,
    }
}

pub open spec fn tcp_ok(p: Seq<u8>) -> bool {
    p.len() >= TCP_HEADER_LEN
}

/// TCP: ports from the wire; the length is the byte length of the whole
/// captured segment, header included.
pub open spec fn tcp_transport(p: Seq<u8>) -> Transport {
    Transport::Tcp { src_port: be16(p, 0), dst_port: be16(p, 2), length: p.len() as usize }
}

/// An ICMP echo message needs its 8-byte echo header to be decodable;
/// every other type only needs the type byte's 4-byte header.
pub open spec fn icmp_ok(p: Seq<u8>) -> bool {
    if p.len() >= ICMP_HEADER_LEN {
        if p[0] == ICMP_ECHO_REPLY || p[0] == ICMP_ECHO_REQUEST {
            p.len() >= ICMP_ECHO_LEN
        } else {
            true
        }
    } else {
        false
    }
}

pub open spec fn icmp_kind(p: Seq<u8>) -> IcmpKind {
    if p[0] == ICMP_ECHO_REPLY {
        IcmpKind::EchoReply { seq: be16(p, 6), id: be16(p, 4) }
    } else if p[0] == ICMP_ECHO_REQUEST {
        IcmpKind::EchoRequest { seq: be16(p, 6), id: be16(p, 4) }
    } else {
        IcmpKind::Other(p[0])
    }
}

pub open spec fn icmpv6_ok(p: Seq<u8>) -> bool {
    p.len() >= ICMPV6_HEADER_LEN
}

pub open spec fn icmpv6_transport(p: Seq<u8>) -> Transport {
    Transport::Icmpv6 { type_u8: p[0] }
}

// ----- Exec readers -----

pub fn read_udp_transport(p: &[u8]) -> (t: Transport)
    requires
        udp_ok(p@),
    ensures
        t == udp_transport(p@),
{
    let src_port = read_be16(p, 0);
    let dst_port = read_be16(p, 2);
    Transport::Udp {
        src_port,
        dst_port,
        length: read_be16(p, 4),
        is_dns: src_port == 53 || dst_port == 53,
    }
}

pub fn read_tcp_transport(p: &[u8]) -> (t: Transport)
    requires
        tcp_ok(p@),
    ensures
        t == tcp_transport(p@),
{
    Transport::Tcp { src_port: read_be16(p, 0), dst_port: read_be16(p, 2), length: p.len() }
}

pub fn read_icmp_kind(p: &[u8]) -> (k: IcmpKind)
    requires
        icmp_ok(p@),
    ensures
        k == icmp_kind(p@),
{
    if p[0] == ICMP_ECHO_REPLY {
        IcmpKind::EchoReply { seq: read_be16(p, 6), id: read_be16(p, 4) }
    } else if p[0] == ICMP_ECHO_REQUEST {
        IcmpKind::EchoRequest { seq: read_be16(p, 6), id: read_be16(p, 4) }
    } else {
        IcmpKind::Other(p[0])
    }
}

pub fn read_ipv4_source(p: &[u8]) -> (r: Ipv4Address)
    requires
        ipv4_ok(p@),
    ensures
        r == ipv4_source(p@),
{
    Ipv4Address { a: p[12], b: p[13], c: p[14], d: p[15] }
}

pub fn read_ipv4_destination(p: &[u8]) -> (r: Ipv4Address)
    requires
        ipv4_ok(p@),
    ensures
        r == ipv4_destination(p@),
{
    Ipv4Address { a: p[16], b: p[17], c: p[18], d: p[19] }
}

pub fn read_ipv6_source(p: &[u8]) -> (r: Ipv6Address)
    requires
        ipv6_ok(p@),
    ensures
        r == ipv6_source(p@),
{
    Ipv6Address {
        s0: read_be16(p, 8),
        s1: read_be16(p, 10),
        s2: read_be16(p, 12),
        s3: read_be16(p, 14),
        s4: read_be16(p, 16),
        s5: read_be16(p, 18),
        s6: read_be16(p, 20),
        s7: read_be16(p, 22),
    }
}

pub fn read_ipv6_destination(p: &[u8]) -> (r: Ipv6Address)
    requires
        ipv6_ok(p@),
    ensures
        r == ipv6_destination(p@),
{
    Ipv6Address {
        s0: read_be16(p, 24),
        s1: read_be16(p, 26),
        s2: read_be16(p, 28),
        s3: read_be16(p, 30),
        s4: read_be16(p, 32),
        s5: read_be16(p, 34),
        s6: read_be16(p, 36),
        s7: read_be16(p, 38),
    }
}

pub fn read_eth_source_mac(f: &[u8]) -> (r: MacAddress)
    requires
        eth_ok(f@),
    ensures
        r == eth_source_mac(f@),
{
    MacAddress { m0: f[6], m1: f[7], m2: f[8], m3: f[9], m4: f[10], m5: f[11] }
}

pub fn read_eth_dest_mac(f: &[u8]) -> (r: MacAddress)
    requires
        eth_ok(f@),
    ensures
        r == eth_dest_mac(f@),
{
    MacAddress { m0: f[0], m1: f[1], m2: f[2], m3: f[3], m4: f[4], m5: f[5] }
}

pub fn read_arp_sender_mac(p: &[u8]) -> (r: MacAddress)
    requires
        arp_ok(p@),
    ensures
        r == arp_sender_mac(p@),
{
    MacAddress { m0: p[8], m1: p[9], m2: p[10], m3: p[11], m4: p[12], m5: p[13] }
}

pub fn read_arp_target_mac(p: &[u8]) -> (r: MacAddress)
    requires
        arp_ok(p@),
    ensures
        r == arp_target_mac(p@),
{
    MacAddress { m0: p[18], m1: p[19], m2: p[20], m3: p[21], m4: p[22], m5: p[23] }
}

pub fn read_arp_sender_ip(p: &[u8]) -> (r: Ipv4Address)
    requires
        arp_ok(p@),
    ensures
        r == arp_sender_ip(p@),
{
    Ipv4Address { a: p[14], b: p[15], c: p[16], d: p[17] }
}

pub fn read_arp_target_ip(p: &[u8]) -> (r: Ipv4Address)
    requires
        arp_ok(p@),
    ensures
        r == arp_target_ip(p@),
{
    Ipv4Address { a: p[24], b: p[25], c: p[26], d: p[27] }
}

} // verus!
