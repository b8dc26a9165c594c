use vstd::prelude::*;

use crate::fmt::{dec_str, ip_text, ipv4_text, mac_text};
use crate::model::{Direction, IcmpKind, IpAddress, NetEvent, Transport};

verus! {

/// Whether ANSI color escapes are emitted; decided once at startup and
/// read-only while frames are processed.
pub struct ColorConfig {
    pub enabled: bool,
}

pub fn set_color_enabled(colors: &mut ColorConfig, enabled: bool)
    ensures
        final(colors).enabled == enabled,
{
    colors.enabled = enabled;
}

/// The escape sequence that opens the label color for this transport.
pub open spec fn esc_code(t: Transport) -> Seq<char> {
    match t {
        Transport::Udp { .. } => "\x1b[33m"@,
        Transport::Tcp { .. } => "\x1b[34m"@,
        Transport::Icmp(_) => "\x1b[35m"@,
        Transport::Icmpv6 { .. } => "\x1b[95m"@,
        Transport::Arp { .. } => "\x1b[31m"@,
    }
}

pub open spec fn esc_reset() -> Seq<char> {
    "\x1b[0m"@
}

/// The color string actually emitted: the code when colors are on, nothing
/// when they are off.
pub fn col(colors: &ColorConfig, code: &'static str) -> (r: &'static str)
    ensures
        r@ == if colors.enabled {
            code@
        } else {
            Seq::<char>::empty()
        },
{
    if colors.enabled {
        code
    } else {
        proof {
            reveal_strlit("");
            assert(""@ =~= Seq::<char>::empty());
        }
        ""
    }
}

/// An `address:port` endpoint as rendered for UDP and TCP.
pub open spec fn port_ep(ip: IpAddress, port: u16) -> Seq<char> {
    ip_text(ip) + ":"@ + dec_str(port as int)
}

/// A `MAC(IP)` endpoint as rendered for ARP.
pub open spec fn arp_ep(mac: crate::model::MacAddress, ip: crate::model::Ipv4Address) -> Seq<
    char,
> {
    mac_text(mac) + "("@ + ipv4_text(ip) + ")"@
}

/// Everything before the colored label: the bracketed interface and the
/// near endpoint. Inbound lines lead with the destination, outbound lines
/// with the source.
pub open spec fn render_pre(
    i: Seq<char>,
    d: Direction,
    src: IpAddress,
    dst: IpAddress,
    t: Transport,
) -> Seq<char> {
    "["@ + i + "]: "@ + (match t {
        Transport::Udp { src_port, dst_port, .. } => if d == Direction::Inbound {
            port_ep(dst, dst_port)
        } else {
            port_ep(src, src_port)
        },
        Transport::Tcp { src_port, dst_port, .. } => if d == Direction::Inbound {
            port_ep(dst, dst_port)
        } else {
            port_ep(src, src_port)
        },
        Transport::Icmp(_) => if d == Direction::Inbound {
            ip_text(dst)
        } else {
            ip_text(src)
        },
        Transport::Icmpv6 { .. } => if d == Direction::Inbound {
            ip_text(dst)
        } else {
            ip_text(src)
        },
        Transport::Arp { sender_mac, sender_ip, target_mac, target_ip, .. } => if d
            == Direction::Inbound {
            arp_ep(target_mac, target_ip)
        } else {
            arp_ep(sender_mac, sender_ip)
        },
    }) + " "@
}

/// The labelled arrow between the endpoints, without its color escapes.
/// Inbound arrows point left, outbound arrows point right.
pub open spec fn render_mid(d: Direction, t: Transport) -> Seq<char> {
    match t {
        Transport::Udp { is_dns, .. } => {
            let lbl = if is_dns {
                "UDP/DNS"@
            } else {
                "UDP"@
            };
            if d == Direction::Inbound {
                "<===== ["@ + lbl + "] ====="@
            } else {
                "====== ["@ + lbl + "] =====>"@
            }
        },
        Transport::Tcp { .. } => if d == Direction::Inbound {
            "<==== [TCP] ====="@
        } else {
            "===== [TCP] =====>"@
        },
        Transport::Icmp(k) => match k {
            IcmpKind::EchoReply { .. } => if d == Direction::Inbound {
                "<==== [ICMP echo reply] ====="@
            } else {
                "===== [ICMP echo reply] =====>"@
            },
            IcmpKind::EchoRequest { .. } => if d == Direction::Inbound {
                "<==== [ICMP echo] ====="@
            } else {
                "===== [ICMP echo] =====>"@
            },
            IcmpKind::Other(_) => if d == Direction::Inbound {
                "<==== [ICMP] ====="@
            } else {
                "===== [ICMP] =====>"@
            },
        },
        Transport::Icmpv6 { .. } => if d == Direction::Inbound {
            "<==== [ICMPv6] ====="@
        } else {
            "===== [ICMPv6] =====>"@
        },
        Transport::Arp { .. } => if d == Direction::Inbound {
            "<==== [ARP] ======"@
        } else {
            "===== [ARP] =====>"@
        },
    }
}

/// Everything after the colored label: the far endpoint and the
/// transport's trailer.
pub open spec fn render_post(
    d: Direction,
    src: IpAddress,
    dst: IpAddress,
    t: Transport,
) -> Seq<char> {
    match t {
        Transport::Udp { src_port, dst_port, length, .. } => " "@ + (if d == Direction::Inbound {
            port_ep(src, src_port)
        } else {
            port_ep(dst, dst_port)
        }) + "; length: "@ + dec_str(length as int),
        Transport::Tcp { src_port, dst_port, length } => " "@ + (if d == Direction::Inbound {
            port_ep(src, src_port)
        } else {
            port_ep(dst, dst_port)
        }) + "; length: "@ + dec_str(length as int),
        Transport::Icmp(k) => {
            let far = if d == Direction::Inbound {
                ip_text(src)
            } else {
                ip_text(dst)
            };
            match k {
                IcmpKind::EchoReply { seq, id } => " "@ + far + " (seq="@ + dec_str(seq as int)
                    + ", id="@ + dec_str(id as int) + ")"@,
                IcmpKind::EchoRequest { seq, id } => " "@ + far + " (seq="@ + dec_str(seq as int)
                    + ", id="@ + dec_str(id as int) + ")"@,
                IcmpKind::Other(tt) => " "@ + far + " (type="@ + dec_str(tt as int) + ")"@,
            }
        },
        Transport::Icmpv6 { type_u8 } => " "@ + (if d == Direction::Inbound {
            ip_text(src)
        } else {
            ip_text(dst)
        }) + " (type="@ + dec_str(type_u8 as int) + ")"@,
        Transport::Arp { operation, sender_mac, sender_ip, target_mac, target_ip } => " "@ + (if d
            == Direction::Inbound {
            arp_ep(sender_mac, sender_ip)
        } else {
            arp_ep(target_mac, target_ip)
        }) + "; operation: "@ + dec_str(operation as int),
    }
}

/// The whole rendered line. With colors on, the label segment is wrapped in
/// its color escapes; with colors off the same text is produced with the
/// escapes left out entirely.
pub open spec fn spec_render_line(
    i: Seq<char>,
    d: Direction,
    src: IpAddress,
    dst: IpAddress,
    t: Transport,
    color: bool,
) -> Seq<char> {
    if color {
        render_pre(i, d, src, dst, t) + esc_code(t) + render_mid(d, t) + esc_reset() + render_post(
            d,
            src,
            dst,
            t,
        )
    } else {
        render_pre(i, d, src, dst, t) + render_mid(d, t) + render_post(d, src, dst, t)
    }
}

/// The rendered line of an event, as a spec over the event's fields.
pub open spec fn spec_render_event(e: NetEvent, color: bool) -> Seq<char> {
    spec_render_line(e.interface@, e.direction, e.source, e.destination, e.transport, color)
}

#[verifier::rlimit(60)]
fn push_pre(s: &mut String, e: &NetEvent)
    ensures
        final(s)@ == old(s)@ + render_pre(
            e.interface@,
            e.direction,
            e.source,
            e.destination,
            e.transport,
        ),
{
    s.append("[");
    s.append(e.interface.as_str());
    s.append("]: ");
    match e.transport {
        Transport::Udp { src_port, dst_port, .. } => {
            if matches!(e.direction, Direction::Inbound) {
                crate::fmt::push_ip(s, &e.destination);
                s.append(":");
                crate::fmt::push_dec_u64(s, dst_port as u64);
            } else {
                crate::fmt::push_ip(s, &e.source);
                s.append(":");
                crate::fmt::push_dec_u64(s, src_port as u64);
            }
        },
        Transport::Tcp { src_port, dst_port, .. } => {
            if matches!(e.direction, Direction::Inbound) {
                crate::fmt::push_ip(s, &e.destination);
                s.append(":");
                crate::fmt::push_dec_u64(s, dst_port as u64);
            } else {
                crate::fmt::push_ip(s, &e.source);
                s.append(":");
                crate::fmt::push_dec_u64(s, src_port as u64);
            }
        },
        Transport::Icmp(_) => {
            if matches!(e.direction, Direction::Inbound) {
                crate::fmt::push_ip(s, &e.destination);
            } else {
                crate::fmt::push_ip(s, &e.source);
            }
        },
        Transport::Icmpv6 { .. } => {
            if matches!(e.direction, Direction::Inbound) {
                crate::fmt::push_ip(s, &e.destination);
            } else {
                crate::fmt::push_ip(s, &e.source);
            }
        },
        Transport::Arp { sender_mac, sender_ip, target_mac, target_ip, .. } => {
            if matches!(e.direction, Direction::Inbound) {
                crate::fmt::push_mac(s, &target_mac);
                s.append("(");
                crate::fmt::push_ipv4(s, &target_ip);
                s.append(")");
            } else {
                crate::fmt::push_mac(s, &sender_mac);
                s.append("(");
                crate::fmt::push_ipv4(s, &sender_ip);
                s.append(")");
            }
        },
    }
    s.append(" ");
    proof {
        assert(final(s)@ =~= old(s)@ + render_pre(
            e.interface@,
            e.direction,
            e.source,
            e.destination,
            e.transport,
        ));
    }
}

#[verifier::rlimit(60)]
fn push_mid(s: &mut String, e: &NetEvent)
    ensures
        final(s)@ == old(s)@ + render_mid(e.direction, e.transport),
{
    let inbound = matches!(e.direction, Direction::Inbound);
    match e.transport {
        Transport::Udp { is_dns, .. } => {
            if inbound {
                s.append("<===== [");
            } else {
                s.append("====== [");
            }
            if is_dns {
                s.append("UDP/DNS");
            } else {
                s.append("UDP");
            }
            if inbound {
                s.append("] =====");
            } else {
                s.append("] =====>");
            }
        },
        Transport::Tcp { .. } => {
            if inbound {
                s.append("<==== [TCP] =====");
            } else {
                s.append("===== [TCP] =====>");
            }
        },
        Transport::Icmp(k) => {
            match k {
                IcmpKind::EchoReply { .. } => {
                    if inbound {
                        s.append("<==== [ICMP echo reply] =====");
                    } else {
                        s.append("===== [ICMP echo reply] =====>");
                    }
                },
                IcmpKind::EchoRequest { .. } => {
                    if inbound {
                        s.append("<==== [ICMP echo] =====");
                    } else {
                        s.append("===== [ICMP echo] =====>");
                    }
                },
                IcmpKind::Other(_) => {
                    if inbound {
                        s.append("<==== [ICMP] =====");
                    } else {
                        s.append("===== [ICMP] =====>");
                    }
                },
            }
        },
        Transport::Icmpv6 { .. } => {
            if inbound {
                s.append("<==== [ICMPv6] =====");
            } else {
                s.append("===== [ICMPv6] =====>");
            }
        },
        Transport::Arp { .. } => {
            if inbound {
                s.append("<==== [ARP] ======");
            } else {
                s.append("===== [ARP] =====>");
            }
        },
    }
    proof {
        assert(final(s)@ =~= old(s)@ + render_mid(e.direction, e.transport));
    }
}

#[verifier::rlimit(60)]
fn push_post(s: &mut String, e: &NetEvent)
    ensures
        final(s)@ == old(s)@ + render_post(e.direction, e.source, e.destination, e.transport),
{
    let inbound = matches!(e.direction, Direction::Inbound);
    s.append(" ");
    match e.transport {
        Transport::Udp { src_port, dst_port, length, .. } => {
            if inbound {
                crate::fmt::push_ip(s, &e.source);
                s.append(":");
                crate::fmt::push_dec_u64(s, src_port as u64);
            } else {
                crate::fmt::push_ip(s, &e.destination);
                s.append(":");
                crate::fmt::push_dec_u64(s, dst_port as u64);
            }
            s.append("; length: ");
            crate::fmt::push_dec_u64(s, length as u64);
        },
        Transport::Tcp { src_port, dst_port, length } => {
            if inbound {
                crate::fmt::push_ip(s, &e.source);
                s.append(":");
                crate::fmt::push_dec_u64(s, src_port as u64);
            } else {
                crate::fmt::push_ip(s, &e.destination);
                s.append(":");
                crate::fmt::push_dec_u64(s, dst_port as u64);
            }
            s.append("; length: ");
            crate::fmt::push_dec_u64(s, length as u64);
        },
        Transport::Icmp(k) => {
            if inbound {
                crate::fmt::push_ip(s, &e.source);
            } else {
                crate::fmt::push_ip(s, &e.destination);
            }
            match k {
                IcmpKind::EchoReply { seq, id } => {
                    s.append(" (seq=");
                    crate::fmt::push_dec_u64(s, seq as u64);
                    s.append(", id=");
                    crate::fmt::push_dec_u64(s, id as u64);
                    s.append(")");
                },
                IcmpKind::EchoRequest { seq, id } => {
                    s.append(" (seq=");
                    crate::fmt::push_dec_u64(s, seq as u64);
                    s.append(", id=");
                    crate::fmt::push_dec_u64(s, id as u64);
                    s.append(")");
                },
                IcmpKind::Other(tt) => {
                    s.append(" (type=");
                    crate::fmt::push_dec_u64(s, tt as u64);
                    s.append(")");
                },
            }
        },
        Transport::Icmpv6 { type_u8 } => {
            if inbound {
                crate::fmt::push_ip(s, &e.source);
            } else {
                crate::fmt::push_ip(s, &e.destination);
            }
            s.append(" (type=");
            crate::fmt::push_dec_u64(s, type_u8 as u64);
            s.append(")");
        },
        Transport::Arp { operation, sender_mac, sender_ip, target_mac, target_ip } => {
            if inbound {
                crate::fmt::push_mac(s, &sender_mac);
                s.append("(");
                crate::fmt::push_ipv4(s, &sender_ip);
                s.append(")");
            } else {
                crate::fmt::push_mac(s, &target_mac);
                s.append("(");
                crate::fmt::push_ipv4(s, &target_ip);
                s.append(")");
            }
            s.append("; operation: ");
            crate::fmt::push_dec_u64(s, operation as u64);
        },
    }
    proof {
        assert(final(s)@ =~= old(s)@ + render_post(
            e.direction,
            e.source,
            e.destination,
            e.transport,
        ));
    }
}

fn color_code(t: &Transport) -> (c: &'static str)
    ensures
        c@ == esc_code(*t),
{
    match t {
        Transport::Udp { .. } => "\x1b[33m",
        Transport::Tcp { .. } => "\x1b[34m",
        Transport::Icmp(_) => "\x1b[35m",
        Transport::Icmpv6 { .. } => "\x1b[95m",
        Transport::Arp { .. } => "\x1b[31m",
    }
}

/// Renders one event as its single output line. A pure function of the
/// event and the color flag: nothing else influences the text.
pub fn render_line(e: &NetEvent, colors: &ColorConfig) -> (r: String)
    ensures
        r@ == spec_render_event(*e, colors.enabled),
{
    let mut s = String::new();
    push_pre(&mut s, e);
    s.append(col(colors, color_code(&e.transport)));
    push_mid(&mut s, e);
    s.append(col(colors, "\x1b[0m"));
    push_post(&mut s, e);
    proof {
        assert(s@ =~= spec_render_event(*e, colors.enabled));
    }
    s
}

// ----- Diagnostic lines -----

/// The one-line diagnostic for a frame whose decoding stopped at `layer`.
pub open spec fn malformed_line(i: Seq<char>, layer: Seq<char>) -> Seq<char> {
    "["@ + i + "]: Malformed "@ + layer + " Packet"@
}

pub fn malformed_text(interface: &str, layer: &str) -> (r: String)
    ensures
        r@ == malformed_line(interface@, layer@),
{
    let mut s = String::new();
    s.append("[");
    s.append(interface);
    s.append("]: Malformed ");
    s.append(layer);
    s.append(" Packet");
    proof {
        assert(s@ =~= malformed_line(interface@, layer@));
    }
    s
}

/// The diagnostic for an ethertype the dispatcher does not understand.
pub open spec fn unknown_ethertype_line(
    i: Seq<char>,
    src_mac: crate::model::MacAddress,
    dst_mac: crate::model::MacAddress,
    ethertype: u16,
    length: int,
) -> Seq<char> {
    "["@ + i + "]: "@ + mac_text(src_mac) + " ===== [Unknown] =====> "@ + mac_text(dst_mac)
        + "; ethertype: "@ + dec_str(ethertype as int) + " length: "@ + dec_str(length)
}

pub fn unknown_ethertype_text(
    interface: &str,
    src_mac: &crate::model::MacAddress,
    dst_mac: &crate::model::MacAddress,
    ethertype: u16,
    length: usize,
) -> (r: String)
    ensures
        r@ == unknown_ethertype_line(interface@, *src_mac, *dst_mac, ethertype, length as int),
{
    let mut s = String::new();
    s.append("[");
    s.append(interface);
    s.append("]: ");
    crate::fmt::push_mac(&mut s, src_mac);
    s.append(" ===== [Unknown] =====> ");
    crate::fmt::push_mac(&mut s, dst_mac);
    s.append("; ethertype: ");
    crate::fmt::push_dec_u64(&mut s, ethertype as u64);
    s.append(" length: ");
    crate::fmt::push_dec_u64(&mut s, length as u64);
    proof {
        assert(s@ =~= unknown_ethertype_line(
            interface@,
            *src_mac,
            *dst_mac,
            ethertype,
            length as int,
        ));
    }
    s
}

/// The diagnostic for an IP next-level protocol the dispatcher does not
/// understand; the family label follows the source address.
pub open spec fn unknown_transport_line(
    i: Seq<char>,
    src: IpAddress,
    dst: IpAddress,
    protocol: u8,
    length: int,
) -> Seq<char> {
    "["@ + i + "]: "@ + ip_text(src) + " ===== [Unknown "@ + (match src {
        IpAddress::V4(_) => "IPv4"@,
        IpAddress::V6(_) => "IPv6"@,
    }) + " packet] =====> "@ + ip_text(dst) + "; protocol: "@ + dec_str(protocol as int)
        + " length: "@ + dec_str(length)
}

pub fn unknown_transport_text(
    interface: &str,
    src: &IpAddress,
    dst: &IpAddress,
    protocol: u8,
    length: usize,
) -> (r: String)
    ensures
        r@ == unknown_transport_line(interface@, *src, *dst, protocol, length as int),
{
    let mut s = String::new();
    s.append("[");
    s.append(interface);
    s.append("]: ");
    crate::fmt::push_ip(&mut s, src);
    s.append(" ===== [Unknown ");
    match src {
        IpAddress::V4(_) => s.append("IPv4"),
        IpAddress::V6(_) => s.append("IPv6"),
    }
    s.append(" packet] =====> ");
    crate::fmt::push_ip(&mut s, dst);
    s.append("; protocol: ");
    crate::fmt::push_dec_u64(&mut s, protocol as u64);
    s.append(" length: ");
    crate::fmt::push_dec_u64(&mut s, length as u64);
    proof {
        assert(s@ =~= unknown_transport_line(interface@, *src, *dst, protocol, length as int));
    }
    s
}

// ----- Laws of the renderer -----

/// Rendering is a pure function of the event's fields and the color flag:
/// two renderings of equal inputs are the same text, byte for byte.
pub proof fn lemma_render_pure(
    i1: Seq<char>,
    d1: Direction,
    src1: IpAddress,
    dst1: IpAddress,
    t1: Transport,
    c1: bool,
    i2: Seq<char>,
    d2: Direction,
    src2: IpAddress,
    dst2: IpAddress,
    t2: Transport,
    c2: bool,
)
    requires
        i1 == i2,
        d1 == d2,
        src1 == src2,
        dst1 == dst2,
        t1 == t2,
        c1 == c2,
    ensures
        spec_render_line(i1, d1, src1, dst1, t1, c1) == spec_render_line(i2, d2, src2, dst2, t2, c2),
{
}

/// Text with the ANSI escape sequences removed: a `\x1b` opens an escape,
/// which runs up to and including the next `m`.
pub open spec fn strip_esc(s: Seq<char>) -> Seq<char>
    decreases s.len(), 1int,
{
    if s.len() == 0 {
        s
    } else if s[0] == '\x1b' {
        strip_in_escape(s.skip(1))
    } else {
        seq![s[0]] + strip_esc(s.skip(1))
    }
}

pub open spec fn strip_in_escape(s: Seq<char>) -> Seq<char>
    decreases s.len(), 0int,
{
    if s.len() == 0 {
        Seq::empty()
    } else if s[0] == 'm' {
        strip_esc(s.skip(1))
    } else {
        strip_in_escape(s.skip(1))
    }
}

/// Stripping leaves escape-free text unchanged.
proof fn lemma_strip_escfree(a: Seq<char>)
    requires
        crate::fmt::no_esc(a),
    ensures
        strip_esc(a) == a,
    decreases a.len(),
{
    if a.len() > 0 {
        lemma_strip_escfree(a.skip(1));
        assert(seq![a[0]] + a.skip(1) =~= a);
    }
}

/// Stripping walks over an escape-free prefix untouched.
proof fn lemma_strip_concat_escfree(a: Seq<char>, b: Seq<char>)
    requires
        crate::fmt::no_esc(a),
    ensures
        strip_esc(a + b) == a + strip_esc(b),
    decreases a.len(),
{
    if a.len() == 0 {
        assert(a + b =~= b);
        assert(a + strip_esc(b) =~= strip_esc(b));
    } else {
        assert((a + b)[0] == a[0]);
        assert((a + b).skip(1) =~= a.skip(1) + b);
        lemma_strip_concat_escfree(a.skip(1), b);
        assert(seq![a[0]] + (a.skip(1) + strip_esc(b)) =~= a + strip_esc(b));
    }
}

/// Inside an escape, everything up to and including the closing `m` goes.
proof fn lemma_strip_in_code(c: Seq<char>, b: Seq<char>)
    requires
        c.len() >= 1,
        c[c.len() - 1] == 'm',
        forall|k: int| 0 <= k < c.len() - 1 ==> c[k] != 'm',
    ensures
        strip_in_escape(c + b) == strip_esc(b),
    decreases c.len(),
{
    if c.len() == 1 {
        assert((c + b)[0] == 'm');
        assert((c + b).skip(1) =~= b);
    } else {
        assert((c + b)[0] == c[0]);
        assert((c + b).skip(1) =~= c.skip(1) + b);
        lemma_strip_in_code(c.skip(1), b);
    }
}

/// A whole escape code at the head is stripped away.
proof fn lemma_strip_code(code: Seq<char>, b: Seq<char>)
    requires
        code.len() >= 2,
        code[0] == '\x1b',
        code[code.len() - 1] == 'm',
        forall|k: int| 1 <= k < code.len() - 1 ==> code[k] != 'm',
    ensures
        strip_esc(code + b) == strip_esc(b),
{
    assert((code + b)[0] == '\x1b');
    assert((code + b).skip(1) =~= code.skip(1) + b);
    lemma_strip_in_code(code.skip(1), b);
}

/// The three uncolored parts of a rendered line hold no escape character,
/// as long as the interface name holds none.
proof fn lemma_no_esc_parts(i: Seq<char>, d: Direction, src: IpAddress, dst: IpAddress, t: Transport)
    requires
        crate::fmt::no_esc(i),
    ensures
        crate::fmt::no_esc(render_pre(i, d, src, dst, t)),
        crate::fmt::no_esc(render_mid(d, t)),
        crate::fmt::no_esc(render_post(d, src, dst, t)),
{
    reveal_strlit("[");
    reveal_strlit("]: ");
    reveal_strlit(" ");
    reveal_strlit(":");
    reveal_strlit("(");
    reveal_strlit(")");
    reveal_strlit("; length: ");
    reveal_strlit(" (seq=");
    reveal_strlit(", id=");
    reveal_strlit(" (type=");
    reveal_strlit("; operation: ");
    reveal_strlit("UDP/DNS");
    reveal_strlit("UDP");
    reveal_strlit("<===== [");
    reveal_strlit("] =====");
    reveal_strlit("====== [");
    reveal_strlit("] =====>");
    reveal_strlit("<==== [TCP] =====");
    reveal_strlit("===== [TCP] =====>");
    reveal_strlit("<==== [ICMP echo reply] =====");
    reveal_strlit("===== [ICMP echo reply] =====>");
    reveal_strlit("<==== [ICMP echo] =====");
    reveal_strlit("===== [ICMP echo] =====>");
    reveal_strlit("<==== [ICMP] =====");
    reveal_strlit("===== [ICMP] =====>");
    reveal_strlit("<==== [ICMPv6] =====");
    reveal_strlit("===== [ICMPv6] =====>");
    reveal_strlit("<==== [ARP] ======");
    reveal_strlit("===== [ARP] =====>");
    crate::fmt::lemma_no_esc_ip_text(src);
    crate::fmt::lemma_no_esc_ip_text(dst);
    match t {
        Transport::Udp { src_port, dst_port, length, .. } => {
            crate::fmt::lemma_no_esc_dec_str(src_port as int);
            crate::fmt::lemma_no_esc_dec_str(dst_port as int);
            crate::fmt::lemma_no_esc_dec_str(length as int);
        },
        Transport::Tcp { src_port, dst_port, length } => {
            crate::fmt::lemma_no_esc_dec_str(src_port as int);
            crate::fmt::lemma_no_esc_dec_str(dst_port as int);
            crate::fmt::lemma_no_esc_dec_str(length as int);
        },
        Transport::Icmp(k) => {
            match k {
                IcmpKind::EchoReply { seq, id } => {
                    crate::fmt::lemma_no_esc_dec_str(seq as int);
                    crate::fmt::lemma_no_esc_dec_str(id as int);
                },
                IcmpKind::EchoRequest { seq, id } => {
                    crate::fmt::lemma_no_esc_dec_str(seq as int);
                    crate::fmt::lemma_no_esc_dec_str(id as int);
                },
                IcmpKind::Other(tt) => {
                    crate::fmt::lemma_no_esc_dec_str(tt as int);
                },
            }
        },
        Transport::Icmpv6 { type_u8 } => {
            crate::fmt::lemma_no_esc_dec_str(type_u8 as int);
        },
        Transport::Arp { operation, sender_mac, sender_ip, target_mac, target_ip } => {
            crate::fmt::lemma_no_esc_dec_str(operation as int);
            crate::fmt::lemma_no_esc_mac_text(sender_mac);
            crate::fmt::lemma_no_esc_mac_text(target_mac);
            crate::fmt::lemma_no_esc_ipv4_text(sender_ip);
            crate::fmt::lemma_no_esc_ipv4_text(target_ip);
        },
    }
}

/// With colors off a rendered line holds no escape character, and the line
/// rendered with colors on, once its escape sequences are stripped, is
/// exactly the line rendered with colors off. Holds for any event whose
/// interface name is itself free of escape characters.
pub proof fn lemma_color_strip(
    i: Seq<char>,
    d: Direction,
    src: IpAddress,
    dst: IpAddress,
    t: Transport,
)
    requires
        crate::fmt::no_esc(i),
    ensures
        crate::fmt::no_esc(spec_render_line(i, d, src, dst, t, false)),
        strip_esc(spec_render_line(i, d, src, dst, t, true)) == spec_render_line(
            i,
            d,
            src,
            dst,
            t,
            false,
        ),
{
    let pre = render_pre(i, d, src, dst, t);
    let mid = render_mid(d, t);
    let post = render_post(d, src, dst, t);
    let code = esc_code(t);
    let reset = esc_reset();
    lemma_no_esc_parts(i, d, src, dst, t);
    reveal_strlit("\x1b[33m");
    reveal_strlit("\x1b[34m");
    reveal_strlit("\x1b[35m");
    reveal_strlit("\x1b[95m");
    reveal_strlit("\x1b[31m");
    reveal_strlit("\x1b[0m");
    assert(code.len() == 5 && code[0] == '\x1b' && code[4] == 'm' && code[1] != 'm' && code[2]
        != 'm' && code[3] != 'm');
    assert(reset.len() == 4 && reset[0] == '\x1b' && reset[3] == 'm' && reset[1] != 'm' && reset[2]
        != 'm');
    let line_true = spec_render_line(i, d, src, dst, t, true);
    let line_false = spec_render_line(i, d, src, dst, t, false);
    assert(line_true =~= pre + (code + (mid + (reset + post))));
    lemma_strip_concat_escfree(pre, code + (mid + (reset + post)));
    lemma_strip_code(code, mid + (reset + post));
    lemma_strip_concat_escfree(mid, reset + post);
    lemma_strip_code(reset, post);
    lemma_strip_escfree(post);
    assert(strip_esc(line_true) == pre + (mid + post));
    assert(line_false =~= pre + (mid + post));
}

} // verus!
