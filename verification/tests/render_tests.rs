use packet_flow::fmt::{push_ipv4, push_ipv6, push_mac};
use packet_flow::model::{
    Direction, IcmpKind, IpAddress, Ipv4Address, Ipv6Address, MacAddress, NetEvent, Transport,
};
use packet_flow::render::{col, render_line, set_color_enabled, ColorConfig};

fn v4(a: u8, b: u8, c: u8, d: u8) -> IpAddress {
    IpAddress::V4(Ipv4Address { a, b, c, d })
}

fn v6(s: [u16; 8]) -> Ipv6Address {
    Ipv6Address {
        s0: s[0],
        s1: s[1],
        s2: s[2],
        s3: s[3],
        s4: s[4],
        s5: s[5],
        s6: s[6],
        s7: s[7],
    }
}

fn no_color() -> ColorConfig {
    let mut colors = ColorConfig { enabled: true };
    set_color_enabled(&mut colors, false);
    colors
}

#[test]
fn render_udp_dns_inbound_no_color() {
    let e = NetEvent::new(
        "eth0",
        Direction::Inbound,
        v4(1, 1, 1, 1),
        v4(10, 0, 0, 2),
        Transport::Udp { src_port: 53, dst_port: 53000, length: 42, is_dns: true },
    );
    let line = render_line(&e, &no_color());
    assert_eq!(
        line,
        "[eth0]: 10.0.0.2:53000 <===== [UDP/DNS] ===== 1.1.1.1:53; length: 42"
    );
}

#[test]
fn render_tcp_outbound_no_color() {
    let e = NetEvent::new(
        "eth0",
        Direction::Outbound,
        v4(10, 0, 0, 2),
        v4(93, 184, 216, 34),
        Transport::Tcp { src_port: 50123, dst_port: 443, length: 1200 },
    );
    let line = render_line(&e, &no_color());
    assert_eq!(
        line,
        "[eth0]: 10.0.0.2:50123 ===== [TCP] =====> 93.184.216.34:443; length: 1200"
    );
}

#[test]
fn render_icmp_echo_reply_inbound_no_color() {
    let e = NetEvent::new(
        "eth0",
        Direction::Inbound,
        v4(8, 8, 8, 8),
        v4(10, 0, 0, 2),
        Transport::Icmp(IcmpKind::EchoReply { seq: 1, id: 99 }),
    );
    let line = render_line(&e, &no_color());
    assert_eq!(
        line,
        "[eth0]: 10.0.0.2 <==== [ICMP echo reply] ===== 8.8.8.8 (seq=1, id=99)"
    );
}

#[test]
fn render_arp_outbound_no_color() {
    let e = NetEvent::new(
        "eth0",
        Direction::Outbound,
        v4(10, 0, 0, 2),
        v4(10, 0, 0, 1),
        Transport::Arp {
            operation: 1,
            sender_mac: MacAddress { m0: 0, m1: 1, m2: 2, m3: 3, m4: 4, m5: 5 },
            sender_ip: Ipv4Address { a: 10, b: 0, c: 0, d: 2 },
            target_mac: MacAddress { m0: 0, m1: 0, m2: 0, m3: 0, m4: 0, m5: 0 },
            target_ip: Ipv4Address { a: 10, b: 0, c: 0, d: 1 },
        },
    );
    let line = render_line(&e, &no_color());
    assert_eq!(line, "[eth0]: 00:01:02:03:04:05(10.0.0.2) ===== [ARP] =====> 00:00:00:00:00:00(10.0.0.1); operation: 1");
}

#[test]
fn render_twice_is_byte_identical() {
    let e = NetEvent::new(
        "wlan0",
        Direction::Outbound,
        v4(10, 0, 0, 2),
        v4(1, 1, 1, 1),
        Transport::Udp { src_port: 40000, dst_port: 53, length: 31, is_dns: true },
    );
    let colors = ColorConfig { enabled: true };
    let first = render_line(&e, &colors);
    let second = render_line(&e, &colors);
    assert_eq!(first, second);
    let plain = no_color();
    assert_eq!(render_line(&e, &plain), render_line(&e, &plain));
}

fn strip_escapes(s: &str) -> String {
    let mut out = String::new();
    let mut in_escape = false;
    for c in s.chars() {
        if in_escape {
            if c == 'm' {
                in_escape = false;
            }
        } else if c == '\x1b' {
            in_escape = true;
        } else {
            out.push(c);
        }
    }
    out
}

#[test]
fn color_off_has_no_escapes_and_matches_stripped_color_on() {
    let events = vec![
        NetEvent::new(
            "eth0",
            Direction::Inbound,
            v4(1, 1, 1, 1),
            v4(10, 0, 0, 2),
            Transport::Udp { src_port: 53, dst_port: 53000, length: 42, is_dns: true },
        ),
        NetEvent::new(
            "eth0",
            Direction::Outbound,
            v4(10, 0, 0, 2),
            v4(93, 184, 216, 34),
            Transport::Tcp { src_port: 50123, dst_port: 443, length: 1200 },
        ),
        NetEvent::new(
            "eth0",
            Direction::Inbound,
            IpAddress::V6(v6([0, 0, 0, 0, 0, 0, 0, 1])),
            IpAddress::V6(v6([0x2001, 0x0db8, 0, 0, 0, 0, 0, 7])),
            Transport::Icmpv6 { type_u8: 129 },
        ),
    ];
    let on = ColorConfig { enabled: true };
    let off = no_color();
    for e in &events {
        let with_color = render_line(e, &on);
        let without = render_line(e, &off);
        assert!(!without.contains('\x1b'));
        assert!(with_color.contains('\x1b'));
        assert_eq!(strip_escapes(&with_color), without);
    }
}

#[test]
fn col_is_empty_when_disabled() {
    let on = ColorConfig { enabled: true };
    let off = no_color();
    assert_eq!(col(&on, "\x1b[33m"), "\x1b[33m");
    assert_eq!(col(&off, "\x1b[33m"), "");
}

fn ipv6_string(ip: &Ipv6Address) -> String {
    let mut s = String::new();
    push_ipv6(&mut s, ip);
    s
}

#[test]
fn ipv6_text_compresses_like_std() {
    let cases: Vec<([u16; 8], &str)> = vec![
        ([0, 0, 0, 0, 0, 0, 0, 0], "::"),
        ([0, 0, 0, 0, 0, 0, 0, 1], "::1"),
        ([0x2001, 0x0db8, 0, 0, 0, 0, 0, 1], "2001:db8::1"),
        ([1, 0, 2, 3, 4, 5, 6, 7], "1:0:2:3:4:5:6:7"),
        ([1, 0, 0, 2, 0, 0, 3, 4], "1::2:0:0:3:4"),
        ([1, 2, 3, 4, 5, 6, 0, 0], "1:2:3:4:5:6::"),
        ([0, 0, 0, 0, 0, 0xffff, 0xc000, 0x0201], "::ffff:192.0.2.1"),
        ([0xfe80, 0, 0, 0, 0x1234, 0xabcd, 0xef01, 0x2345], "fe80::1234:abcd:ef01:2345"),
    ];
    for (segs, expect) in cases {
        let ours = ipv6_string(&v6(segs));
        assert_eq!(ours, expect);
    }
}

#[test]
fn ipv4_and_mac_text() {
    let mut s = String::new();
    push_ipv4(&mut s, &Ipv4Address { a: 192, b: 168, c: 0, d: 1 });
    assert_eq!(s, "192.168.0.1");
    let mut m = String::new();
    push_mac(&mut m, &MacAddress { m0: 0xde, m1: 0xad, m2: 0xbe, m3: 0xef, m4: 0x00, m5: 0x42 });
    assert_eq!(m, "de:ad:be:ef:00:42");
}
