use vstd::prelude::*;

use crate::model::{IpAddress, Ipv4Address, Ipv6Address, MacAddress};

verus! {

/// The character for one decimal digit.
pub open spec fn dec_digit(d: int) -> char
    recommends
        0 <= d < 10,
{
    if d == 0 {
        '0'
    } else if d == 1 {
        '1'
    } else if d == 2 {
        '2'
    } else if d == 3 {
        '3'
    } else if d == 4 {
        '4'
    } else if d == 5 {
        '5'
    } else if d == 6 {
        '6'
    } else if d == 7 {
        '7'
    } else if d == 8 {
        '8'
    } else {
        '9'
    }
}

/// The character for one hexadecimal digit, lower case.
pub open spec fn hex_digit(d: int) -> char
    recommends
        0 <= d < 16,
{
    if d < 10 {
        dec_digit(d)
    } else if d == 10 {
        'a'
    } else if d == 11 {
        'b'
    } else if d == 12 {
        'c'
    } else if d == 13 {
        'd'
    } else if d == 14 {
        'e'
    } else {
        'f'
    }
}

/// The decimal digits of `n`, most significant first, no leading zeros.
pub open spec fn dec_str(n: int) -> Seq<char>
    recommends
        n >= 0,
    decreases n,
{
    if n < 10 {
        seq![dec_digit(n)]
    } else {
        dec_str(n / 10).push(dec_digit(n % 10))
    }
}

/// The hexadecimal digits of `n`, most significant first, no leading zeros.
pub open spec fn hex_str(n: int) -> Seq<char>
    recommends
        n >= 0,
    decreases n,
{
    if n < 16 {
        seq![hex_digit(n)]
    } else {
        hex_str(n / 16).push(hex_digit(n % 16))
    }
}

/// One byte as exactly two hexadecimal digits.
pub open spec fn hex_byte(b: u8) -> Seq<char> {
    seq![hex_digit(b as int / 16), hex_digit(b as int % 16)]
}

/// Dotted-quad text of an IPv4 address.
pub open spec fn ipv4_text(ip: Ipv4Address) -> Seq<char> {
    dec_str(ip.a as int) + seq!['.'] + dec_str(ip.b as int) + seq!['.'] + dec_str(ip.c as int)
        + seq!['.'] + dec_str(ip.d as int)
}

/// Colon-separated text of a hardware address, two hex digits per byte.
pub open spec fn mac_text(m: MacAddress) -> Seq<char> {
    hex_byte(m.m0) + seq![':'] + hex_byte(m.m1) + seq![':'] + hex_byte(m.m2) + seq![':'] + hex_byte(
        m.m3,
    ) + seq![':'] + hex_byte(m.m4) + seq![':'] + hex_byte(m.m5)
}

/// The eight 16-bit segments of an IPv6 address, in order.
pub open spec fn segs_of(ip: Ipv6Address) -> Seq<u16> {
    seq![ip.s0, ip.s1, ip.s2, ip.s3, ip.s4, ip.s5, ip.s6, ip.s7]
}

/// An IPv4-mapped IPv6 address (`::ffff:a.b.c.d`) is shown with its
/// embedded IPv4 address in dotted-quad form.
pub open spec fn ipv6_is_mapped(ip: Ipv6Address) -> bool {
    ip.s0 == 0 && ip.s1 == 0 && ip.s2 == 0 && ip.s3 == 0 && ip.s4 == 0 && ip.s5 == 0xffff
}

pub open spec fn ipv6_mapped_v4(ip: Ipv6Address) -> Ipv4Address {
    Ipv4Address {
        a: (ip.s6 / 256) as u8,
        b: (ip.s6 % 256) as u8,
        c: (ip.s7 / 256) as u8,
        d: (ip.s7 % 256) as u8,
    }
}

/// How many zero segments stand in a row starting at index `i`.
pub open spec fn run_len_at(segs: Seq<u16>, i: int) -> int
    decreases segs.len() - i,
{
    if i < 0 || i >= segs.len() {
        0
    } else if segs[i] != 0 {
        0
    } else {
        1 + run_len_at(segs, i + 1)
    }
}

/// The start and length of the leftmost longest run of zero segments in
/// `segs[i..]`; `(segs.len(), 0)` when there is none.
pub open spec fn best_zero_run(segs: Seq<u16>, i: int) -> (int, int)
    decreases segs.len() - i,
{
    if i >= segs.len() {
        (segs.len() as int, 0)
    } else {
        let here = run_len_at(segs, i);
        let rest = best_zero_run(segs, i + 1);
        if here >= rest.1 {
            (i, here)
        } else {
            rest
        }
    }
}

/// Segments joined with `:`, each in hexadecimal without leading zeros.
pub open spec fn join_hex(segs: Seq<u16>) -> Seq<char>
    decreases segs.len(),
{
    if segs.len() == 0 {
        Seq::empty()
    } else if segs.len() == 1 {
        hex_str(segs[0] as int)
    } else {
        hex_str(segs[0] as int) + seq![':'] + join_hex(segs.skip(1))
    }
}

/// Canonical text of an IPv6 address: the IPv4-mapped form when it applies,
/// otherwise the leftmost longest run of two or more zero segments is
/// abbreviated to `::`.
pub open spec fn ipv6_text(ip: Ipv6Address) -> Seq<char> {
    if ipv6_is_mapped(ip) {
        "::ffff:"@ + ipv4_text(ipv6_mapped_v4(ip))
    } else {
        let segs = segs_of(ip);
        let best = best_zero_run(segs, 0);
        if best.1 > 1 {
            join_hex(segs.take(best.0)) + "::"@ + join_hex(segs.skip(best.0 + best.1))
        } else {
            join_hex(segs)
        }
    }
}

/// Text of a network-layer address of either family.
pub open spec fn ip_text(ip: IpAddress) -> Seq<char> {
    match ip {
        IpAddress::V4(v4) => ipv4_text(v4),
        IpAddress::V6(v6) => ipv6_text(v6),
    }
}

/// Text that holds no ANSI escape character.
pub open spec fn no_esc(s: Seq<char>) -> bool {
    forall|k: int| 0 <= k < s.len() ==> s[k] != '\x1b'
}

/// Decimal text never holds an escape character.
pub proof fn lemma_no_esc_dec_str(n: int)
    ensures
        no_esc(dec_str(n)),
    decreases n,
{
    if n >= 10 {
        lemma_no_esc_dec_str(n / 10);
        assert(dec_str(n) =~= dec_str(n / 10) + seq![dec_digit(n % 10)]);
    }
}

/// Hexadecimal text never holds an escape character.
pub proof fn lemma_no_esc_hex_str(n: int)
    ensures
        no_esc(hex_str(n)),
    decreases n,
{
    if n >= 16 {
        lemma_no_esc_hex_str(n / 16);
        assert(hex_str(n) =~= hex_str(n / 16) + seq![hex_digit(n % 16)]);
    }
}

pub proof fn lemma_no_esc_ipv4_text(ip: Ipv4Address)
    ensures
        no_esc(ipv4_text(ip)),
{
    lemma_no_esc_dec_str(ip.a as int);
    lemma_no_esc_dec_str(ip.b as int);
    lemma_no_esc_dec_str(ip.c as int);
    lemma_no_esc_dec_str(ip.d as int);
}

pub proof fn lemma_no_esc_mac_text(m: MacAddress)
    ensures
        no_esc(mac_text(m)),
{
    lemma_no_esc_hex_str(m.m0 as int / 16);
    lemma_no_esc_hex_str(m.m0 as int % 16);
    lemma_no_esc_hex_str(m.m1 as int / 16);
    lemma_no_esc_hex_str(m.m1 as int % 16);
    lemma_no_esc_hex_str(m.m2 as int / 16);
    lemma_no_esc_hex_str(m.m2 as int % 16);
    lemma_no_esc_hex_str(m.m3 as int / 16);
    lemma_no_esc_hex_str(m.m3 as int % 16);
    lemma_no_esc_hex_str(m.m4 as int / 16);
    lemma_no_esc_hex_str(m.m4 as int % 16);
    lemma_no_esc_hex_str(m.m5 as int / 16);
    lemma_no_esc_hex_str(m.m5 as int % 16);
}

proof fn lemma_no_esc_join_hex(segs: Seq<u16>)
    ensures
        no_esc(join_hex(segs)),
    decreases segs.len(),
{
    if segs.len() == 1 {
        lemma_no_esc_hex_str(segs[0] as int);
    } else if segs.len() > 1 {
        lemma_no_esc_hex_str(segs[0] as int);
        lemma_no_esc_join_hex(segs.skip(1));
    }
}

pub proof fn lemma_no_esc_ipv6_text(ip: Ipv6Address)
    ensures
        no_esc(ipv6_text(ip)),
{
    if ipv6_is_mapped(ip) {
        reveal_strlit("::ffff:");
        lemma_no_esc_ipv4_text(ipv6_mapped_v4(ip));
        assert(no_esc("::ffff:"@));
    } else {
        reveal_strlit("::");
        let segs = segs_of(ip);
        let best = best_zero_run(segs, 0);
        lemma_no_esc_join_hex(segs.take(best.0));
        lemma_no_esc_join_hex(segs.skip(best.0 + best.1));
        lemma_no_esc_join_hex(segs);
        assert(no_esc("::"@));
    }
}

/// Address text of either family never holds an escape character.
pub proof fn lemma_no_esc_ip_text(ip: IpAddress)
    ensures
        no_esc(ip_text(ip)),
{
    match ip {
        IpAddress::V4(v4) => lemma_no_esc_ipv4_text(v4),
        IpAddress::V6(v6) => lemma_no_esc_ipv6_text(v6),
    }
}

/// Appends one decimal digit character.
fn push_dec_digit(s: &mut String, d: u8)
    requires
        d < 10,
    ensures
        final(s)@ == old(s)@ + seq![dec_digit(d as int)],
{
    proof {
        reveal_strlit("0");
        reveal_strlit("1");
        reveal_strlit("2");
        reveal_strlit("3");
        reveal_strlit("4");
        reveal_strlit("5");
        reveal_strlit("6");
        reveal_strlit("7");
        reveal_strlit("8");
        reveal_strlit("9");
    }
    match d {
        0 => s.append("0"),
        1 => s.append("1"),
        2 => s.append("2"),
        3 => s.append("3"),
        4 => s.append("4"),
        5 => s.append("5"),
        6 => s.append("6"),
        7 => s.append("7"),
        8 => s.append("8"),
        _ => s.append("9"),
    }
    proof {
        assert(final(s)@ =~= old(s)@ + seq![dec_digit(d as int)]);
    }
}

/// Appends one hexadecimal digit character, lower case.
fn push_hex_digit(s: &mut String, d: u8)
    requires
        d < 16,
    ensures
        final(s)@ == old(s)@ + seq![hex_digit(d as int)],
{
    if d < 10 {
        push_dec_digit(s, d);
    } else {
        proof {
            reveal_strlit("a");
            reveal_strlit("b");
            reveal_strlit("c");
            reveal_strlit("d");
            reveal_strlit("e");
            reveal_strlit("f");
        }
        match d {
            10 => s.append("a"),
            11 => s.append("b"),
            12 => s.append("c"),
            13 => s.append("d"),
            14 => s.append("e"),
            _ => s.append("f"),
        }
        proof {
            assert(final(s)@ =~= old(s)@ + seq![hex_digit(d as int)]);
        }
    }
}

/// Appends `n` in decimal.
pub fn push_dec_u64(s: &mut String, n: u64)
    ensures
        final(s)@ == old(s)@ + dec_str(n as int),
    decreases n,
{
    if n < 10 {
        push_dec_digit(s, n as u8);
    } else {
        push_dec_u64(s, n / 10);
        push_dec_digit(s, (n % 10) as u8);
        proof {
            assert(final(s)@ =~= old(s)@ + dec_str(n as int));
        }
    }
}

/// Appends `n` in hexadecimal without leading zeros.
pub fn push_hex_u16(s: &mut String, n: u16)
    ensures
        final(s)@ == old(s)@ + hex_str(n as int),
    decreases n,
{
    if n < 16 {
        push_hex_digit(s, n as u8);
    } else {
        push_hex_u16(s, n / 16);
        push_hex_digit(s, (n % 16) as u8);
        proof {
            assert(final(s)@ =~= old(s)@ + hex_str(n as int));
        }
    }
}

/// Appends one byte as exactly two hexadecimal digits.
pub fn push_hex_byte(s: &mut String, b: u8)
    ensures
        final(s)@ == old(s)@ + hex_byte(b),
{
    push_hex_digit(s, b / 16);
    push_hex_digit(s, b % 16);
    proof {
        assert(final(s)@ =~= old(s)@ + hex_byte(b));
    }
}

/// Appends an IPv4 address in dotted-quad form.
pub fn push_ipv4(s: &mut String, ip: &Ipv4Address)
    ensures
        final(s)@ == old(s)@ + ipv4_text(*ip),
{
    proof {
        reveal_strlit(".");
    }
    push_dec_u64(s, ip.a as u64);
    s.append(".");
    push_dec_u64(s, ip.b as u64);
    s.append(".");
    push_dec_u64(s, ip.c as u64);
    s.append(".");
    push_dec_u64(s, ip.d as u64);
    proof {
        assert(final(s)@ =~= old(s)@ + ipv4_text(*ip));
    }
}

/// Appends a hardware address as colon-separated hex byte pairs.
pub fn push_mac(s: &mut String, m: &MacAddress)
    ensures
        final(s)@ == old(s)@ + mac_text(*m),
{
    proof {
        reveal_strlit(":");
    }
    push_hex_byte(s, m.m0);
    s.append(":");
    push_hex_byte(s, m.m1);
    s.append(":");
    push_hex_byte(s, m.m2);
    s.append(":");
    push_hex_byte(s, m.m3);
    s.append(":");
    push_hex_byte(s, m.m4);
    s.append(":");
    push_hex_byte(s, m.m5);
    proof {
        assert(final(s)@ =~= old(s)@ + mac_text(*m));
    }
}

fn seg_vec(ip: &Ipv6Address) -> (v: Vec<u16>)
    ensures
        v@ == segs_of(*ip),
{
    let mut v: Vec<u16> = Vec::new();
    v.push(ip.s0);
    v.push(ip.s1);
    v.push(ip.s2);
    v.push(ip.s3);
    v.push(ip.s4);
    v.push(ip.s5);
    v.push(ip.s6);
    v.push(ip.s7);
    proof {
        assert(v@ =~= segs_of(*ip));
    }
    v
}

fn run_len_exec(segs: &Vec<u16>, i: usize) -> (r: usize)
    requires
        i <= segs@.len(),
    ensures
        r as int == run_len_at(segs@, i as int),
        r <= segs@.len() - i,
    decreases segs@.len() - i,
{
    if i >= segs.len() {
        0
    } else if segs[i] != 0 {
        0
    } else {
        1 + run_len_exec(segs, i + 1)
    }
}

fn best_zero_run_exec(segs: &Vec<u16>, i: usize) -> (r: (usize, usize))
    requires
        i <= segs@.len(),
    ensures
        r.0 as int == best_zero_run(segs@, i as int).0,
        r.1 as int == best_zero_run(segs@, i as int).1,
        r.0 + r.1 <= segs@.len(),
    decreases segs@.len() - i,
{
    if i >= segs.len() {
        (segs.len(), 0)
    } else {
        let here = run_len_exec(segs, i);
        let rest = best_zero_run_exec(segs, i + 1);
        if here >= rest.1 {
            (i, here)
        } else {
            rest
        }
    }
}

/// Appends `segs[from..to]` joined with `:`, each segment in hex.
fn push_join_hex(s: &mut String, segs: &Vec<u16>, from: usize, to: usize)
    requires
        from <= to <= segs@.len(),
    ensures
        final(s)@ == old(s)@ + join_hex(segs@.subrange(from as int, to as int)),
    decreases to - from,
{
    proof {
        reveal_strlit(":");
    }
    if from == to {
        proof {
            assert(final(s)@ =~= old(s)@ + join_hex(segs@.subrange(from as int, to as int)));
        }
    } else if from + 1 == to {
        push_hex_u16(s, segs[from]);
        proof {
            let sub = segs@.subrange(from as int, to as int);
            assert(sub[0] == segs@[from as int]);
            assert(final(s)@ =~= old(s)@ + join_hex(sub));
        }
    } else {
        push_hex_u16(s, segs[from]);
        s.append(":");
        push_join_hex(s, segs, from + 1, to);
        proof {
            let sub = segs@.subrange(from as int, to as int);
            assert(sub[0] == segs@[from as int]);
            assert(sub.skip(1) =~= segs@.subrange(from as int + 1, to as int));
            assert(final(s)@ =~= old(s)@ + join_hex(sub));
        }
    }
}

/// Appends an IPv6 address in its canonical text form.
pub fn push_ipv6(s: &mut String, ip: &Ipv6Address)
    ensures
        final(s)@ == old(s)@ + ipv6_text(*ip),
{
    if ip.s0 == 0 && ip.s1 == 0 && ip.s2 == 0 && ip.s3 == 0 && ip.s4 == 0 && ip.s5 == 0xffff {
        s.append("::ffff:");
        let v4 = Ipv4Address {
            a: (ip.s6 / 256) as u8,
            b: (ip.s6 % 256) as u8,
            c: (ip.s7 / 256) as u8,
            d: (ip.s7 % 256) as u8,
        };
        push_ipv4(s, &v4);
        proof {
            assert(final(s)@ =~= old(s)@ + ipv6_text(*ip));
        }
    } else {
        let segs = seg_vec(ip);
        let best = best_zero_run_exec(&segs, 0);
        if best.1 > 1 {
            push_join_hex(s, &segs, 0, best.0);
            s.append("::");
            push_join_hex(s, &segs, best.0 + best.1, segs.len());
            proof {
                let sq = segs_of(*ip);
                let b = best_zero_run(sq, 0);
                assert(sq.subrange(0, b.0) =~= sq.take(b.0));
                assert(sq.subrange(b.0 + b.1, sq.len() as int) =~= sq.skip(b.0 + b.1));
                assert(final(s)@ =~= old(s)@ + ipv6_text(*ip));
            }
        } else {
            push_join_hex(s, &segs, 0, segs.len());
            proof {
                let sq = segs_of(*ip);
                assert(sq.subrange(0, sq.len() as int) =~= sq);
                assert(final(s)@ =~= old(s)@ + ipv6_text(*ip));
            }
        }
    }
}

/// Appends a network-layer address of either family.
pub fn push_ip(s: &mut String, ip: &IpAddress)
    ensures
        final(s)@ == old(s)@ + ip_text(*ip),
{
    match ip {
        IpAddress::V4(v4) => push_ipv4(s, v4),
        IpAddress::V6(v6) => push_ipv6(s, v6),
    }
}

} // verus!
