use vstd::prelude::*;

verus! {

/// Whether a decoded flow is addressed to this host or leaves it.
#[derive(Debug, Clone, Copy, PartialEq, Eq, Structural)]
pub enum Direction {
    Inbound,
    Outbound,
}

/// A 48-bit link-layer hardware address, one byte per field.
#[derive(Debug, Clone, Copy, PartialEq, Eq, Structural)]
pub struct MacAddress {
    pub m0: u8,
    pub m1: u8,
    pub m2: u8,
    pub m3: u8,
    pub m4: u8,
    pub m5: u8,
}

/// An IPv4 address as its four dotted-quad octets.
#[derive(Debug, Clone, Copy, PartialEq, Eq, Structural)]
pub struct Ipv4Address {
    pub a: u8,
    pub b: u8,
    pub c: u8,
    pub d: u8,
}

/// An IPv6 address as its eight 16-bit segments, in order.
#[derive(Debug, Clone, Copy, PartialEq, Eq, Structural)]
pub struct Ipv6Address {
    pub s0: u16,
    pub s1: u16,
    pub s2: u16,
    pub s3: u16,
    pub s4: u16,
    pub s5: u16,
    pub s6: u16,
    pub s7: u16,
}

/// A network-layer address of either family.
#[derive(Debug, Clone, Copy, PartialEq, Eq, Structural)]
pub enum IpAddress {
    V4(Ipv4Address),
    V6(Ipv6Address),
}

/// The decoded shape of an ICMP message.
#[derive(Debug, Clone, Copy, PartialEq, Eq, Structural)]
pub enum IcmpKind {
    EchoReply { seq: u16, id: u16 },
    EchoRequest { seq: u16, id: u16 },
    Other(u8),
}

/// The transport-layer (or ARP) portion of a decoded frame.
#[derive(Debug, Clone, Copy, PartialEq, Eq, Structural)]
pub enum Transport {
    Udp { src_port: u16, dst_port: u16, length: u16, is_dns: bool },
    Tcp { src_port: u16, dst_port: u16, length: usize },
    Icmp(IcmpKind),
    Icmpv6 { type_u8: u8 },
    Arp {
        operation: u16,
        sender_mac: MacAddress,
        sender_ip: Ipv4Address,
        target_mac: MacAddress,
        target_ip: Ipv4Address,
    },
}

/// One decoded flow observation: the network-layer endpoints, the direction
/// relative to this host, and the transport details.
#[derive(Debug, Clone)]
pub struct NetEvent {
    pub interface: String,
    pub direction: Direction,
    pub source: IpAddress,
    pub destination: IpAddress,
    pub transport: Transport,
}

impl NetEvent {
    pub fn new(
        interface: &str,
        direction: Direction,
        source: IpAddress,
        destination: IpAddress,
        transport: Transport,
    ) -> (r: Self)
        ensures
            r.interface@ == interface@,
            r.direction == direction,
            r.source == source,
            r.destination == destination,
            r.transport == transport,
    {
        Self { interface: interface.to_owned(), direction, source, destination, transport }
    }
}

/// The set of this host's own addresses, fixed for the life of a run and
/// consulted read-only by direction classification.
pub struct AddressSet {
    addrs: Vec<IpAddress>,
}

impl View for AddressSet {
    type V = Set<IpAddress>;

    closed spec fn view(&self) -> Set<IpAddress> {
        Set::new(|a: IpAddress| self.addrs@.contains(a))
    }
}

impl AddressSet {
    pub fn new() -> (r: Self)
        ensures
            r@ == Set::<IpAddress>::empty(),
    {
        let r = AddressSet { addrs: Vec::new() };
        proof {
            assert(r@ =~= Set::<IpAddress>::empty());
        }
        r
    }

    /// Membership is an exact match on the whole address; there is no
    /// prefix or subnet logic.
    pub fn contains(&self, ip: IpAddress) -> (r: bool)
        ensures
            r == self@.contains(ip),
    {
        let n = self.addrs.len();
        let mut i: usize = 0;
        while i < n
            invariant
                n == self.addrs@.len(),
                i <= n,
                forall|j: int| 0 <= j < i ==> self.addrs@[j] != ip,
            decreases n - i,
        {
            if self.addrs[i] == ip {
                return true;
            }
            i += 1;
        }
        false
    }

    pub fn insert(&mut self, ip: IpAddress)
        ensures
            final(self)@ == old(self)@.insert(ip),
    {
        if !self.contains(ip) {
            self.addrs.push(ip);
            proof {
                let s1 = old(self).addrs@;
                let s2 = self.addrs@;
                assert forall|a: IpAddress| s2.contains(a) implies (s1.contains(a) || a == ip) by {
                    let i = choose|i: int| 0 <= i < s2.len() && s2[i] == a;
                    if i < s1.len() {
                        assert(s1[i] == a);
                    }
                }
                assert forall|a: IpAddress| s1.contains(a) implies s2.contains(a) by {
                    let i = choose|i: int| 0 <= i < s1.len() && s1[i] == a;
                    assert(s2[i] == a);
                }
                assert(s2[s1.len() as int] == ip);
                assert(s2.contains(ip));
            }
        }
        proof {
            assert(final(self)@ =~= old(self)@.insert(ip));
        }
    }
}

} // verus!
