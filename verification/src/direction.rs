use vstd::prelude::*;

use crate::model::{AddressSet, Direction, IpAddress};

verus! {

/// A flow is Inbound exactly when its destination (for ARP: the target
/// protocol address) is one of this host's own addresses.
pub open spec fn dir_of(ips: Set<IpAddress>, destination: IpAddress) -> Direction {
    if ips.contains(destination) {
        Direction::Inbound
    } else {
        Direction::Outbound
    }
}

pub fn is_destination(ip: IpAddress, ips: &AddressSet) -> (r: bool)
    ensures
        r == ips@.contains(ip),
{
    ips.contains(ip)
}

/// Computes the Direction of a destination address against the host's set.
pub fn classify(destination: IpAddress, ips: &AddressSet) -> (d: Direction)
    ensures
        d == dir_of(ips@, destination),
{
    if is_destination(destination, ips) {
        Direction::Inbound
    } else {
        Direction::Outbound
    }
}

/// Classification is an exact membership test: a destination is Inbound
/// exactly when it is in the set, and any address not in the set — however
/// close to a member — is Outbound. There is no prefix or subnet matching.
pub proof fn lemma_direction_exact(ips: Set<IpAddress>, destination: IpAddress)
    ensures
        dir_of(ips, destination) == Direction::Inbound <==> ips.contains(destination),
        dir_of(ips, destination) == Direction::Outbound <==> !ips.contains(destination),
{
}

/// Against a one-address set, that address alone is Inbound; every other
/// destination is Outbound.
pub proof fn lemma_direction_singleton(host: IpAddress, destination: IpAddress)
    ensures
        dir_of(Set::empty().insert(host), destination) == (if destination == host {
            Direction::Inbound
        } else {
            Direction::Outbound
        }),
{
}

} // verus!
