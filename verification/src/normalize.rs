use vstd::prelude::*;

use crate::wire::{ETHERTYPE_IPV4, ETHERTYPE_IPV6};

verus! {

/// The static capability flags of a capture interface, as the capture
/// collaborator reports them.
#[derive(Debug, Clone, Copy, PartialEq, Eq, Structural)]
pub struct InterfaceCaps {
    pub is_up: bool,
    pub is_broadcast: bool,
    pub is_loopback: bool,
    pub is_point_to_point: bool,
}

/// An interface whose captures may carry a bare IP datagram instead of a
/// real Ethernet frame: loopback, or an up, non-broadcast, point-to-point
/// interface.
pub open spec fn bare_ip_candidate(caps: InterfaceCaps) -> bool {
    caps.is_up && !caps.is_broadcast && ((!caps.is_loopback && caps.is_point_to_point)
        || caps.is_loopback)
}

/// Where such a capture's IP datagram would start: loopback deliveries
/// carry a 14-byte zero pseudo-header first; point-to-point deliveries
/// start at the first byte.
pub open spec fn bare_ip_offset(caps: InterfaceCaps) -> int {
    if caps.is_loopback {
        14
    } else {
        0
    }
}

/// A synthesized Ethernet frame: zeroed hardware addresses, the given
/// ethertype, and the datagram as payload.
pub open spec fn synth_frame(ethertype: u16, payload: Seq<u8>) -> Seq<u8> {
    seq![
        0u8,
        0u8,
        0u8,
        0u8,
        0u8,
        0u8,
        0u8,
        0u8,
        0u8,
        0u8,
        0u8,
        0u8,
        (ethertype / 256) as u8,
        (ethertype % 256) as u8,
    ] + payload
}

/// What normalization produces: on an interface that may deliver bare IP
/// datagrams, a buffer whose IP version nibble reads 4 or 6 is wrapped in
/// a synthesized Ethernet frame; everything else — other interfaces, too
/// short a buffer, or another version nibble — passes through unchanged to
/// be read as a literal Ethernet frame.
pub open spec fn spec_normalize(raw: Seq<u8>, caps: InterfaceCaps) -> Seq<u8> {
    if !bare_ip_candidate(caps) {
        raw
    } else {
        let off = bare_ip_offset(caps);
        if raw.len() <= off {
            raw
        } else {
            let version = raw[off] / 16;
            if version == 4 {
                synth_frame(ETHERTYPE_IPV4, raw.skip(off))
            } else if version == 6 {
                synth_frame(ETHERTYPE_IPV6, raw.skip(off))
            } else {
                raw
            }
        }
    }
}

fn copy_tail(out: &mut Vec<u8>, raw: &[u8], from: usize)
    requires
        from <= raw@.len(),
    ensures
        final(out)@ == old(out)@ + raw@.skip(from as int),
{
    let ghost prefix = out@;
    let mut i = from;
    while i < raw.len()
        invariant
            from <= i <= raw@.len(),
            out@ == prefix + raw@.subrange(from as int, i as int),
        decreases raw@.len() - i,
    {
        out.push(raw[i]);
        i += 1;
        proof {
            assert(out@ =~= prefix + raw@.subrange(from as int, i as int));
        }
    }
    proof {
        assert(out@ =~= prefix + raw@.skip(from as int));
    }
}

fn synth_into(ethertype: u16, raw: &[u8], from: usize) -> (out: Vec<u8>)
    requires
        from <= raw@.len(),
    ensures
        out@ == synth_frame(ethertype, raw@.skip(from as int)),
{
    let mut out: Vec<u8> = Vec::new();
    let mut k: usize = 0;
    while k < 12
        invariant
            k <= 12,
            out@.len() == k,
            forall|j: int| 0 <= j < k ==> out@[j] == 0u8,
        decreases 12 - k,
    {
        out.push(0u8);
        k += 1;
    }
    out.push((ethertype / 256) as u8);
    out.push((ethertype % 256) as u8);
    copy_tail(&mut out, raw, from);
    proof {
        assert(out@ =~= synth_frame(ethertype, raw@.skip(from as int)));
    }
    out
}

/// Produces a buffer that can be read as an Ethernet frame, synthesizing a
/// header around a bare IP datagram where the interface calls for it.
pub fn normalize_frame(raw: &[u8], caps: &InterfaceCaps) -> (out: Vec<u8>)
    ensures
        out@ == spec_normalize(raw@, *caps),
{
    let passthrough = caps.is_up && !caps.is_broadcast && ((!caps.is_loopback
        && caps.is_point_to_point) || caps.is_loopback);
    if !passthrough {
        return vstd::slice::slice_to_vec(raw);
    }
    let off: usize = if caps.is_loopback {
        14
    } else {
        0
    };
    if raw.len() <= off {
        return vstd::slice::slice_to_vec(raw);
    }
    let version = raw[off] / 16;
    if version == 4 {
        synth_into(ETHERTYPE_IPV4, raw, off)
    } else if version == 6 {
        synth_into(ETHERTYPE_IPV6, raw, off)
    } else {
        vstd::slice::slice_to_vec(raw)
    }
}

} // verus!
