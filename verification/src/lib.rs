pub mod decode;
pub mod direction;
pub mod fmt;
pub mod model;
pub mod normalize;
pub mod packets;
pub mod render;
pub mod wire;

use vstd::prelude::*;

verus! {

/// Runtime configuration handed in by the CLI layer.
pub struct Config {
    pub interface: String,
    pub noudp: bool,
    pub no_color: bool,
}

/// What one captured buffer turns into, end to end: the buffer is
/// normalized for the interface's delivery quirks, then decoded, classified
/// and rendered. `None` is silence (suppressed UDP); otherwise one line, an
/// event or a diagnostic.
pub open spec fn spec_process(
    raw: Seq<u8>,
    name: Seq<char>,
    caps: normalize::InterfaceCaps,
    ips: Set<model::IpAddress>,
    udp_enabled: bool,
    color: bool,
) -> Option<Seq<char>> {
    decode::spec_frame_line(
        normalize::spec_normalize(raw, caps),
        name,
        ips,
        !udp_enabled,
        color,
    )
}

/// Pushes one raw captured buffer through the whole pipeline: normalize,
/// decode, classify, render.
pub fn process_one_frame(
    raw: &[u8],
    interface_name: &str,
    caps: &normalize::InterfaceCaps,
    ips: &model::AddressSet,
    udp_enabled: bool,
    colors: &render::ColorConfig,
) -> (r: Option<String>)
    ensures
        match r {
            None => spec_process(
                raw@,
                interface_name@,
                *caps,
                ips@,
                udp_enabled,
                colors.enabled,
            ) is None,
            Some(line) => spec_process(
                raw@,
                interface_name@,
                *caps,
                ips@,
                udp_enabled,
                colors.enabled,
            ) == Some(line@),
        },
{
    let frame = normalize::normalize_frame(raw, caps);
    decode::handle_ethernet_frame(interface_name, frame.as_slice(), ips, !udp_enabled, colors)
}

} // verus!
