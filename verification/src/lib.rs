//! Zero-copy views onto the headers of one captured frame: Ethernet (with up
//! to two VLAN tags), IPv4, TCP and UDP, and the Internet checksum that IPv4
//! and TCP carry.
//!
//! A view borrows exactly the bytes of its header. Its constructor measures the
//! header from the header's own length field, checks the buffer against that
//! length, and hands back the unconsumed rest, so that the headers of a frame
//! are parsed one after another over a single buffer and never overlap.
use vstd::prelude::*;

pub mod checksum;
pub mod link;
pub mod network;
pub mod transport;
pub mod window;

verus! {

/// Ethernet, IPv4 and TCP headers parsed one behind the other, each from what
/// the one before left, lie in the frame back to back from its first byte on:
/// no two share a byte, and what is left behind the third is the payload.
/// Their lengths and the payload's add up to the frame's.
///
/// `packet` and `segment` are what the constructors of the Ethernet and of the
/// IPv4 view hand back as the rest.
pub proof fn lemma_headers_partition(
    frame: Seq<u8>,
    eth: link::eth::EtherSize,
    ip: network::ipv4::IPv4Size,
    tcp: transport::tcp::TcpSize,
)
    requires
        link::eth::measure(frame) == Ok::<_, link::eth::Error>(eth),
        network::ipv4::measure(frame.subrange(eth.as_usize() as int, frame.len() as int)) == Ok::<
            _,
            network::ipv4::Error,
        >(ip),
        transport::tcp::measure(
            frame.subrange(eth.as_usize() as int, frame.len() as int).subrange(
                ip.as_usize() as int,
                frame.len() - eth.as_usize(),
            ),
        ) == Ok::<_, transport::tcp::Error>(tcp),
    ensures
        ({
            let e = eth.as_usize() as int;
            let i = ip.as_usize() as int;
            let t = tcp.as_usize() as int;
            let len = frame.len() as int;
            let packet = frame.subrange(e, len);
            let segment = packet.subrange(i, len - e);
            let payload = segment.subrange(t, len - e - i);
            &&& e + i + t + payload.len() == len
            &&& packet.subrange(0, i) == frame.subrange(e, e + i)
            &&& segment.subrange(0, t) == frame.subrange(e + i, e + i + t)
            &&& payload == frame.subrange(e + i + t, len)
            &&& frame.subrange(0, e) + frame.subrange(e, e + i) + frame.subrange(e + i, e + i + t)
                + payload == frame
        }),
{
    let e = eth.as_usize() as int;
    let i = ip.as_usize() as int;
    let t = tcp.as_usize() as int;
    let len = frame.len() as int;
    let packet = frame.subrange(e, len);
    let segment = packet.subrange(i, len - e);
    let payload = segment.subrange(t, len - e - i);
    assert(packet.subrange(0, i) =~= frame.subrange(e, e + i));
    assert(segment.subrange(0, t) =~= frame.subrange(e + i, e + i + t));
    assert(payload =~= frame.subrange(e + i + t, len));
    assert(frame.subrange(0, e) + frame.subrange(e, e + i) + frame.subrange(e + i, e + i + t)
        + payload =~= frame);
}

} // verus!
