//! The packet rules of the IPv6 tunnel between the TUN adapter and the
//! TLS stream to the device.

use vstd::prelude::*;
use crate::bytes::{be_u16_at, copy_range, push_all, read_u16_be};

verus! {

/// The size of an IPv6 header.
pub const IPV6_HEADER_SIZE: usize = 40;

/// The first byte of `packet` holds IP version 6 in its high four bits.
pub open spec fn is_ipv6(packet: Seq<u8>) -> bool {
    packet.len() > 0 && (packet[0] >> 4u8) == 6
}

/// The whole length of the packet that an IPv6 header starts: the header
/// and the payload length it holds at offset 4.
pub open spec fn ipv6_packet_len(header: Seq<u8>) -> int {
    IPV6_HEADER_SIZE as int + be_u16_at(header, 4) as int
}

/// Whether a packet read from the TUN adapter goes to the device: only
/// IPv6 packets do.
pub fn accept_tun_packet(packet: &[u8]) -> (r: bool)
    ensures
        r == is_ipv6(packet@),
{
    packet.len() > 0 && (packet[0] >> 4u8) == 6
}

/// The packet to send to the device for a packet read from the TUN adapter,
/// or `None` where it is dropped.
pub fn tun_to_net(packet: &[u8]) -> (r: Option<Vec<u8>>)
    ensures
        r is Some <==> is_ipv6(packet@),
        r matches Some(out) ==> out@ == packet@ && (out@[0] >> 4u8) == 6,
{
    if accept_tun_packet(packet) {
        Some(copy_range(packet, 0, packet.len()))
    } else {
        None
    }
}

/// The payload length of the packet whose 40-byte header came from the
/// device, or `None` where the header is not IPv6 and reading stops.
pub fn net_payload_length(header: &[u8]) -> (r: Option<u16>)
    requires
        header@.len() == IPV6_HEADER_SIZE,
    ensures
        r is Some <==> is_ipv6(header@),
        r matches Some(n) ==> n == be_u16_at(header@, 4),
{
    if accept_tun_packet(header) {
        Some(read_u16_be(header, 4))
    } else {
        None
    }
}

/// The packet to hand to the TUN adapter: the header read from the device
/// and the payload read after it.
pub fn assemble_net_packet(header: &[u8], payload: &[u8]) -> (r: Vec<u8>)
    requires
        header@.len() == IPV6_HEADER_SIZE,
        payload@.len() == be_u16_at(header@, 4),
    ensures
        r@ == header@ + payload@,
        r@.len() == ipv6_packet_len(header@),
        r@.len() == IPV6_HEADER_SIZE + be_u16_at(r@, 4),
{
    let mut r = copy_range(header, 0, header.len());
    assert(r@ =~= header@);
    push_all(&mut r, payload);
    assert(r@[4] == header@[4] && r@[5] == header@[5]);
    r
}

} // verus!
