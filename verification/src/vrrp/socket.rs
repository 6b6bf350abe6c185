//! What the VRRP socket computes: the options it is opened with, the group it
//! joins, the bytes it sends and what it makes of the bytes it receives.

use crate::buffer::bytes_contents;
use crate::net::IpAddr;
use crate::vrrp::checksum::{checksum_spec, lemma_set_checksum_verifies};
use crate::vrrp::packet::{
    lemma_parse_roundtrip, parse_spec, well_formed, wire_bytes, PacketView, ParseError, VRRPPacket,
};
use crate::vrrp::types::{multicast_addr_v4, multicast_addr_v6, VRRP_TTL};
use bytes::Bytes;
use vstd::prelude::*;

verus! {

/// One option that the raw socket is opened with.
#[derive(Debug, Clone, Copy, PartialEq, Eq, Structural)]
pub enum SocketOption {
    /// Reads and writes do not block.
    NonBlocking,
    /// Several routers may bind the same address.
    ReuseAddress,
    /// TTL (IPv4) or hop limit (IPv6) of unicast packets.
    UnicastHops(u8),
    /// TTL (IPv4) or hop limit (IPv6) of multicast packets.
    MulticastHops(u8),
    /// Whether multicast packets come back to the sender.
    MulticastLoop(bool),
}

/// The options of a VRRP socket, in the order in which they are set.
pub open spec fn socket_options_spec() -> Seq<SocketOption> {
    seq![
        SocketOption::NonBlocking,
        SocketOption::ReuseAddress,
        SocketOption::UnicastHops(255),
        SocketOption::MulticastHops(255),
        SocketOption::MulticastLoop(false),
    ]
}

/// The options that a VRRP socket is opened with: non-blocking, shared
/// address, TTL or hop limit 255 for unicast and multicast, no multicast
/// loop. They are the same for both families; the family decides at which
/// protocol level they are set.
pub fn socket_options() -> (options: Vec<SocketOption>)
    ensures
        options@ == socket_options_spec(),
{
    let mut options: Vec<SocketOption> = Vec::new();
    options.push(SocketOption::NonBlocking);
    options.push(SocketOption::ReuseAddress);
    options.push(SocketOption::UnicastHops(VRRP_TTL));
    options.push(SocketOption::MulticastHops(VRRP_TTL));
    options.push(SocketOption::MulticastLoop(false));
    assert(options@ =~= socket_options_spec());
    options
}

/// The multicast group of the family: 224.0.0.18 or ff02::12.
pub open spec fn multicast_group_spec(is_ipv6: bool) -> IpAddr {
    if is_ipv6 {
        IpAddr::V6(
            [0xffu8, 0x02u8, 0u8, 0u8, 0u8, 0u8, 0u8, 0u8, 0u8, 0u8, 0u8, 0u8, 0u8, 0u8, 0u8, 0x12u8],
        )
    } else {
        IpAddr::V4([224u8, 0u8, 0u8, 18u8])
    }
}

/// The multicast group that a socket of the family joins and sends to.
pub fn multicast_group(is_ipv6: bool) -> (group: IpAddr)
    ensures
        group == multicast_group_spec(is_ipv6),
{
    if is_ipv6 {
        multicast_addr_v6()
    } else {
        multicast_addr_v4()
    }
}

/// The packet with its checksum field set for a journey from `src` to the
/// multicast group of the family.
pub open spec fn sealed(p: PacketView, src: IpAddr, is_ipv6: bool) -> PacketView {
    PacketView { checksum: checksum_spec(p, src, multicast_group_spec(is_ipv6)), ..p }
}

/// The bytes that go on the wire for `packet` sent from `src_ip`: the packet
/// with its checksum computed against the multicast group of the family.
pub fn prepare_advertisement(packet: &VRRPPacket, src_ip: IpAddr, is_ipv6: bool) -> (out: Bytes)
    requires
        packet.fits(),
    ensures
        bytes_contents(out) == wire_bytes(sealed(packet@, src_ip, is_ipv6)),
{
    let mut addresses: Vec<IpAddr> = Vec::new();
    let n: usize = packet.ip_addresses.len();
    let mut i: usize = 0;
    while i < n
        invariant
            i <= n,
            n == packet.ip_addresses@.len(),
            addresses@ == packet.ip_addresses@.take(i as int),
        decreases n - i,
    {
        addresses.push(packet.ip_addresses[i]);
        assert(addresses@ =~= packet.ip_addresses@.take(i + 1));
        i += 1;
    }
    assert(addresses@ =~= packet.ip_addresses@);
    let mut with_checksum = VRRPPacket {
        version_type: packet.version_type,
        vrid: packet.vrid,
        priority: packet.priority,
        count_ip: packet.count_ip,
        max_advert_int: packet.max_advert_int,
        checksum: packet.checksum,
        ip_addresses: addresses,
    };
    assert(with_checksum@ == packet@);
    with_checksum.set_checksum(src_ip, multicast_group(is_ipv6));
    with_checksum.to_bytes()
}

/// Why a received datagram is not taken for an advertisement.
#[derive(Debug, Clone, Copy, PartialEq, Eq, Structural)]
pub enum ReceiveError {
    /// The TTL or hop limit was not 255: the packet crossed a router.
    HopLimit,
    /// Fewer than eight bytes.
    TooShort,
    /// The version is not 3.
    InvalidVersion,
    /// The type is not 1.
    InvalidType,
    /// The length fits neither family for the stated count.
    InvalidLength,
}

/// What a datagram that arrived with the given TTL or hop limit means.
pub open spec fn accept_spec(data: Seq<u8>, hops: u8) -> Result<PacketView, ReceiveError> {
    if hops != 255 {
        Err(ReceiveError::HopLimit)
    } else {
        match parse_spec(data) {
            Ok(p) => Ok(p),
            Err(ParseError::TooShort) => Err(ReceiveError::TooShort),
            Err(ParseError::InvalidVersion) => Err(ReceiveError::InvalidVersion),
            Err(ParseError::InvalidType) => Err(ReceiveError::InvalidType),
            Err(ParseError::InvalidLength) => Err(ReceiveError::InvalidLength),
        }
    }
}

/// Takes a received datagram for an advertisement, or says why not. A
/// datagram whose TTL or hop limit is below 255 is refused unread.
pub fn accept_datagram(data: &[u8], hops: u8) -> (r: Result<VRRPPacket, ReceiveError>)
    ensures
        match accept_spec(data@, hops) {
            Ok(p) => r is Ok && r->Ok_0@ == p,
            Err(e) => r == Err::<VRRPPacket, ReceiveError>(e),
        },
{
    if hops != VRRP_TTL {
        return Err(ReceiveError::HopLimit);
    }
    if data.len() < 8 {
        return Err(ReceiveError::TooShort);
    }
    if data[0] / 16 != 3 {
        return Err(ReceiveError::InvalidVersion);
    }
    if data[0] % 16 != 1 {
        return Err(ReceiveError::InvalidType);
    }
    match VRRPPacket::parse(data) {
        Ok(p) => Ok(p),
        Err(_) => Err(ReceiveError::InvalidLength),
    }
}

/// Where the payload of an IPv4 datagram starts and with which TTL it
/// arrived, if the bytes start with an IPv4 header that they hold in full.
pub open spec fn ipv4_payload_spec(data: Seq<u8>) -> Option<(u8, int)> {
    if data.len() >= 20 && data[0] / 16 == 4 && data[0] % 16 >= 5 && (data[0] % 16) * 4
        <= data.len() {
        Some((data[8], (data[0] % 16) * 4))
    } else {
        None
    }
}

/// Splits a datagram as a raw IPv4 socket hands it over: the TTL of its IP
/// header and the offset at which the payload starts.
pub fn split_ipv4_datagram(data: &[u8]) -> (r: Option<(u8, usize)>)
    ensures
        match ipv4_payload_spec(data@) {
            Some((ttl, offset)) => r == Some((ttl, offset as usize)) && offset <= data@.len(),
            None => r is None,
        },
{
    if data.len() < 20 {
        return None;
    }
    let first: u8 = data[0];
    if first / 16 != 4 || first % 16 < 5 {
        return None;
    }
    let offset: usize = (first % 16) as usize * 4;
    if offset > data.len() {
        return None;
    }
    Some((data[8], offset))
}

/// Every advertisement that leaves the socket is of version 3 and type 1,
/// carries a checksum that verifies against its source and the group it is
/// sent to, parses back to the packet that was sent, and travels with TTL or
/// hop limit 255.
pub proof fn lemma_emitted_advertisement(p: PacketView, src: IpAddr, is_ipv6: bool)
    requires
        well_formed(p),
    ensures
        ({
            let q = sealed(p, src, is_ipv6);
            &&& parse_spec(wire_bytes(q)) == Ok::<PacketView, ParseError>(q)
            &&& q.version_type / 16 == 3
            &&& q.version_type % 16 == 1
            &&& checksum_spec(q, src, multicast_group_spec(is_ipv6)) == q.checksum
            &&& accept_spec(wire_bytes(q), 255) == Ok::<PacketView, ReceiveError>(q)
        }),
        socket_options_spec().contains(SocketOption::UnicastHops(255)),
        socket_options_spec().contains(SocketOption::MulticastHops(255)),
{
    let q = sealed(p, src, is_ipv6);
    lemma_parse_roundtrip(q);
    lemma_set_checksum_verifies(p, src, multicast_group_spec(is_ipv6));
    assert(socket_options_spec()[2] == SocketOption::UnicastHops(255));
    assert(socket_options_spec()[3] == SocketOption::MulticastHops(255));
}

} // verus!
