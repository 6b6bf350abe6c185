//! The VRRP advertisement: its wire format, parser and serializer.
//!
//! ```text
//!  0                   1                   2                   3
//!  0 1 2 3 4 5 6 7 8 9 0 1 2 3 4 5 6 7 8 9 0 1 2 3 4 5 6 7 8 9 0 1
//! +-+-+-+-+-+-+-+-+-+-+-+-+-+-+-+-+-+-+-+-+-+-+-+-+-+-+-+-+-+-+-+-+
//! |Version| Type  | Virtual Rtr ID|   Priority    | Count IP Addrs|
//! +-+-+-+-+-+-+-+-+-+-+-+-+-+-+-+-+-+-+-+-+-+-+-+-+-+-+-+-+-+-+-+-+
//! |(rsvd) |     Max Adver Int     |          Checksum             |
//! +-+-+-+-+-+-+-+-+-+-+-+-+-+-+-+-+-+-+-+-+-+-+-+-+-+-+-+-+-+-+-+-+
//! |                       IP Address(es)                          |
//! +-+-+-+-+-+-+-+-+-+-+-+-+-+-+-+-+-+-+-+-+-+-+-+-+-+-+-+-+-+-+-+-+
//! ```

use crate::buffer::{
    buffer_contents, buffer_freeze, buffer_put_slice, buffer_put_u16, buffer_put_u8,
    buffer_with_capacity, bytes_as_slice, bytes_contents,
};
use crate::net::IpAddr;
use crate::vrrp::checksum::{
    address_sum, checksum_spec, fold16, lemma_addresses_bytes_len, lemma_fold_small,
    lemma_fold_step, word_count, words_sum,
};
use bytes::Bytes;
use vstd::prelude::*;

verus! {

/// Version 3 in the high four bits, type 1 (advertisement) in the low four.
pub const VERSION_TYPE_ADVERTISEMENT: u8 = 0x31;

/// Length of the fixed header that precedes the address slots.
pub const HEADER_LEN: usize = 8;

/// A VRRP advertisement.
#[derive(Debug, Clone, PartialEq, Eq)]
pub struct VRRPPacket {
    /// Version (high four bits) and type (low four bits).
    pub version_type: u8,
    /// Virtual router identifier.
    pub vrid: u8,
    /// Priority of the sender; 0 announces that the master is leaving.
    pub priority: u8,
    /// Number of address slots.
    pub count_ip: u8,
    /// Advertisement interval in centiseconds.
    pub max_advert_int: u16,
    /// Checksum over the packet and the IP pseudo-header.
    pub checksum: u16,
    /// The virtual addresses.
    pub ip_addresses: Vec<IpAddr>,
}

/// The mathematical value of a [`VRRPPacket`].
pub struct PacketView {
    pub version_type: u8,
    pub vrid: u8,
    pub priority: u8,
    pub count_ip: u8,
    pub max_advert_int: u16,
    pub checksum: u16,
    pub ip_addresses: Seq<IpAddr>,
}

impl View for VRRPPacket {
    type V = PacketView;

    open spec fn view(&self) -> PacketView {
        PacketView {
            version_type: self.version_type,
            vrid: self.vrid,
            priority: self.priority,
            count_ip: self.count_ip,
            max_advert_int: self.max_advert_int,
            checksum: self.checksum,
            ip_addresses: self.ip_addresses@,
        }
    }
}

/// Why a byte string is not an advertisement.
pub enum ParseError {
    /// Fewer than eight bytes.
    TooShort,
    /// The version is not 3.
    InvalidVersion,
    /// The type is not 1.
    InvalidType,
    /// The length fits neither IPv4 nor IPv6 slots for the stated count.
    InvalidLength,
}

impl ParseError {
    /// The text that the parser reports for this failure.
    pub open spec fn message(self) -> Seq<char> {
        match self {
            ParseError::TooShort => "Packet too short"@,
            ParseError::InvalidVersion => "Invalid VRRP version"@,
            ParseError::InvalidType => "Invalid packet type"@,
            ParseError::InvalidLength => "Invalid packet length"@,
        }
    }
}

/// The octets of all addresses, one slot after the other.
pub open spec fn addresses_bytes(ips: Seq<IpAddr>) -> Seq<u8>
    decreases ips.len(),
{
    if ips.len() == 0 {
        Seq::empty()
    } else {
        addresses_bytes(ips.drop_last()) + ips.last().octets()
    }
}

/// The eight header bytes of a packet.
pub open spec fn header_bytes(p: PacketView) -> Seq<u8> {
    seq![
        p.version_type,
        p.vrid,
        p.priority,
        p.count_ip,
        (p.max_advert_int / 256) as u8,
        (p.max_advert_int % 256) as u8,
        (p.checksum / 256) as u8,
        (p.checksum % 256) as u8,
    ]
}

/// The packet as it goes on the wire.
pub open spec fn wire_bytes(p: PacketView) -> Seq<u8> {
    header_bytes(p) + addresses_bytes(p.ip_addresses)
}

/// The IPv4 address in slot `i` of the address area of `data`.
pub open spec fn v4_slot(data: Seq<u8>, i: int) -> IpAddr {
    IpAddr::V4([data[8 + 4 * i], data[8 + 4 * i + 1], data[8 + 4 * i + 2], data[8 + 4 * i + 3]])
}

/// The IPv6 address in slot `i` of the address area of `data`.
pub open spec fn v6_slot(data: Seq<u8>, i: int) -> IpAddr {
    let b = 8 + 16 * i;
    IpAddr::V6(
        [
            data[b],
            data[b + 1],
            data[b + 2],
            data[b + 3],
            data[b + 4],
            data[b + 5],
            data[b + 6],
            data[b + 7],
            data[b + 8],
            data[b + 9],
            data[b + 10],
            data[b + 11],
            data[b + 12],
            data[b + 13],
            data[b + 14],
            data[b + 15],
        ],
    )
}

/// The header fields of `data`, with the given addresses.
pub open spec fn parsed_with(data: Seq<u8>, ips: Seq<IpAddr>) -> PacketView {
    PacketView {
        version_type: data[0],
        vrid: data[1],
        priority: data[2],
        count_ip: data[3],
        max_advert_int: ((data[4] % 16) * 256 + data[5]) as u16,
        checksum: (data[6] * 256 + data[7]) as u16,
        ip_addresses: ips,
    }
}

/// What a byte string means as an advertisement.
///
/// The family of the address slots follows from the length: `8 + 4·count`
/// bytes hold IPv4 slots, `8 + 16·count` bytes hold IPv6 slots. The four
/// reserved bits above the advertisement interval are dropped.
pub open spec fn parse_spec(data: Seq<u8>) -> Result<PacketView, ParseError> {
    if data.len() < 8 {
        Err(ParseError::TooShort)
    } else if data[0] / 16 != 3 {
        Err(ParseError::InvalidVersion)
    } else if data[0] % 16 != 1 {
        Err(ParseError::InvalidType)
    } else if data.len() == 8 + 4 * data[3] {
        Ok(parsed_with(data, Seq::new(data[3] as nat, |i: int| v4_slot(data, i))))
    } else if data.len() == 8 + 16 * data[3] {
        Ok(parsed_with(data, Seq::new(data[3] as nat, |i: int| v6_slot(data, i))))
    } else {
        Err(ParseError::InvalidLength)
    }
}

/// A packet that the wire format can carry without loss: an advertisement of
/// version 3 whose count is the number of its addresses, whose addresses are
/// of one family, and whose interval fits in twelve bits.
pub open spec fn well_formed(p: PacketView) -> bool {
    &&& p.version_type == VERSION_TYPE_ADVERTISEMENT
    &&& p.count_ip == p.ip_addresses.len()
    &&& p.max_advert_int < 4096
    &&& (forall|i: int| 0 <= i < p.ip_addresses.len() ==> p.ip_addresses[i] is V4) || (forall|
        i: int,
    | 0 <= i < p.ip_addresses.len() ==> p.ip_addresses[i] is V6)
}

impl VRRPPacket {
    /// Whether the serialized packet fits into a buffer.
    pub open spec fn fits(&self) -> bool {
        8 + 16 * self.ip_addresses@.len() <= isize::MAX
    }

    /// Whether the serialized packet fits into a buffer.
    pub fn check_fits(&self) -> (r: bool)
        ensures
            r == self.fits(),
    {
        self.ip_addresses.len() <= (usize::MAX / 2 - 8) / 16
    }

    /// A new advertisement with a zero checksum. The count is the number of
    /// addresses, reduced to eight bits.
    pub fn new(vrid: u8, priority: u8, advert_interval: u16, ips: Vec<IpAddr>) -> (p: Self)
        ensures
            p@ == (PacketView {
                version_type: VERSION_TYPE_ADVERTISEMENT,
                vrid,
                priority,
                count_ip: (ips@.len() % 256) as u8,
                max_advert_int: advert_interval,
                checksum: 0,
                ip_addresses: ips@,
            }),
    {
        let count: usize = ips.len() % 256;
        VRRPPacket {
            version_type: VERSION_TYPE_ADVERTISEMENT,
            vrid,
            priority,
            count_ip: count as u8,
            max_advert_int: advert_interval,
            checksum: 0,
            ip_addresses: ips,
        }
    }

    /// Parses an advertisement from raw bytes.
    pub fn parse(data: &[u8]) -> (r: Result<Self, &'static str>)
        ensures
            match parse_spec(data@) {
                Ok(v) => r is Ok && r->Ok_0@ == v,
                Err(e) => r is Err && r->Err_0@ == e.message(),
            },
    {
        if data.len() < 8 {
            return Err("Packet too short");
        }
        let version_type: u8 = data[0];
        if version_type / 16 != 3 {
            return Err("Invalid VRRP version");
        }
        if version_type % 16 != 1 {
            return Err("Invalid packet type");
        }
        let vrid: u8 = data[1];
        let priority: u8 = data[2];
        let count_ip: u8 = data[3];
        let max_advert_int: u16 = (data[4] % 16) as u16 * 256 + data[5] as u16;
        let checksum: u16 = data[6] as u16 * 256 + data[7] as u16;
        let count: usize = count_ip as usize;
        let mut ip_addresses: Vec<IpAddr> = Vec::new();
        if data.len() == 8 + 4 * count {
            let mut i: usize = 0;
            while i < count
                invariant
                    i <= count,
                    count <= 255,
                    data@.len() == 8 + 4 * count,
                    ip_addresses@.len() == i,
                    forall|j: int| 0 <= j < i ==> ip_addresses@[j] == v4_slot(data@, j),
                decreases count - i,
            {
                let b: usize = 8 + 4 * i;
                ip_addresses.push(IpAddr::V4([data[b], data[b + 1], data[b + 2], data[b + 3]]));
                i += 1;
            }
            assert(ip_addresses@ =~= Seq::new(count as nat, |i: int| v4_slot(data@, i)));
        } else if data.len() == 8 + 16 * count {
            let mut i: usize = 0;
            while i < count
                invariant
                    i <= count,
                    count <= 255,
                    data@.len() == 8 + 16 * count,
                    ip_addresses@.len() == i,
                    forall|j: int| 0 <= j < i ==> ip_addresses@[j] == v6_slot(data@, j),
                decreases count - i,
            {
                let b: usize = 8 + 16 * i;
                ip_addresses.push(
                    IpAddr::V6(
                        [
                            data[b],
                            data[b + 1],
                            data[b + 2],
                            data[b + 3],
                            data[b + 4],
                            data[b + 5],
                            data[b + 6],
                            data[b + 7],
                            data[b + 8],
                            data[b + 9],
                            data[b + 10],
                            data[b + 11],
                            data[b + 12],
                            data[b + 13],
                            data[b + 14],
                            data[b + 15],
                        ],
                    ),
                );
                i += 1;
            }
            assert(ip_addresses@ =~= Seq::new(count as nat, |i: int| v6_slot(data@, i)));
        } else {
            return Err("Invalid packet length");
        }
        Ok(
            VRRPPacket {
                version_type,
                vrid,
                priority,
                count_ip,
                max_advert_int,
                checksum,
                ip_addresses,
            },
        )
    }

    /// Serializes the packet, checksum field included as it stands.
    pub fn to_bytes(&self) -> (out: Bytes)
        requires
            self.fits(),
        ensures
            bytes_contents(out) == wire_bytes(self@),
    {
        let n: usize = self.ip_addresses.len();
        let mut buf = buffer_with_capacity(8 + 16 * n);
        buffer_put_u8(&mut buf, self.version_type);
        buffer_put_u8(&mut buf, self.vrid);
        buffer_put_u8(&mut buf, self.priority);
        buffer_put_u8(&mut buf, self.count_ip);
        buffer_put_u16(&mut buf, self.max_advert_int);
        buffer_put_u16(&mut buf, self.checksum);
        assert(buffer_contents(buf) =~= header_bytes(self@));
        let mut i: usize = 0;
        while i < n
            invariant
                i <= n,
                n == self.ip_addresses@.len(),
                self.fits(),
                buffer_contents(buf).len() <= 8 + 16 * i,
                buffer_contents(buf) == header_bytes(self@) + addresses_bytes(
                    self.ip_addresses@.take(i as int),
                ),
            decreases n - i,
        {
            proof {
                lemma_addresses_bytes_step(self.ip_addresses@, i as int);
            }
            match &self.ip_addresses[i] {
                IpAddr::V4(octets) => {
                    buffer_put_slice(&mut buf, octets.as_slice());
                },
                IpAddr::V6(octets) => {
                    buffer_put_slice(&mut buf, octets.as_slice());
                },
            }
            i += 1;
        }
        assert(self.ip_addresses@.take(n as int) =~= self.ip_addresses@);
        buffer_freeze(buf)
    }

    /// The checksum of this packet when sent from `src_ip` to `dst_ip`: the
    /// one's-complement sum over the packet, its checksum field taken as zero,
    /// and the pseudo-header. Addresses of different families give 0.
    pub fn calculate_checksum(&self, src_ip: IpAddr, dst_ip: IpAddr) -> (c: u16)
        requires
            self.fits(),
        ensures
            c == checksum_spec(self@, src_ip, dst_ip),
    {
        if src_ip.is_ipv4() != dst_ip.is_ipv4() {
            return 0;
        }
        let packet = self.to_bytes();
        let data = bytes_as_slice(&packet);
        let n: usize = data.len();
        proof {
            lemma_addresses_bytes_len(self.ip_addresses@);
        }
        let mut sum: u128 = address_words(&src_ip) + address_words(&dst_ip) + 112 + n as u128;
        let ghost start: int = sum as int;
        let mut i: usize = 0;
        while i < n
            invariant
                n == data@.len(),
                n <= isize::MAX,
                i % 2 == 0,
                i <= n + 1,
                112 <= start <= 0x20_0000 + n,
                sum == start + words_sum(data@, (i / 2) as nat),
                start <= sum,
                sum <= start + 65535 * (i / 2),
            decreases n + 1 - i,
        {
            if i != 6 {
                let hi: u128 = data[i] as u128;
                let lo: u128 = if i + 1 < n {
                    data[i + 1] as u128
                } else {
                    0
                };
                sum = sum + (hi * 256 + lo);
            }
            assert(words_sum(data@, (i / 2 + 1) as nat) == words_sum(data@, (i / 2) as nat) + if i
                / 2 == 3 {
                0
            } else {
                crate::vrrp::checksum::word_at(data@, 2 * (i / 2))
            });
            i += 2;
        }
        assert(i / 2 == word_count(data@));
        let ghost total: int = sum as int;
        while sum > 65535
            invariant
                sum > 0,
                fold16(sum as int) == fold16(total),
            decreases sum,
        {
            proof {
                lemma_fold_step(sum as int);
            }
            sum = sum % 65536 + sum / 65536;
        }
        proof {
            lemma_fold_small(sum as int);
        }
        (65535 - sum) as u16
    }

    /// Sets the checksum field to the checksum for `src_ip` and `dst_ip`.
    pub fn set_checksum(&mut self, src_ip: IpAddr, dst_ip: IpAddr)
        requires
            old(self).fits(),
        ensures
            final(self)@ == (PacketView {
                checksum: checksum_spec(old(self)@, src_ip, dst_ip),
                ..old(self)@
            }),
    {
        self.checksum = self.calculate_checksum(src_ip, dst_ip);
    }

    /// Whether the checksum field holds the checksum for `src_ip` and
    /// `dst_ip`.
    pub fn verify_checksum(&self, src_ip: IpAddr, dst_ip: IpAddr) -> (ok: bool)
        requires
            self.fits(),
        ensures
            ok == (checksum_spec(self@, src_ip, dst_ip) == self.checksum),
    {
        let calculated: u16 = self.calculate_checksum(src_ip, dst_ip);
        calculated == self.checksum
    }
}

/// The sum of the 16-bit words of an address.
fn address_words(ip: &IpAddr) -> (s: u128)
    ensures
        s == address_sum(*ip),
        s <= 8 * 65535,
{
    match ip {
        IpAddr::V4(o) => {
            (o[0] as u128 * 256 + o[1] as u128) + (o[2] as u128 * 256 + o[3] as u128)
        },
        IpAddr::V6(o) => {
            (o[0] as u128 * 256 + o[1] as u128) + (o[2] as u128 * 256 + o[3] as u128) + (o[4] as u128
                * 256 + o[5] as u128) + (o[6] as u128 * 256 + o[7] as u128) + (o[8] as u128 * 256
                + o[9] as u128) + (o[10] as u128 * 256 + o[11] as u128) + (o[12] as u128 * 256
                + o[13] as u128) + (o[14] as u128 * 256 + o[15] as u128)
        },
    }
}

/// Serializing one more address appends its octets.
pub proof fn lemma_addresses_bytes_step(ips: Seq<IpAddr>, i: int)
    requires
        0 <= i < ips.len(),
    ensures
        addresses_bytes(ips.take(i + 1)) == addresses_bytes(ips.take(i)) + ips[i].octets(),
{
    assert(ips.take(i + 1).drop_last() =~= ips.take(i));
}

} // verus!

verus! {

/// Byte `k` of IPv4 slot `i` in the serialized addresses.
pub proof fn lemma_address_byte_v4(ips: Seq<IpAddr>, i: int, k: int)
    requires
        forall|j: int| 0 <= j < ips.len() ==> ips[j] is V4,
        0 <= i < ips.len(),
        0 <= k < 4,
    ensures
        addresses_bytes(ips).len() == 4 * ips.len(),
        addresses_bytes(ips)[4 * i + k] == ips[i].octets()[k],
    decreases ips.len(),
{
    lemma_addresses_len_v4(ips.drop_last());
    assert(ips.last().octets().len() == 4);
    if i < ips.len() - 1 {
        lemma_address_byte_v4(ips.drop_last(), i, k);
    }
}

/// IPv4 addresses serialize to four bytes each.
pub proof fn lemma_addresses_len_v4(ips: Seq<IpAddr>)
    requires
        forall|j: int| 0 <= j < ips.len() ==> ips[j] is V4,
    ensures
        addresses_bytes(ips).len() == 4 * ips.len(),
    decreases ips.len(),
{
    if ips.len() > 0 {
        lemma_addresses_len_v4(ips.drop_last());
        assert(ips.last().octets().len() == 4);
    }
}

/// Byte `k` of IPv6 slot `i` in the serialized addresses.
pub proof fn lemma_address_byte_v6(ips: Seq<IpAddr>, i: int, k: int)
    requires
        forall|j: int| 0 <= j < ips.len() ==> ips[j] is V6,
        0 <= i < ips.len(),
        0 <= k < 16,
    ensures
        addresses_bytes(ips).len() == 16 * ips.len(),
        addresses_bytes(ips)[16 * i + k] == ips[i].octets()[k],
    decreases ips.len(),
{
    lemma_addresses_len_v6(ips.drop_last());
    assert(ips.last().octets().len() == 16);
    if i < ips.len() - 1 {
        lemma_address_byte_v6(ips.drop_last(), i, k);
    }
}

/// IPv6 addresses serialize to sixteen bytes each.
pub proof fn lemma_addresses_len_v6(ips: Seq<IpAddr>)
    requires
        forall|j: int| 0 <= j < ips.len() ==> ips[j] is V6,
    ensures
        addresses_bytes(ips).len() == 16 * ips.len(),
    decreases ips.len(),
{
    if ips.len() > 0 {
        lemma_addresses_len_v6(ips.drop_last());
        assert(ips.last().octets().len() == 16);
    }
}

/// Slot `i` of the wire bytes of a packet of IPv4 addresses is its address `i`.
proof fn lemma_v4_slot(p: PacketView, i: int)
    requires
        forall|j: int| 0 <= j < p.ip_addresses.len() ==> p.ip_addresses[j] is V4,
        0 <= i < p.ip_addresses.len(),
    ensures
        v4_slot(wire_bytes(p), i) == p.ip_addresses[i],
{
    let data = wire_bytes(p);
    let ips = p.ip_addresses;
    let o = ips[i]->V4_0;
    assert(header_bytes(p).len() == 8);
    lemma_address_byte_v4(ips, i, 0);
    lemma_address_byte_v4(ips, i, 1);
    lemma_address_byte_v4(ips, i, 2);
    lemma_address_byte_v4(ips, i, 3);
    assert(data[8 + 4 * i] == addresses_bytes(ips)[4 * i + 0]);
    assert(data[8 + 4 * i + 1] == addresses_bytes(ips)[4 * i + 1]);
    assert(data[8 + 4 * i + 2] == addresses_bytes(ips)[4 * i + 2]);
    assert(data[8 + 4 * i + 3] == addresses_bytes(ips)[4 * i + 3]);
    assert(v4_slot(data, i)->V4_0 =~= o);
}

/// Slot `i` of the wire bytes of a packet of IPv6 addresses is its address `i`.
proof fn lemma_v6_slot(p: PacketView, i: int)
    requires
        forall|j: int| 0 <= j < p.ip_addresses.len() ==> p.ip_addresses[j] is V6,
        0 <= i < p.ip_addresses.len(),
    ensures
        v6_slot(wire_bytes(p), i) == p.ip_addresses[i],
{
    let data = wire_bytes(p);
    let ips = p.ip_addresses;
    let o = ips[i]->V6_0;
    assert(header_bytes(p).len() == 8);
    assert forall|k: int| 0 <= k < 16 implies data[8 + 16 * i + k] == o[k] by {
        lemma_address_byte_v6(ips, i, k);
        assert(data[8 + 16 * i + k] == addresses_bytes(ips)[16 * i + k]);
    }
    assert(v6_slot(data, i)->V6_0 =~= o);
}

/// The header of the wire bytes parses back to the fields of the packet.
proof fn lemma_header_roundtrip(p: PacketView, ips: Seq<IpAddr>)
    requires
        p.max_advert_int < 4096,
        ips == p.ip_addresses,
    ensures
        parsed_with(wire_bytes(p), ips) == p,
        wire_bytes(p).len() == 8 + addresses_bytes(p.ip_addresses).len(),
        wire_bytes(p)[0] == p.version_type,
        wire_bytes(p)[3] == p.count_ip,
{
    let data = wire_bytes(p);
    assert(header_bytes(p).len() == 8);
    assert(forall|i: int| 0 <= i < 8 ==> data[i] == header_bytes(p)[i]);
}

/// Parsing undoes serializing: a well-formed packet comes back from its own
/// wire bytes unchanged.
pub proof fn lemma_parse_roundtrip(p: PacketView)
    requires
        well_formed(p),
    ensures
        parse_spec(wire_bytes(p)) == Ok::<PacketView, ParseError>(p),
{
    let data = wire_bytes(p);
    let ips = p.ip_addresses;
    let n = ips.len();
    lemma_header_roundtrip(p, ips);
    if forall|i: int| 0 <= i < ips.len() ==> ips[i] is V4 {
        lemma_addresses_len_v4(ips);
        let parsed = Seq::new(n, |i: int| v4_slot(data, i));
        assert forall|i: int| 0 <= i < n implies parsed[i] == ips[i] by {
            lemma_v4_slot(p, i);
        }
        assert(parsed =~= ips);
    } else {
        lemma_addresses_len_v6(ips);
        let parsed = Seq::new(n, |i: int| v6_slot(data, i));
        assert forall|i: int| 0 <= i < n implies parsed[i] == ips[i] by {
            lemma_v6_slot(p, i);
        }
        assert(parsed =~= ips);
    }
}

} // verus!
