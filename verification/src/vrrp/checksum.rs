//! The Internet checksum of an advertisement: the 16-bit one's-complement sum
//! over the packet, its checksum field taken as zero, and the IP pseudo-header.

use crate::net::IpAddr;
use crate::vrrp::packet::{addresses_bytes, header_bytes, wire_bytes, PacketView};
use vstd::prelude::*;

verus! {

/// The 16-bit big-endian word of `data` that starts at byte `i`. A byte past
/// the end counts as zero.
pub open spec fn word_at(data: Seq<u8>, i: int) -> int {
    data[i] * 256 + if i + 1 < data.len() {
        data[i + 1] as int
    } else {
        0
    }
}

/// The number of 16-bit words that `data` spans, a last odd byte included.
pub open spec fn word_count(data: Seq<u8>) -> nat {
    ((data.len() + 1) / 2) as nat
}

/// The sum of the first `k` words of `data`. The fourth word, which holds the
/// checksum field, counts as zero.
pub open spec fn words_sum(data: Seq<u8>, k: nat) -> int
    decreases k,
{
    if k == 0 {
        0
    } else {
        words_sum(data, (k - 1) as nat) + if k - 1 == 3 {
            0
        } else {
            word_at(data, 2 * (k - 1))
        }
    }
}

/// The sum of the 16-bit big-endian words of an address.
pub open spec fn address_sum(ip: IpAddr) -> int {
    match ip {
        IpAddr::V4(o) => (o[0] * 256 + o[1]) + (o[2] * 256 + o[3]),
        IpAddr::V6(o) => (o[0] * 256 + o[1]) + (o[2] * 256 + o[3]) + (o[4] * 256 + o[5]) + (o[6]
            * 256 + o[7]) + (o[8] * 256 + o[9]) + (o[10] * 256 + o[11]) + (o[12] * 256 + o[13]) + (
        o[14] * 256 + o[15]),
    }
}

/// The sum over the pseudo-header: both addresses, the protocol number 112
/// and the length of the packet.
pub open spec fn pseudo_header_sum(src: IpAddr, dst: IpAddr, len: nat) -> int {
    address_sum(src) + address_sum(dst) + 112 + len
}

/// A sum reduced to sixteen bits with end-around carry: the value in
/// `1..=65535` that is congruent to `s` modulo 65535, and 0 for 0.
pub open spec fn fold16(s: int) -> int {
    if s <= 0 {
        0
    } else {
        (s - 1) % 65535 + 1
    }
}

/// The checksum of a packet sent from `src` to `dst`: the complement of the
/// folded sum. Addresses of different families give 0.
pub open spec fn checksum_spec(p: PacketView, src: IpAddr, dst: IpAddr) -> u16 {
    let data = wire_bytes(p);
    if (src is V4) != (dst is V4) {
        0
    } else {
        (65535 - fold16(pseudo_header_sum(src, dst, data.len()) + words_sum(data, word_count(data))))
            as u16
    }
}

/// One round of end-around carry keeps the folded value and shrinks the sum.
pub proof fn lemma_fold_step(s: int)
    requires
        s > 65535,
    ensures
        fold16(s % 65536 + s / 65536) == fold16(s),
        0 < s % 65536 + s / 65536 < s,
{
    let q = s / 65536;
    let r = s % 65536;
    assert(s == 65536 * q + r);
    assert(q + r - 1 == (s - 1) - 65535 * q);
    lemma_mod_shift(s - 1, q);
}

/// Subtracting a multiple of 65535 does not change the remainder.
proof fn lemma_mod_shift(x: int, q: int)
    ensures
        (x - 65535 * q) % 65535 == x % 65535,
{
    let a = x / 65535;
    let b = (x - 65535 * q) / 65535;
    assert(x == 65535 * a + x % 65535);
    assert(x - 65535 * q == 65535 * b + (x - 65535 * q) % 65535);
    assert(65535 * (a - q - b) == (x - 65535 * q) % 65535 - x % 65535);
}

/// A sum that already fits in sixteen bits is its own folded value.
pub proof fn lemma_fold_small(s: int)
    requires
        0 <= s <= 65535,
    ensures
        fold16(s) == s,
{
}

/// The serialized addresses take at most sixteen bytes each.
pub proof fn lemma_addresses_bytes_len(ips: Seq<IpAddr>)
    ensures
        addresses_bytes(ips).len() <= 16 * ips.len(),
    decreases ips.len(),
{
    if ips.len() > 0 {
        lemma_addresses_bytes_len(ips.drop_last());
    }
}

/// Two byte strings that differ at most in the checksum field have the same
/// word sum.
pub proof fn lemma_words_sum_ignores_field(a: Seq<u8>, b: Seq<u8>, k: nat)
    requires
        a.len() == b.len(),
        forall|i: int| 0 <= i < a.len() && i != 6 && i != 7 ==> a[i] == b[i],
        2 * k <= a.len() + 1,
    ensures
        words_sum(a, k) == words_sum(b, k),
    decreases k,
{
    if k > 0 {
        lemma_words_sum_ignores_field(a, b, (k - 1) as nat);
    }
}

/// The checksum does not depend on what the checksum field holds.
pub proof fn lemma_checksum_ignores_field(p: PacketView, c: u16, src: IpAddr, dst: IpAddr)
    ensures
        checksum_spec(PacketView { checksum: c, ..p }, src, dst) == checksum_spec(p, src, dst),
{
    let q = PacketView { checksum: c, ..p };
    let a = wire_bytes(p);
    let b = wire_bytes(q);
    assert(header_bytes(p).len() == 8);
    assert(header_bytes(q).len() == 8);
    assert forall|i: int| 0 <= i < a.len() && i != 6 && i != 7 implies a[i] == b[i] by {
        if i < 8 {
            assert(header_bytes(p)[i] == header_bytes(q)[i]);
        }
    }
    lemma_words_sum_ignores_field(a, b, word_count(a));
}

/// A packet whose checksum field was set for `src` and `dst` verifies against
/// the same addresses.
pub proof fn lemma_set_checksum_verifies(p: PacketView, src: IpAddr, dst: IpAddr)
    ensures
        ({
            let q = PacketView { checksum: checksum_spec(p, src, dst), ..p };
            checksum_spec(q, src, dst) == q.checksum
        }),
{
    lemma_checksum_ignores_field(p, checksum_spec(p, src, dst), src, dst);
}

} // verus!
