//! Network addresses as plain octets.

use crate::text::{decimal, decimal_spec, hex, hex_spec};
use vstd::prelude::*;
use vstd::string::StringExecFns;

verus! {

/// An IPv4 or IPv6 address, held as its octets in network order.
#[derive(Debug, Clone, Copy, PartialEq, Eq, Hash)]
pub enum IpAddr {
    /// Four octets of an IPv4 address.
    V4([u8; 4]),
    /// Sixteen octets of an IPv6 address.
    V6([u8; 16]),
}

/// The number that octets spell in base 256, most significant first.
pub open spec fn be_value(octets: Seq<u8>) -> nat
    decreases octets.len(),
{
    if octets.len() == 0 {
        0
    } else {
        be_value(octets.drop_last()) * 256 + octets.last() as nat
    }
}

/// Of two octet strings of one length, the one with the larger octet at the
/// first place where they differ spells the larger number.
pub proof fn lemma_be_value_order(a: Seq<u8>, b: Seq<u8>, i: int)
    requires
        a.len() == b.len(),
        0 <= i < a.len(),
        forall|j: int| 0 <= j < i ==> a[j] == b[j],
        a[i] > b[i],
    ensures
        be_value(a) > be_value(b),
    decreases a.len(),
{
    if i == a.len() - 1 {
        assert(a.drop_last() =~= b.drop_last());
    } else {
        lemma_be_value_order(a.drop_last(), b.drop_last(), i);
    }
}

/// Whether `a` spells a larger number than `b`, both of one length.
fn octets_above(a: &[u8], b: &[u8]) -> (r: bool)
    requires
        a@.len() == b@.len(),
    ensures
        r == (be_value(a@) > be_value(b@)),
{
    let n: usize = a.len();
    let mut i: usize = 0;
    while i < n
        invariant
            i <= n,
            n == a@.len(),
            n == b@.len(),
            forall|j: int| 0 <= j < i ==> a@[j] == b@[j],
        decreases n - i,
    {
        if a[i] > b[i] {
            proof {
                lemma_be_value_order(a@, b@, i as int);
            }
            return true;
        }
        if a[i] < b[i] {
            proof {
                lemma_be_value_order(b@, a@, i as int);
            }
            return false;
        }
        i += 1;
    }
    assert(a@ =~= b@);
    false
}

impl IpAddr {
    /// The address as a number, its first octet the most significant.
    pub open spec fn numeric(self) -> nat {
        be_value(self.octets())
    }

    /// Whether both addresses are of one family.
    pub open spec fn same_family(self, other: IpAddr) -> bool {
        (self is V4) == (other is V4)
    }

    /// Whether this address is of the family of `other` and numerically
    /// higher.
    pub fn is_above(&self, other: &IpAddr) -> (r: bool)
        ensures
            r == (self.same_family(*other) && self.numeric() > other.numeric()),
    {
        match (self, other) {
            (IpAddr::V4(a), IpAddr::V4(b)) => octets_above(a.as_slice(), b.as_slice()),
            (IpAddr::V6(a), IpAddr::V6(b)) => octets_above(a.as_slice(), b.as_slice()),
            _ => false,
        }
    }

    /// The octets of the address, most significant first.
    pub open spec fn octets(self) -> Seq<u8> {
        match self {
            IpAddr::V4(o) => o@,
            IpAddr::V6(o) => o@,
        }
    }

    /// Whether this is an IPv4 address.
    pub fn is_ipv4(&self) -> (r: bool)
        ensures
            r == (*self is V4),
    {
        match self {
            IpAddr::V4(_) => true,
            IpAddr::V6(_) => false,
        }
    }

    /// Whether this is an IPv6 address.
    pub fn is_ipv6(&self) -> (r: bool)
        ensures
            r == (*self is V6),
    {
        match self {
            IpAddr::V4(_) => false,
            IpAddr::V6(_) => true,
        }
    }

    /// Whether two addresses are the same: same family, same octets.
    pub fn same_as(&self, other: &IpAddr) -> (r: bool)
        ensures
            r == (*self == *other),
    {
        match (self, other) {
            (IpAddr::V4(a), IpAddr::V4(b)) => {
                let r = a[0] == b[0] && a[1] == b[1] && a[2] == b[2] && a[3] == b[3];
                assert(r == (a =~= b));
                r
            },
            (IpAddr::V6(a), IpAddr::V6(b)) => {
                let mut i: usize = 0;
                while i < 16
                    invariant
                        i <= 16,
                        *self == IpAddr::V6(*a),
                        *other == IpAddr::V6(*b),
                        forall|j: int| 0 <= j < i ==> a[j] == b[j],
                    decreases 16 - i,
                {
                    if a[i] != b[i] {
                        assert(a@[i as int] != b@[i as int]);
                        return false;
                    }
                    i += 1;
                }
                assert(a =~= b);
                true
            },
            _ => false,
        }
    }
}

} // verus!

verus! {

/// An address and a port.
#[derive(Debug, Clone, Copy, PartialEq, Eq, Hash)]
pub struct SocketAddr {
    /// The address.
    pub ip: IpAddr,
    /// The port.
    pub port: u16,
}

impl SocketAddr {
    /// The socket address of `ip` and `port`.
    pub fn new(ip: IpAddr, port: u16) -> (a: SocketAddr)
        ensures
            a.ip == ip,
            a.port == port,
    {
        SocketAddr { ip, port }
    }
}

} // verus!

verus! {

/// The text of the first `k` sixteen-bit groups of an IPv6 address, in
/// hexadecimal, with a colon between groups.
pub open spec fn groups_text(octets: Seq<u8>, k: nat) -> Seq<char>
    decreases k,
{
    if k == 0 {
        Seq::empty()
    } else {
        let group = hex_spec((octets[2 * (k - 1)] * 256 + octets[2 * (k - 1) + 1]) as nat);
        if k == 1 {
            group
        } else {
            groups_text(octets, (k - 1) as nat) + ":"@ + group
        }
    }
}

impl IpAddr {
    /// The address as text: four decimal octets with dots for IPv4, eight
    /// hexadecimal groups with colons for IPv6, every group written out.
    pub open spec fn text_spec(self) -> Seq<char> {
        match self {
            IpAddr::V4(o) => decimal_spec(o[0] as nat) + "."@ + decimal_spec(o[1] as nat) + "."@
                + decimal_spec(o[2] as nat) + "."@ + decimal_spec(o[3] as nat),
            IpAddr::V6(o) => groups_text(o@, 8),
        }
    }

    /// The address as text.
    pub fn to_text(&self) -> (s: String)
        ensures
            s@ == self.text_spec(),
    {
        match self {
            IpAddr::V4(o) => {
                let mut s: String = decimal(o[0] as u64);
                s.append(".");
                s.append(decimal(o[1] as u64).as_str());
                s.append(".");
                s.append(decimal(o[2] as u64).as_str());
                s.append(".");
                s.append(decimal(o[3] as u64).as_str());
                s
            },
            IpAddr::V6(o) => {
                let mut s: String = hex(o[0] as u64 * 256 + o[1] as u64);
                let mut k: usize = 1;
                while k < 8
                    invariant
                        1 <= k <= 8,
                        s@ == groups_text(o@, k as nat),
                    decreases 8 - k,
                {
                    s.append(":");
                    s.append(hex(o[2 * k] as u64 * 256 + o[2 * k + 1] as u64).as_str());
                    k += 1;
                }
                s
            },
        }
    }
}

impl SocketAddr {
    /// The socket address as text: the address, a colon, the port.
    pub open spec fn text_spec(self) -> Seq<char> {
        self.ip.text_spec() + ":"@ + decimal_spec(self.port as nat)
    }

    /// The socket address as text.
    pub fn to_text(&self) -> (s: String)
        ensures
            s@ == self.text_spec(),
    {
        let mut s: String = self.ip.to_text();
        s.append(":");
        s.append(decimal(self.port as u64).as_str());
        s
    }
}

} // verus!
