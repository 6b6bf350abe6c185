//! Integers on the wire, in either byte order. The kernel reads most numbers
//! of a netlink message in the order of the machine; the codec is handed it.

use vstd::prelude::*;

verus! {

/// The order of the bytes of an integer.
#[derive(Debug, Clone, Copy, PartialEq, Eq, Structural)]
pub enum ByteOrder {
    /// Least significant byte first.
    Little,
    /// Most significant byte first.
    Big,
}

/// `u16::from_ne_bytes`: the number that two bytes spell in the byte order of
/// the machine, which is their little-endian or their big-endian reading.
#[verifier::external_body]
fn native_u16(bytes: [u8; 2]) -> (v: u16)
    ensures
        v == u16_value(ByteOrder::Little, bytes@) || v == u16_value(ByteOrder::Big, bytes@),
{
    u16::from_ne_bytes(bytes)
}

impl ByteOrder {
    /// The byte order of this machine.
    pub fn native() -> ByteOrder {
        let bytes: [u8; 2] = [1u8, 0u8];
        let probe: u16 = native_u16(bytes);
        assert(probe == 1 || probe == 256) by {
            assert(bytes@[0] == 1 && bytes@[1] == 0);
        }
        ByteOrder::from_probe(probe)
    }

    /// The order in which the bytes 1, 0 are read as `probe`: read least
    /// significant byte first they spell 1, read the other way they spell 256.
    pub open spec fn of_probe(probe: u16) -> ByteOrder {
        if probe == 1 {
            ByteOrder::Little
        } else {
            ByteOrder::Big
        }
    }

    /// The byte order of a machine that reads the bytes 1, 0 as `probe`.
    pub fn from_probe(probe: u16) -> (order: ByteOrder)
        ensures
            order == ByteOrder::of_probe(probe),
    {
        if probe == 1 {
            ByteOrder::Little
        } else {
            ByteOrder::Big
        }
    }
}

/// The probe tells the two orders apart: from the number that the bytes 1, 0
/// spell in an order, that order is found again.
pub proof fn lemma_probe_tells_order(order: ByteOrder)
    ensures
        ByteOrder::of_probe(u16_value(order, seq![1u8, 0u8])) == order,
{
}

/// The two bytes of a 16-bit number.
pub open spec fn u16_bytes(order: ByteOrder, v: u16) -> Seq<u8> {
    match order {
        ByteOrder::Little => seq![(v % 256) as u8, (v / 256) as u8],
        ByteOrder::Big => seq![(v / 256) as u8, (v % 256) as u8],
    }
}

/// The 16-bit number that the first two bytes of `b` spell.
pub open spec fn u16_value(order: ByteOrder, b: Seq<u8>) -> u16 {
    match order {
        ByteOrder::Little => (b[0] + b[1] * 256) as u16,
        ByteOrder::Big => (b[0] * 256 + b[1]) as u16,
    }
}

/// The four bytes of a 32-bit number.
pub open spec fn u32_bytes(order: ByteOrder, v: u32) -> Seq<u8> {
    match order {
        ByteOrder::Little => seq![
            (v % 256) as u8,
            ((v / 0x100) % 256) as u8,
            ((v / 0x1_0000) % 256) as u8,
            (v / 0x100_0000) as u8,
        ],
        ByteOrder::Big => seq![
            (v / 0x100_0000) as u8,
            ((v / 0x1_0000) % 256) as u8,
            ((v / 0x100) % 256) as u8,
            (v % 256) as u8,
        ],
    }
}

/// The 32-bit number that the first four bytes of `b` spell.
pub open spec fn u32_value(order: ByteOrder, b: Seq<u8>) -> u32 {
    match order {
        ByteOrder::Little => (b[0] + b[1] * 0x100 + b[2] * 0x1_0000 + b[3] * 0x100_0000) as u32,
        ByteOrder::Big => (b[0] * 0x100_0000 + b[1] * 0x1_0000 + b[2] * 0x100 + b[3]) as u32,
    }
}

/// The 32 bits of a signed number in two's complement.
pub open spec fn i32_bits(v: i32) -> u32 {
    if v >= 0 {
        v as u32
    } else {
        (v + 0x1_0000_0000) as u32
    }
}

/// The signed number that 32 bits stand for in two's complement.
pub open spec fn bits_i32(bits: u32) -> i32 {
    if bits < 0x8000_0000 {
        bits as i32
    } else {
        (bits - 0x1_0000_0000) as i32
    }
}

/// A number comes back from its bytes, in either order, and so does a
/// signed number from its bits.
pub proof fn lemma_integer_roundtrip(order: ByteOrder, a: u16, b: u32, c: i32)
    ensures
        u16_bytes(order, a).len() == 2,
        u16_value(order, u16_bytes(order, a)) == a,
        u32_bytes(order, b).len() == 4,
        u32_value(order, u32_bytes(order, b)) == b,
        bits_i32(i32_bits(c)) == c,
{
}

/// Appends the two bytes of a number.
pub fn push_u16(buffer: &mut Vec<u8>, order: ByteOrder, v: u16)
    ensures
        final(buffer)@ == old(buffer)@ + u16_bytes(order, v),
{
    let lo: u8 = (v % 256) as u8;
    let hi: u8 = (v / 256) as u8;
    match order {
        ByteOrder::Little => {
            buffer.push(lo);
            buffer.push(hi);
        },
        ByteOrder::Big => {
            buffer.push(hi);
            buffer.push(lo);
        },
    }
    assert(buffer@ =~= old(buffer)@ + u16_bytes(order, v));
}

/// Appends the four bytes of a number.
pub fn push_u32(buffer: &mut Vec<u8>, order: ByteOrder, v: u32)
    ensures
        final(buffer)@ == old(buffer)@ + u32_bytes(order, v),
{
    let b0: u8 = (v % 256) as u8;
    let b1: u8 = ((v / 0x100) % 256) as u8;
    let b2: u8 = ((v / 0x1_0000) % 256) as u8;
    let b3: u8 = (v / 0x100_0000) as u8;
    match order {
        ByteOrder::Little => {
            buffer.push(b0);
            buffer.push(b1);
            buffer.push(b2);
            buffer.push(b3);
        },
        ByteOrder::Big => {
            buffer.push(b3);
            buffer.push(b2);
            buffer.push(b1);
            buffer.push(b0);
        },
    }
    assert(buffer@ =~= old(buffer)@ + u32_bytes(order, v));
}

/// Appends the bytes of a slice.
pub fn push_bytes(buffer: &mut Vec<u8>, bytes: &[u8])
    ensures
        final(buffer)@ == old(buffer)@ + bytes@,
{
    let mut i: usize = 0;
    while i < bytes.len()
        invariant
            i <= bytes@.len(),
            buffer@ == old(buffer)@ + bytes@.take(i as int),
        decreases bytes@.len() - i,
    {
        buffer.push(bytes[i]);
        assert(buffer@ =~= old(buffer)@ + bytes@.take(i + 1));
        i += 1;
    }
    assert(bytes@.take(i as int) =~= bytes@);
}

/// The number that the two bytes at `at` spell.
pub fn read_u16(order: ByteOrder, data: &[u8], at: usize) -> (v: u16)
    requires
        at + 2 <= data@.len(),
    ensures
        v == u16_value(order, data@.subrange(at as int, at + 2)),
{
    let a: u16 = data[at] as u16;
    let b: u16 = data[at + 1] as u16;
    match order {
        ByteOrder::Little => a + b * 256,
        ByteOrder::Big => a * 256 + b,
    }
}

/// The number that the four bytes at `at` spell.
pub fn read_u32(order: ByteOrder, data: &[u8], at: usize) -> (v: u32)
    requires
        at + 4 <= data@.len(),
    ensures
        v == u32_value(order, data@.subrange(at as int, at + 4)),
{
    let a: u32 = data[at] as u32;
    let b: u32 = data[at + 1] as u32;
    let c: u32 = data[at + 2] as u32;
    let d: u32 = data[at + 3] as u32;
    match order {
        ByteOrder::Little => a + b * 0x100 + c * 0x1_0000 + d * 0x100_0000,
        ByteOrder::Big => a * 0x100_0000 + b * 0x1_0000 + c * 0x100 + d,
    }
}

/// The 32 bits of a signed number in two's complement.
pub fn signed_bits(v: i32) -> (bits: u32)
    ensures
        bits == i32_bits(v),
{
    if v >= 0 {
        v as u32
    } else {
        (v as i64 + 0x1_0000_0000) as u32
    }
}

/// The signed number that 32 bits stand for in two's complement.
pub fn bits_signed(bits: u32) -> (v: i32)
    ensures
        v == bits_i32(bits),
{
    if bits < 0x8000_0000 {
        bits as i32
    } else {
        (bits as i64 - 0x1_0000_0000) as i32
    }
}

} // verus!
