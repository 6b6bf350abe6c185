//! Netlink attributes: a sixteen-bit length, a sixteen-bit kind, the value,
//! and padding up to a multiple of four bytes.

use crate::ipvs::wire::{push_u16, read_u16, u16_bytes, u16_value, ByteOrder};
use vstd::prelude::*;

verus! {

/// Length of the header of an attribute.
pub const NLA_HEADER_SIZE: usize = 4;

/// The largest value that the length field of an attribute can describe.
pub const NLA_MAX_VALUE_LEN: usize = 65531;

/// The kinds of attributes: the two high bits of the field are flags.
pub const NLA_KIND_LIMIT: u16 = 0x4000;

/// Why bytes are not a message of the IPVS family.
#[derive(Debug, Clone, Copy, PartialEq, Eq, Structural)]
pub enum DecodeError {
    /// The command is none that an answer can carry.
    UnknownCommand,
    /// Fewer bytes are left than the header of an attribute takes.
    TruncatedAttribute,
    /// The length of an attribute is below four or beyond the bytes left.
    InvalidAttributeLength,
    /// The version is not four bytes.
    InvalidVersion,
    /// The size of the connection table is not four bytes.
    InvalidConnTableSize,
    /// The address family is not two bytes.
    InvalidAddressFamily,
    /// The protocol is not two bytes.
    InvalidProtocol,
    /// The address is not four bytes.
    InvalidAddress,
    /// The port is not two bytes.
    InvalidPort,
    /// The name of the scheduler is not UTF-8.
    InvalidSchedulerName,
    /// A number is not of the size of its kind.
    InvalidNumber,
}

impl DecodeError {
    /// The text of the error.
    pub open spec fn message_spec(self) -> Seq<char> {
        match self {
            DecodeError::UnknownCommand => "Unknown IPVS command"@,
            DecodeError::TruncatedAttribute => "Truncated attribute"@,
            DecodeError::InvalidAttributeLength => "Invalid attribute length"@,
            DecodeError::InvalidVersion => "Invalid version"@,
            DecodeError::InvalidConnTableSize => "Invalid conn table size"@,
            DecodeError::InvalidAddressFamily => "Invalid address family"@,
            DecodeError::InvalidProtocol => "Invalid protocol"@,
            DecodeError::InvalidAddress => "Invalid address"@,
            DecodeError::InvalidPort => "Invalid port"@,
            DecodeError::InvalidSchedulerName => "Invalid scheduler name"@,
            DecodeError::InvalidNumber => "Invalid number"@,
        }
    }

    /// The text of the error.
    pub fn message(&self) -> (m: &'static str)
        ensures
            m@ == self.message_spec(),
    {
        match self {
            DecodeError::UnknownCommand => "Unknown IPVS command",
            DecodeError::TruncatedAttribute => "Truncated attribute",
            DecodeError::InvalidAttributeLength => "Invalid attribute length",
            DecodeError::InvalidVersion => "Invalid version",
            DecodeError::InvalidConnTableSize => "Invalid conn table size",
            DecodeError::InvalidAddressFamily => "Invalid address family",
            DecodeError::InvalidProtocol => "Invalid protocol",
            DecodeError::InvalidAddress => "Invalid address",
            DecodeError::InvalidPort => "Invalid port",
            DecodeError::InvalidSchedulerName => "Invalid scheduler name",
            DecodeError::InvalidNumber => "Invalid number",
        }
    }
}

/// An attribute as it is on the wire: its kind and the bytes of its value.
pub struct Attr {
    pub kind: u16,
    pub value: Seq<u8>,
}

impl Attr {
    /// Whether the attribute can be written: its length fits the length
    /// field, and its kind leaves the flag bits alone.
    pub open spec fn fits(self) -> bool {
        self.value.len() <= NLA_MAX_VALUE_LEN && self.kind < NLA_KIND_LIMIT
    }
}

/// The number of padding bytes after a value of `len` bytes.
pub open spec fn padding(len: nat) -> nat {
    ((4 - len % 4) % 4) as nat
}

/// So many zero bytes.
pub open spec fn zeros(n: nat) -> Seq<u8> {
    Seq::new(n, |i: int| 0u8)
}

/// The bytes of one attribute: length of header and value, kind, value,
/// padding.
pub open spec fn attr_bytes(order: ByteOrder, a: Attr) -> Seq<u8> {
    u16_bytes(order, (a.value.len() + 4) as u16) + u16_bytes(order, a.kind) + a.value + zeros(
        padding(a.value.len()),
    )
}

/// The length of one attribute on the wire, padding included.
pub open spec fn attr_len(a: Attr) -> nat {
    4 + a.value.len() + padding(a.value.len())
}

/// The bytes of attributes, one after the other.
pub open spec fn attrs_bytes(order: ByteOrder, attrs: Seq<Attr>) -> Seq<u8>
    decreases attrs.len(),
{
    if attrs.len() == 0 {
        Seq::empty()
    } else {
        attr_bytes(order, attrs.first()) + attrs_bytes(order, attrs.drop_first())
    }
}

/// The length of attributes on the wire.
pub open spec fn attrs_len(attrs: Seq<Attr>) -> nat
    decreases attrs.len(),
{
    if attrs.len() == 0 {
        0
    } else {
        attr_len(attrs.first()) + attrs_len(attrs.drop_first())
    }
}

/// The first attribute of `data` and the number of bytes that it takes, or
/// why there is none. An attribute at the very end may lack its padding.
pub open spec fn first_attr(order: ByteOrder, data: Seq<u8>) -> Result<(Attr, nat), DecodeError> {
    if data.len() < 4 {
        Err(DecodeError::TruncatedAttribute)
    } else {
        let len = u16_value(order, data.subrange(0, 2));
        let kind = (u16_value(order, data.subrange(2, 4)) % NLA_KIND_LIMIT) as u16;
        if len < 4 || len > data.len() {
            Err(DecodeError::InvalidAttributeLength)
        } else {
            let padded = len + padding((len - 4) as nat);
            let taken = if padded > data.len() {
                data.len()
            } else {
                padded as nat
            };
            Ok((Attr { kind, value: data.subrange(4, len as int) }, taken))
        }
    }
}

/// The attributes that `data` holds, or why it holds none.
pub open spec fn parse_attrs_spec(order: ByteOrder, data: Seq<u8>) -> Result<Seq<Attr>, DecodeError>
    decreases data.len(),
{
    if data.len() == 0 {
        Ok(Seq::empty())
    } else {
        match first_attr(order, data) {
            Err(e) => Err(e),
            Ok((a, taken)) => match parse_attrs_spec(order, data.skip(taken as int)) {
                Err(e) => Err(e),
                Ok(rest) => Ok(seq![a] + rest),
            },
        }
    }
}

/// Writes the header of an attribute whose value takes `value_len` bytes.
pub fn emit_header(buffer: &mut Vec<u8>, order: ByteOrder, kind: u16, value_len: usize)
    requires
        value_len <= NLA_MAX_VALUE_LEN,
    ensures
        final(buffer)@ == old(buffer)@ + u16_bytes(order, (value_len + 4) as u16) + u16_bytes(
            order,
            kind,
        ),
{
    push_u16(buffer, order, (value_len + NLA_HEADER_SIZE) as u16);
    push_u16(buffer, order, kind);
}

/// Writes the padding after a value of `value_len` bytes.
pub fn emit_padding(buffer: &mut Vec<u8>, value_len: usize)
    ensures
        final(buffer)@ == old(buffer)@ + zeros(padding(value_len as nat)),
{
    let pad: usize = (4 - value_len % 4) % 4;
    let mut i: usize = 0;
    while i < pad
        invariant
            i <= pad,
            pad == padding(value_len as nat),
            buffer@ == old(buffer)@ + zeros(i as nat),
        decreases pad - i,
    {
        buffer.push(0u8);
        assert(buffer@ =~= old(buffer)@ + zeros((i + 1) as nat));
        i += 1;
    }
    assert(buffer@ =~= old(buffer)@ + zeros(padding(value_len as nat))) by {
        if pad == 0 {
            assert(zeros(0) =~= Seq::<u8>::empty());
        }
    }
}

/// The length of an attribute whose value takes `value_len` bytes.
pub fn padded_len(value_len: usize) -> (n: usize)
    requires
        value_len <= NLA_MAX_VALUE_LEN,
    ensures
        n == 4 + value_len + padding(value_len as nat),
        n % 4 == 0,
        n <= 65536,
{
    NLA_HEADER_SIZE + value_len + (4 - value_len % 4) % 4
}

/// Where the first attribute of the bytes from `offset` on lies.
pub struct AttrSpan {
    /// The kind of the attribute, flags removed.
    pub kind: u16,
    /// Where its value starts.
    pub start: usize,
    /// Where its value ends.
    pub end: usize,
    /// Where the next attribute starts.
    pub next: usize,
}

/// Reads the header of the attribute at `offset`.
pub fn next_attr(order: ByteOrder, data: &[u8], offset: usize) -> (r: Result<AttrSpan, DecodeError>)
    requires
        offset < data@.len(),
    ensures
        match first_attr(order, data@.skip(offset as int)) {
            Err(e) => r == Err::<AttrSpan, DecodeError>(e),
            Ok((a, taken)) => r is Ok && ({
                let span = r->Ok_0;
                &&& span.kind == a.kind
                &&& offset < span.start <= span.end <= data@.len()
                &&& data@.subrange(span.start as int, span.end as int) == a.value
                &&& span.next == offset + taken
                &&& span.end <= span.next <= data@.len()
            }),
        },
{
    let ghost rest = data@.skip(offset as int);
    let left: usize = data.len() - offset;
    if left < 4 {
        return Err(DecodeError::TruncatedAttribute);
    }
    let len: usize = read_u16(order, data, offset) as usize;
    let raw_kind: u16 = read_u16(order, data, offset + 2);
    assert(data@.subrange(offset as int, offset + 2) =~= rest.subrange(0, 2));
    assert(data@.subrange(offset + 2, offset + 4) =~= rest.subrange(2, 4));
    if len < 4 || len > left {
        return Err(DecodeError::InvalidAttributeLength);
    }
    let padded: usize = len + (4 - (len - 4) % 4) % 4;
    let taken: usize = if padded > left {
        left
    } else {
        padded
    };
    assert(data@.subrange(offset + 4, offset + len) =~= rest.subrange(4, len as int));
    Ok(
        AttrSpan {
            kind: raw_kind % NLA_KIND_LIMIT,
            start: offset + 4,
            end: offset + len,
            next: offset + taken,
        },
    )
}

/// Copies the bytes from `start` up to `end`.
pub fn copy_range(data: &[u8], start: usize, end: usize) -> (v: Vec<u8>)
    requires
        start <= end <= data@.len(),
    ensures
        v@ == data@.subrange(start as int, end as int),
{
    let mut v: Vec<u8> = Vec::new();
    let mut i: usize = start;
    while i < end
        invariant
            start <= i <= end,
            end <= data@.len(),
            v@ == data@.subrange(start as int, i as int),
        decreases end - i,
    {
        v.push(data[i]);
        assert(v@ =~= data@.subrange(start as int, i + 1));
        i += 1;
    }
    v
}

/// The length of an attribute on the wire is the length of its bytes, and a
/// multiple of four.
pub proof fn lemma_attr_len(order: ByteOrder, a: Attr)
    ensures
        attr_bytes(order, a).len() == attr_len(a),
        attr_len(a) % 4 == 0,
{
}

/// The bytes of attributes are as long as the attributes say.
pub proof fn lemma_attrs_len(order: ByteOrder, attrs: Seq<Attr>)
    ensures
        attrs_bytes(order, attrs).len() == attrs_len(attrs),
    decreases attrs.len(),
{
    if attrs.len() > 0 {
        lemma_attrs_len(order, attrs.drop_first());
    }
}

/// Attributes written one after the other: the bytes of a list with one
/// more attribute at its end are the bytes of the list, then the bytes of
/// that attribute.
pub proof fn lemma_attrs_bytes_push(order: ByteOrder, attrs: Seq<Attr>, a: Attr)
    ensures
        attrs_bytes(order, attrs.push(a)) == attrs_bytes(order, attrs) + attr_bytes(order, a),
        attrs_len(attrs.push(a)) == attrs_len(attrs) + attr_len(a),
    decreases attrs.len(),
{
    let longer = attrs.push(a);
    assert(longer.len() > 0);
    if attrs.len() == 0 {
        assert(longer.first() == a);
        assert(longer.drop_first() =~= Seq::<Attr>::empty());
        assert(attrs_bytes(order, longer.drop_first()) =~= Seq::<u8>::empty());
        assert(attrs_len(longer.drop_first()) == 0);
        assert(attrs_bytes(order, attrs) =~= Seq::<u8>::empty());
        assert(attrs_bytes(order, longer) =~= attrs_bytes(order, attrs) + attr_bytes(order, a));
    } else {
        lemma_attrs_bytes_push(order, attrs.drop_first(), a);
        assert(longer.first() == attrs.first());
        assert(longer.drop_first() =~= attrs.drop_first().push(a));
        assert(attrs_bytes(order, longer) =~= attrs_bytes(order, attrs) + attr_bytes(order, a));
    }
}

/// The first attribute of the bytes of an attribute, whatever follows it, is
/// that attribute, and it takes exactly its own bytes.
pub proof fn lemma_first_attr(order: ByteOrder, a: Attr, rest: Seq<u8>)
    requires
        a.fits(),
    ensures
        first_attr(order, attr_bytes(order, a) + rest) == Ok::<(Attr, nat), DecodeError>(
            (a, attr_len(a)),
        ),
        (attr_bytes(order, a) + rest).skip(attr_len(a) as int) == rest,
{
    let bytes = attr_bytes(order, a);
    let data = bytes + rest;
    let len = (a.value.len() + 4) as u16;
    crate::ipvs::wire::lemma_integer_roundtrip(order, len, 0, 0);
    crate::ipvs::wire::lemma_integer_roundtrip(order, a.kind, 0, 0);
    assert(data.subrange(0, 2) =~= u16_bytes(order, len));
    assert(data.subrange(2, 4) =~= u16_bytes(order, a.kind));
    assert(data.subrange(4, len as int) =~= a.value);
    assert(data.skip(attr_len(a) as int) =~= rest);
}

/// Parsing undoes writing: attributes come back from their own bytes.
pub proof fn lemma_attrs_roundtrip(order: ByteOrder, attrs: Seq<Attr>)
    requires
        forall|i: int| 0 <= i < attrs.len() ==> (#[trigger] attrs[i]).fits(),
    ensures
        parse_attrs_spec(order, attrs_bytes(order, attrs)) == Ok::<Seq<Attr>, DecodeError>(attrs),
    decreases attrs.len(),
{
    if attrs.len() > 0 {
        let a = attrs.first();
        let rest = attrs.drop_first();
        assert(a.fits());
        assert forall|i: int| 0 <= i < rest.len() implies (#[trigger] rest[i]).fits() by {
            assert(rest[i] == attrs[i + 1]);
        }
        lemma_attrs_roundtrip(order, rest);
        lemma_first_attr(order, a, attrs_bytes(order, rest));
        lemma_attr_len(order, a);
        let data = attrs_bytes(order, attrs);
        assert(data == attr_bytes(order, a) + attrs_bytes(order, rest));
        assert(data.len() > 0);
        assert(seq![a] + rest =~= attrs);
    } else {
        assert(attrs =~= Seq::<Attr>::empty());
    }
}

} // verus!
