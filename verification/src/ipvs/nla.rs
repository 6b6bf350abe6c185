//! The attributes of services, of destinations and of answers with
//! information: how each is written and how it is read.
//!
//! Numbers that the kernel reads in the byte order of the machine are
//! written in the order that the caller hands in; addresses and ports are
//! always written most significant byte first.

use crate::ipvs::attr::{
    attr_bytes, attr_len, attrs_bytes, attrs_len, copy_range, emit_header, emit_padding,
    first_attr, lemma_attr_len, lemma_attrs_bytes_push, next_attr, padded_len,
    Attr, DecodeError, NLA_MAX_VALUE_LEN,
};
use crate::ipvs::wire::{
    bits_i32, bits_signed, i32_bits, push_bytes, push_u16, push_u32, read_u16, read_u32,
    signed_bits, u16_bytes, u16_value, u32_bytes, u32_value, ByteOrder,
};
use crate::text::utf8_text;
use vstd::prelude::*;
use vstd::utf8::{decode_utf8, encode_utf8, valid_utf8};

verus! {

/// Attributes of a service.
#[derive(Debug, Clone, PartialEq, Eq)]
pub enum ServiceNla {
    /// Address family: 2 for IPv4, 10 for IPv6.
    AddressFamily(u16),
    /// IP protocol.
    Protocol(u16),
    /// IPv4 address, as a number whose most significant byte is the first octet.
    Address(u32),
    /// Port.
    Port(u16),
    /// Firewall mark.
    FirewallMark(u32),
    /// Name of the scheduler.
    Scheduler(String),
    /// Flags and their mask.
    Flags(u32, u32),
    /// Timeout of persistent connections.
    Timeout(u32),
    /// Netmask of persistent connections.
    Netmask(u32),
    /// An attribute of another kind, with its bytes.
    Other(u16, Vec<u8>),
}

/// The mathematical value of a [`ServiceNla`].
pub enum ServiceNlaView {
    AddressFamily(u16),
    Protocol(u16),
    Address(u32),
    Port(u16),
    FirewallMark(u32),
    Scheduler(Seq<char>),
    Flags(u32, u32),
    Timeout(u32),
    Netmask(u32),
    Other(u16, Seq<u8>),
}

impl View for ServiceNla {
    type V = ServiceNlaView;

    open spec fn view(&self) -> ServiceNlaView {
        match self {
            ServiceNla::AddressFamily(v) => ServiceNlaView::AddressFamily(*v),
            ServiceNla::Protocol(v) => ServiceNlaView::Protocol(*v),
            ServiceNla::Address(v) => ServiceNlaView::Address(*v),
            ServiceNla::Port(v) => ServiceNlaView::Port(*v),
            ServiceNla::FirewallMark(v) => ServiceNlaView::FirewallMark(*v),
            ServiceNla::Scheduler(s) => ServiceNlaView::Scheduler(s@),
            ServiceNla::Flags(f, m) => ServiceNlaView::Flags(*f, *m),
            ServiceNla::Timeout(v) => ServiceNlaView::Timeout(*v),
            ServiceNla::Netmask(v) => ServiceNlaView::Netmask(*v),
            ServiceNla::Other(k, b) => ServiceNlaView::Other(*k, b@),
        }
    }
}

/// Attributes of a destination.
#[derive(Debug, Clone, PartialEq, Eq)]
pub enum DestNla {
    /// IPv4 address, as a number whose most significant byte is the first octet.
    Address(u32),
    /// Port.
    Port(u16),
    /// Forwarding method.
    ForwardingMethod(u32),
    /// Weight.
    Weight(i32),
    /// Upper connection threshold.
    UpperThreshold(u32),
    /// Lower connection threshold.
    LowerThreshold(u32),
    /// An attribute of another kind, with its bytes.
    Other(u16, Vec<u8>),
}

/// The mathematical value of a [`DestNla`].
pub enum DestNlaView {
    Address(u32),
    Port(u16),
    ForwardingMethod(u32),
    Weight(i32),
    UpperThreshold(u32),
    LowerThreshold(u32),
    Other(u16, Seq<u8>),
}

impl View for DestNla {
    type V = DestNlaView;

    open spec fn view(&self) -> DestNlaView {
        match self {
            DestNla::Address(v) => DestNlaView::Address(*v),
            DestNla::Port(v) => DestNlaView::Port(*v),
            DestNla::ForwardingMethod(v) => DestNlaView::ForwardingMethod(*v),
            DestNla::Weight(v) => DestNlaView::Weight(*v),
            DestNla::UpperThreshold(v) => DestNlaView::UpperThreshold(*v),
            DestNla::LowerThreshold(v) => DestNlaView::LowerThreshold(*v),
            DestNla::Other(k, b) => DestNlaView::Other(*k, b@),
        }
    }
}

/// Attributes of the answer to a request for information.
#[derive(Debug, Clone, PartialEq, Eq)]
pub enum InfoNla {
    /// Version of IPVS, packed into one number.
    Version(u32),
    /// Size of the connection table.
    ConnTableSize(u32),
    /// An attribute of another kind, with its bytes.
    Other(u16, Vec<u8>),
}

/// The mathematical value of an [`InfoNla`].
pub enum InfoNlaView {
    Version(u32),
    ConnTableSize(u32),
    Other(u16, Seq<u8>),
}

impl View for InfoNla {
    type V = InfoNlaView;

    open spec fn view(&self) -> InfoNlaView {
        match self {
            InfoNla::Version(v) => InfoNlaView::Version(*v),
            InfoNla::ConnTableSize(v) => InfoNlaView::ConnTableSize(*v),
            InfoNla::Other(k, b) => InfoNlaView::Other(*k, b@),
        }
    }
}

/// The bytes without the zero bytes at their end.
pub open spec fn strip_nuls(bytes: Seq<u8>) -> Seq<u8>
    decreases bytes.len(),
{
    if bytes.len() > 0 && bytes.last() == 0 {
        strip_nuls(bytes.drop_last())
    } else {
        bytes
    }
}

impl ServiceNlaView {
    /// The kind of the attribute.
    pub open spec fn kind(self) -> u16 {
        match self {
            ServiceNlaView::AddressFamily(_) => 1,
            ServiceNlaView::Protocol(_) => 2,
            ServiceNlaView::Address(_) => 3,
            ServiceNlaView::Port(_) => 4,
            ServiceNlaView::FirewallMark(_) => 5,
            ServiceNlaView::Scheduler(_) => 6,
            ServiceNlaView::Flags(_, _) => 7,
            ServiceNlaView::Timeout(_) => 8,
            ServiceNlaView::Netmask(_) => 9,
            ServiceNlaView::Other(kind, _) => kind,
        }
    }

    /// The bytes of the value: family, protocol, mark, flags, timeout and
    /// netmask in the given order, address and port most significant byte
    /// first, the name of the scheduler in UTF-8 with a zero byte after it.
    pub open spec fn value(self, order: ByteOrder) -> Seq<u8> {
        match self {
            ServiceNlaView::AddressFamily(v) => u16_bytes(order, v),
            ServiceNlaView::Protocol(v) => u16_bytes(order, v),
            ServiceNlaView::Address(v) => u32_bytes(ByteOrder::Big, v),
            ServiceNlaView::Port(v) => u16_bytes(ByteOrder::Big, v),
            ServiceNlaView::FirewallMark(v) => u32_bytes(order, v),
            ServiceNlaView::Scheduler(s) => encode_utf8(s) + seq![0u8],
            ServiceNlaView::Flags(f, m) => u32_bytes(order, f) + u32_bytes(order, m),
            ServiceNlaView::Timeout(v) => u32_bytes(order, v),
            ServiceNlaView::Netmask(v) => u32_bytes(order, v),
            ServiceNlaView::Other(_, bytes) => bytes,
        }
    }

    /// The attribute as it is on the wire.
    pub open spec fn attr(self, order: ByteOrder) -> Attr {
        Attr { kind: self.kind(), value: self.value(order) }
    }

    /// What an attribute of the wire means for a service.
    pub open spec fn of_attr(order: ByteOrder, a: Attr) -> Result<ServiceNlaView, DecodeError> {
        let v = a.value;
        if a.kind == 1 {
            if v.len() == 2 {
                Ok(ServiceNlaView::AddressFamily(u16_value(order, v)))
            } else {
                Err(DecodeError::InvalidAddressFamily)
            }
        } else if a.kind == 2 {
            if v.len() == 2 {
                Ok(ServiceNlaView::Protocol(u16_value(order, v)))
            } else {
                Err(DecodeError::InvalidProtocol)
            }
        } else if a.kind == 3 {
            if v.len() == 4 {
                Ok(ServiceNlaView::Address(u32_value(ByteOrder::Big, v)))
            } else {
                Err(DecodeError::InvalidAddress)
            }
        } else if a.kind == 4 {
            if v.len() == 2 {
                Ok(ServiceNlaView::Port(u16_value(ByteOrder::Big, v)))
            } else {
                Err(DecodeError::InvalidPort)
            }
        } else if a.kind == 5 {
            if v.len() == 4 {
                Ok(ServiceNlaView::FirewallMark(u32_value(order, v)))
            } else {
                Err(DecodeError::InvalidNumber)
            }
        } else if a.kind == 6 {
            if valid_utf8(strip_nuls(v)) {
                Ok(ServiceNlaView::Scheduler(decode_utf8(strip_nuls(v))))
            } else {
                Err(DecodeError::InvalidSchedulerName)
            }
        } else if a.kind == 7 {
            if v.len() == 8 {
                Ok(
                    ServiceNlaView::Flags(
                        u32_value(order, v.subrange(0, 4)),
                        u32_value(order, v.subrange(4, 8)),
                    ),
                )
            } else {
                Err(DecodeError::InvalidNumber)
            }
        } else if a.kind == 8 {
            if v.len() == 4 {
                Ok(ServiceNlaView::Timeout(u32_value(order, v)))
            } else {
                Err(DecodeError::InvalidNumber)
            }
        } else if a.kind == 9 {
            if v.len() == 4 {
                Ok(ServiceNlaView::Netmask(u32_value(order, v)))
            } else {
                Err(DecodeError::InvalidNumber)
            }
        } else {
            Ok(ServiceNlaView::Other(a.kind, v))
        }
    }

    /// An attribute that comes back as it was written: it fits, the name of
    /// a scheduler does not end in a zero byte, and an attribute of another
    /// kind is of none of the kinds that have a meaning of their own.
    pub open spec fn canonical(self, order: ByteOrder) -> bool {
        &&& self.attr(order).fits()
        &&& self matches ServiceNlaView::Scheduler(s) ==> encode_utf8(s).len() == 0 || encode_utf8(
            s,
        ).last() != 0
        &&& self matches ServiceNlaView::Other(kind, _) ==> kind == 0 || kind > 9
    }
}

impl DestNlaView {
    /// The kind of the attribute.
    pub open spec fn kind(self) -> u16 {
        match self {
            DestNlaView::Address(_) => 1,
            DestNlaView::Port(_) => 2,
            DestNlaView::ForwardingMethod(_) => 3,
            DestNlaView::Weight(_) => 4,
            DestNlaView::UpperThreshold(_) => 5,
            DestNlaView::LowerThreshold(_) => 6,
            DestNlaView::Other(kind, _) => kind,
        }
    }

    /// The bytes of the value: address and port most significant byte
    /// first, all else in the given order.
    pub open spec fn value(self, order: ByteOrder) -> Seq<u8> {
        match self {
            DestNlaView::Address(v) => u32_bytes(ByteOrder::Big, v),
            DestNlaView::Port(v) => u16_bytes(ByteOrder::Big, v),
            DestNlaView::ForwardingMethod(v) => u32_bytes(order, v),
            DestNlaView::Weight(v) => u32_bytes(order, i32_bits(v)),
            DestNlaView::UpperThreshold(v) => u32_bytes(order, v),
            DestNlaView::LowerThreshold(v) => u32_bytes(order, v),
            DestNlaView::Other(_, bytes) => bytes,
        }
    }

    /// The attribute as it is on the wire.
    pub open spec fn attr(self, order: ByteOrder) -> Attr {
        Attr { kind: self.kind(), value: self.value(order) }
    }

    /// What an attribute of the wire means for a destination.
    pub open spec fn of_attr(order: ByteOrder, a: Attr) -> Result<DestNlaView, DecodeError> {
        let v = a.value;
        if a.kind == 1 {
            if v.len() == 4 {
                Ok(DestNlaView::Address(u32_value(ByteOrder::Big, v)))
            } else {
                Err(DecodeError::InvalidAddress)
            }
        } else if a.kind == 2 {
            if v.len() == 2 {
                Ok(DestNlaView::Port(u16_value(ByteOrder::Big, v)))
            } else {
                Err(DecodeError::InvalidPort)
            }
        } else if 3 <= a.kind <= 6 {
            if v.len() == 4 {
                let n = u32_value(order, v);
                Ok(
                    if a.kind == 3 {
                        DestNlaView::ForwardingMethod(n)
                    } else if a.kind == 4 {
                        DestNlaView::Weight(bits_i32(n))
                    } else if a.kind == 5 {
                        DestNlaView::UpperThreshold(n)
                    } else {
                        DestNlaView::LowerThreshold(n)
                    },
                )
            } else {
                Err(DecodeError::InvalidNumber)
            }
        } else {
            Ok(DestNlaView::Other(a.kind, v))
        }
    }

    /// An attribute that comes back as it was written.
    pub open spec fn canonical(self, order: ByteOrder) -> bool {
        &&& self.attr(order).fits()
        &&& self matches DestNlaView::Other(kind, _) ==> kind == 0 || kind > 6
    }
}

impl InfoNlaView {
    /// The kind of the attribute.
    pub open spec fn kind(self) -> u16 {
        match self {
            InfoNlaView::Version(_) => 1,
            InfoNlaView::ConnTableSize(_) => 2,
            InfoNlaView::Other(kind, _) => kind,
        }
    }

    /// The bytes of the value, numbers in the given order.
    pub open spec fn value(self, order: ByteOrder) -> Seq<u8> {
        match self {
            InfoNlaView::Version(v) => u32_bytes(order, v),
            InfoNlaView::ConnTableSize(v) => u32_bytes(order, v),
            InfoNlaView::Other(_, bytes) => bytes,
        }
    }

    /// The attribute as it is on the wire.
    pub open spec fn attr(self, order: ByteOrder) -> Attr {
        Attr { kind: self.kind(), value: self.value(order) }
    }

    /// What an attribute of the wire means in an answer with information.
    pub open spec fn of_attr(order: ByteOrder, a: Attr) -> Result<InfoNlaView, DecodeError> {
        let v = a.value;
        if a.kind == 1 {
            if v.len() == 4 {
                Ok(InfoNlaView::Version(u32_value(order, v)))
            } else {
                Err(DecodeError::InvalidVersion)
            }
        } else if a.kind == 2 {
            if v.len() == 4 {
                Ok(InfoNlaView::ConnTableSize(u32_value(order, v)))
            } else {
                Err(DecodeError::InvalidConnTableSize)
            }
        } else {
            Ok(InfoNlaView::Other(a.kind, v))
        }
    }

    /// An attribute that comes back as it was written.
    pub open spec fn canonical(self, order: ByteOrder) -> bool {
        &&& self.attr(order).fits()
        &&& self matches InfoNlaView::Other(kind, _) ==> kind == 0 || kind > 2
    }
}

/// The attributes of a list of service attributes, as they are on the wire.
pub open spec fn service_attrs(order: ByteOrder, nlas: Seq<ServiceNla>) -> Seq<Attr> {
    Seq::new(nlas.len(), |i: int| nlas[i]@.attr(order))
}

/// The attributes of a list of destination attributes, as they are on the
/// wire.
pub open spec fn dest_attrs(order: ByteOrder, nlas: Seq<DestNla>) -> Seq<Attr> {
    Seq::new(nlas.len(), |i: int| nlas[i]@.attr(order))
}

/// The attributes of a list of information attributes, as they are on the
/// wire.
pub open spec fn info_attrs(order: ByteOrder, nlas: Seq<InfoNla>) -> Seq<Attr> {
    Seq::new(nlas.len(), |i: int| nlas[i]@.attr(order))
}

/// The values of a list of service attributes.
pub open spec fn service_views(nlas: Seq<ServiceNla>) -> Seq<ServiceNlaView> {
    Seq::new(nlas.len(), |i: int| nlas[i]@)
}

/// The values of a list of destination attributes.
pub open spec fn dest_views(nlas: Seq<DestNla>) -> Seq<DestNlaView> {
    Seq::new(nlas.len(), |i: int| nlas[i]@)
}

/// The values of a list of information attributes.
pub open spec fn info_views(nlas: Seq<InfoNla>) -> Seq<InfoNlaView> {
    Seq::new(nlas.len(), |i: int| nlas[i]@)
}

/// The typed attributes that `data` holds, each read with `convert`, or the
/// first reason why one cannot be read.
pub open spec fn parse_typed<T>(
    order: ByteOrder,
    data: Seq<u8>,
    convert: spec_fn(Attr) -> Result<T, DecodeError>,
) -> Result<Seq<T>, DecodeError>
    decreases data.len(),
{
    if data.len() == 0 {
        Ok(Seq::empty())
    } else {
        match first_attr(order, data) {
            Err(e) => Err(e),
            Ok((a, taken)) => match convert(a) {
                Err(e) => Err(e),
                Ok(item) => match parse_typed(order, data.skip(taken as int), convert) {
                    Err(e) => Err(e),
                    Ok(rest) => Ok(seq![item] + rest),
                },
            },
        }
    }
}

/// What bytes mean as the attributes of a service.
pub open spec fn parse_service_spec(order: ByteOrder, data: Seq<u8>) -> Result<
    Seq<ServiceNlaView>,
    DecodeError,
> {
    parse_typed(order, data, |a: Attr| ServiceNlaView::of_attr(order, a))
}

/// What bytes mean as the attributes of a destination.
pub open spec fn parse_dest_spec(order: ByteOrder, data: Seq<u8>) -> Result<
    Seq<DestNlaView>,
    DecodeError,
> {
    parse_typed(order, data, |a: Attr| DestNlaView::of_attr(order, a))
}

/// What bytes mean as the attributes of an answer with information.
pub open spec fn parse_info_spec(order: ByteOrder, data: Seq<u8>) -> Result<
    Seq<InfoNlaView>,
    DecodeError,
> {
    parse_typed(order, data, |a: Attr| InfoNlaView::of_attr(order, a))
}

} // verus!

verus! {

/// The bytes up to the zero bytes at their end.
fn without_trailing_nuls(payload: &[u8]) -> (body: &[u8])
    ensures
        body@ == strip_nuls(payload@),
{
    let mut end: usize = payload.len();
    assert(payload@.take(end as int) =~= payload@);
    while end > 0 && payload[end - 1] == 0
        invariant
            end <= payload@.len(),
            strip_nuls(payload@) == strip_nuls(payload@.take(end as int)),
        decreases end,
    {
        assert(payload@.take(end as int).drop_last() =~= payload@.take(end - 1));
        end -= 1;
    }
    let body = vstd::slice::slice_subrange(payload, 0, end);
    assert(body@ =~= payload@.take(end as int));
    body
}

impl ServiceNla {
    /// Whether the value of the attribute fits the length field.
    pub open spec fn value_fits(&self) -> bool {
        self@.value(ByteOrder::Big).len() <= NLA_MAX_VALUE_LEN
    }

    /// The length of the value in bytes.
    pub fn value_len(&self) -> (n: usize)
        requires
            self.value_fits(),
        ensures
            n == self@.value(ByteOrder::Big).len(),
            n == self@.value(ByteOrder::Little).len(),
    {
        match self {
            ServiceNla::AddressFamily(_) => 2,
            ServiceNla::Protocol(_) => 2,
            ServiceNla::Address(_) => 4,
            ServiceNla::Port(_) => 2,
            ServiceNla::FirewallMark(_) => 4,
            ServiceNla::Scheduler(s) => s.as_str().len() + 1,
            ServiceNla::Flags(_, _) => 8,
            ServiceNla::Timeout(_) => 4,
            ServiceNla::Netmask(_) => 4,
            ServiceNla::Other(_, bytes) => bytes.len(),
        }
    }

    /// The kind of the attribute.
    pub fn kind(&self) -> (k: u16)
        ensures
            k == self@.kind(),
    {
        match self {
            ServiceNla::AddressFamily(_) => 1,
            ServiceNla::Protocol(_) => 2,
            ServiceNla::Address(_) => 3,
            ServiceNla::Port(_) => 4,
            ServiceNla::FirewallMark(_) => 5,
            ServiceNla::Scheduler(_) => 6,
            ServiceNla::Flags(_, _) => 7,
            ServiceNla::Timeout(_) => 8,
            ServiceNla::Netmask(_) => 9,
            ServiceNla::Other(kind, _) => *kind,
        }
    }

    /// Appends the bytes of the value.
    pub fn emit_value(&self, order: ByteOrder, buffer: &mut Vec<u8>)
        ensures
            final(buffer)@ == old(buffer)@ + self@.value(order),
    {
        match self {
            ServiceNla::AddressFamily(v) => push_u16(buffer, order, *v),
            ServiceNla::Protocol(v) => push_u16(buffer, order, *v),
            ServiceNla::Address(v) => push_u32(buffer, ByteOrder::Big, *v),
            ServiceNla::Port(v) => push_u16(buffer, ByteOrder::Big, *v),
            ServiceNla::FirewallMark(v) => push_u32(buffer, order, *v),
            ServiceNla::Scheduler(s) => {
                push_bytes(buffer, s.as_str().as_bytes());
                buffer.push(0u8);
                assert(buffer@ =~= old(buffer)@ + (encode_utf8(s@) + seq![0u8]));
            },
            ServiceNla::Flags(flags, mask) => {
                push_u32(buffer, order, *flags);
                push_u32(buffer, order, *mask);
                assert(buffer@ =~= old(buffer)@ + (u32_bytes(order, *flags) + u32_bytes(
                    order,
                    *mask,
                )));
            },
            ServiceNla::Timeout(v) => push_u32(buffer, order, *v),
            ServiceNla::Netmask(v) => push_u32(buffer, order, *v),
            ServiceNla::Other(_, bytes) => push_bytes(buffer, bytes.as_slice()),
        }
    }

    /// Reads the attribute of the given kind from its value.
    pub fn parse(order: ByteOrder, kind: u16, payload: &[u8]) -> (r: Result<ServiceNla, DecodeError>)
        ensures
            match ServiceNlaView::of_attr(order, Attr { kind, value: payload@ }) {
                Ok(v) => r is Ok && r->Ok_0@ == v,
                Err(e) => r == Err::<ServiceNla, DecodeError>(e),
            },
    {
        let n: usize = payload.len();
        proof {
            assert(payload@.subrange(0, n as int) =~= payload@);
        }
        if kind == 1 {
            if n != 2 {
                return Err(DecodeError::InvalidAddressFamily);
            }
            Ok(ServiceNla::AddressFamily(read_u16(order, payload, 0)))
        } else if kind == 2 {
            if n != 2 {
                return Err(DecodeError::InvalidProtocol);
            }
            Ok(ServiceNla::Protocol(read_u16(order, payload, 0)))
        } else if kind == 3 {
            if n != 4 {
                return Err(DecodeError::InvalidAddress);
            }
            Ok(ServiceNla::Address(read_u32(ByteOrder::Big, payload, 0)))
        } else if kind == 4 {
            if n != 2 {
                return Err(DecodeError::InvalidPort);
            }
            Ok(ServiceNla::Port(read_u16(ByteOrder::Big, payload, 0)))
        } else if kind == 5 {
            if n != 4 {
                return Err(DecodeError::InvalidNumber);
            }
            Ok(ServiceNla::FirewallMark(read_u32(order, payload, 0)))
        } else if kind == 6 {
            match utf8_text(without_trailing_nuls(payload)) {
                Some(name) => Ok(ServiceNla::Scheduler(name)),
                None => Err(DecodeError::InvalidSchedulerName),
            }
        } else if kind == 7 {
            if n != 8 {
                return Err(DecodeError::InvalidNumber);
            }
            Ok(ServiceNla::Flags(read_u32(order, payload, 0), read_u32(order, payload, 4)))
        } else if kind == 8 {
            if n != 4 {
                return Err(DecodeError::InvalidNumber);
            }
            Ok(ServiceNla::Timeout(read_u32(order, payload, 0)))
        } else if kind == 9 {
            if n != 4 {
                return Err(DecodeError::InvalidNumber);
            }
            Ok(ServiceNla::Netmask(read_u32(order, payload, 0)))
        } else {
            Ok(ServiceNla::Other(kind, copy_range(payload, 0, n)))
        }
    }
}

impl DestNla {
    /// Whether the value of the attribute fits the length field.
    pub open spec fn value_fits(&self) -> bool {
        self@.value(ByteOrder::Big).len() <= NLA_MAX_VALUE_LEN
    }

    /// The length of the value in bytes.
    pub fn value_len(&self) -> (n: usize)
        ensures
            n == self@.value(ByteOrder::Big).len(),
            n == self@.value(ByteOrder::Little).len(),
    {
        match self {
            DestNla::Address(_) => 4,
            DestNla::Port(_) => 2,
            DestNla::ForwardingMethod(_) => 4,
            DestNla::Weight(_) => 4,
            DestNla::UpperThreshold(_) => 4,
            DestNla::LowerThreshold(_) => 4,
            DestNla::Other(_, bytes) => bytes.len(),
        }
    }

    /// The kind of the attribute.
    pub fn kind(&self) -> (k: u16)
        ensures
            k == self@.kind(),
    {
        match self {
            DestNla::Address(_) => 1,
            DestNla::Port(_) => 2,
            DestNla::ForwardingMethod(_) => 3,
            DestNla::Weight(_) => 4,
            DestNla::UpperThreshold(_) => 5,
            DestNla::LowerThreshold(_) => 6,
            DestNla::Other(kind, _) => *kind,
        }
    }

    /// Appends the bytes of the value.
    pub fn emit_value(&self, order: ByteOrder, buffer: &mut Vec<u8>)
        ensures
            final(buffer)@ == old(buffer)@ + self@.value(order),
    {
        match self {
            DestNla::Address(v) => push_u32(buffer, ByteOrder::Big, *v),
            DestNla::Port(v) => push_u16(buffer, ByteOrder::Big, *v),
            DestNla::ForwardingMethod(v) => push_u32(buffer, order, *v),
            DestNla::Weight(v) => push_u32(buffer, order, signed_bits(*v)),
            DestNla::UpperThreshold(v) => push_u32(buffer, order, *v),
            DestNla::LowerThreshold(v) => push_u32(buffer, order, *v),
            DestNla::Other(_, bytes) => push_bytes(buffer, bytes.as_slice()),
        }
    }

    /// Reads the attribute of the given kind from its value.
    pub fn parse(order: ByteOrder, kind: u16, payload: &[u8]) -> (r: Result<DestNla, DecodeError>)
        ensures
            match DestNlaView::of_attr(order, Attr { kind, value: payload@ }) {
                Ok(v) => r is Ok && r->Ok_0@ == v,
                Err(e) => r == Err::<DestNla, DecodeError>(e),
            },
    {
        let n: usize = payload.len();
        proof {
            assert(payload@.subrange(0, n as int) =~= payload@);
        }
        if kind == 1 {
            if n != 4 {
                return Err(DecodeError::InvalidAddress);
            }
            Ok(DestNla::Address(read_u32(ByteOrder::Big, payload, 0)))
        } else if kind == 2 {
            if n != 2 {
                return Err(DecodeError::InvalidPort);
            }
            Ok(DestNla::Port(read_u16(ByteOrder::Big, payload, 0)))
        } else if 3 <= kind && kind <= 6 {
            if n != 4 {
                return Err(DecodeError::InvalidNumber);
            }
            let number: u32 = read_u32(order, payload, 0);
            if kind == 3 {
                Ok(DestNla::ForwardingMethod(number))
            } else if kind == 4 {
                Ok(DestNla::Weight(bits_signed(number)))
            } else if kind == 5 {
                Ok(DestNla::UpperThreshold(number))
            } else {
                Ok(DestNla::LowerThreshold(number))
            }
        } else {
            Ok(DestNla::Other(kind, copy_range(payload, 0, n)))
        }
    }
}

impl InfoNla {
    /// Whether the value of the attribute fits the length field.
    pub open spec fn value_fits(&self) -> bool {
        self@.value(ByteOrder::Big).len() <= NLA_MAX_VALUE_LEN
    }

    /// The length of the value in bytes.
    pub fn value_len(&self) -> (n: usize)
        ensures
            n == self@.value(ByteOrder::Big).len(),
            n == self@.value(ByteOrder::Little).len(),
    {
        match self {
            InfoNla::Version(_) => 4,
            InfoNla::ConnTableSize(_) => 4,
            InfoNla::Other(_, bytes) => bytes.len(),
        }
    }

    /// The kind of the attribute.
    pub fn kind(&self) -> (k: u16)
        ensures
            k == self@.kind(),
    {
        match self {
            InfoNla::Version(_) => 1,
            InfoNla::ConnTableSize(_) => 2,
            InfoNla::Other(kind, _) => *kind,
        }
    }

    /// Appends the bytes of the value.
    pub fn emit_value(&self, order: ByteOrder, buffer: &mut Vec<u8>)
        ensures
            final(buffer)@ == old(buffer)@ + self@.value(order),
    {
        match self {
            InfoNla::Version(v) => push_u32(buffer, order, *v),
            InfoNla::ConnTableSize(v) => push_u32(buffer, order, *v),
            InfoNla::Other(_, bytes) => push_bytes(buffer, bytes.as_slice()),
        }
    }

    /// Reads the attribute of the given kind from its value.
    pub fn parse(order: ByteOrder, kind: u16, payload: &[u8]) -> (r: Result<InfoNla, DecodeError>)
        ensures
            match InfoNlaView::of_attr(order, Attr { kind, value: payload@ }) {
                Ok(v) => r is Ok && r->Ok_0@ == v,
                Err(e) => r == Err::<InfoNla, DecodeError>(e),
            },
    {
        let n: usize = payload.len();
        proof {
            assert(payload@.subrange(0, n as int) =~= payload@);
        }
        if kind == 1 {
            if n != 4 {
                return Err(DecodeError::InvalidVersion);
            }
            Ok(InfoNla::Version(read_u32(order, payload, 0)))
        } else if kind == 2 {
            if n != 4 {
                return Err(DecodeError::InvalidConnTableSize);
            }
            Ok(InfoNla::ConnTableSize(read_u32(order, payload, 0)))
        } else {
            Ok(InfoNla::Other(kind, copy_range(payload, 0, n)))
        }
    }
}

} // verus!

verus! {

impl ServiceNla {
    /// The length of the attribute on the wire, header and padding
    /// included.
    pub fn buffer_len(&self) -> (n: usize)
        requires
            self.value_fits(),
        ensures
            n == attr_len(self@.attr(ByteOrder::Big)),
            n == attr_len(self@.attr(ByteOrder::Little)),
            n <= 65536,
    {
        padded_len(self.value_len())
    }

    /// Appends the attribute: header, value, padding.
    pub fn emit(&self, order: ByteOrder, buffer: &mut Vec<u8>)
        requires
            self.value_fits(),
        ensures
            final(buffer)@ == old(buffer)@ + attr_bytes(order, self@.attr(order)),
    {
        let n: usize = self.value_len();
        emit_header(buffer, order, self.kind(), n);
        self.emit_value(order, buffer);
        emit_padding(buffer, n);
        assert(buffer@ =~= old(buffer)@ + attr_bytes(order, self@.attr(order)));
    }
}

/// Whether every attribute of the list fits the length field.
pub open spec fn service_fit(nlas: Seq<ServiceNla>) -> bool {
    forall|i: int| 0 <= i < nlas.len() ==> (#[trigger] nlas[i]).value_fits()
}

/// Appends the attributes of a list, one after the other.
pub fn emit_service_nlas(nlas: &Vec<ServiceNla>, order: ByteOrder, buffer: &mut Vec<u8>)
    requires
        service_fit(nlas@),
    ensures
        final(buffer)@ == old(buffer)@ + attrs_bytes(order, service_attrs(order, nlas@)),
{
    let mut i: usize = 0;
    assert(service_attrs(order, nlas@.take(0)) =~= Seq::<Attr>::empty());
    assert(buffer@ =~= old(buffer)@ + attrs_bytes(order, Seq::<Attr>::empty()));
    while i < nlas.len()
        invariant
            i <= nlas@.len(),
            service_fit(nlas@),
            buffer@ == old(buffer)@ + attrs_bytes(order, service_attrs(order, nlas@.take(i as int))),
        decreases nlas@.len() - i,
    {
        nlas[i].emit(order, buffer);
        proof {
            let before = service_attrs(order, nlas@.take(i as int));
            lemma_attrs_bytes_push(order, before, nlas@[i as int]@.attr(order));
            assert(service_attrs(order, nlas@.take(i + 1)) =~= before.push(
                nlas@[i as int]@.attr(order),
            ));
            assert(buffer@ =~= old(buffer)@ + attrs_bytes(
                order,
                service_attrs(order, nlas@.take(i + 1)),
            ));
        }
        i += 1;
    }
    assert(nlas@.take(i as int) =~= nlas@);
}

/// The length of the attributes of a list on the wire, if it can be had
/// without overflow of the length field of an enclosing attribute.
pub fn service_nlas_len(nlas: &Vec<ServiceNla>) -> (n: Option<usize>)
    requires
        service_fit(nlas@),
    ensures
        match n {
            Some(n) => n == attrs_len(service_attrs(ByteOrder::Big, nlas@)) && n <= NLA_MAX_VALUE_LEN,
            None => attrs_len(service_attrs(ByteOrder::Big, nlas@)) > NLA_MAX_VALUE_LEN,
        },
{
    let mut total: usize = 0;
    let mut i: usize = 0;
    assert(service_attrs(ByteOrder::Big, nlas@.take(0)) =~= Seq::<Attr>::empty());
    while i < nlas.len()
        invariant
            i <= nlas@.len(),
            service_fit(nlas@),
            total == attrs_len(service_attrs(ByteOrder::Big, nlas@.take(i as int))),
            total <= NLA_MAX_VALUE_LEN,
        decreases nlas@.len() - i,
    {
        let len: usize = nlas[i].buffer_len();
        proof {
            let before = service_attrs(ByteOrder::Big, nlas@.take(i as int));
            lemma_attrs_bytes_push(ByteOrder::Big, before, nlas@[i as int]@.attr(ByteOrder::Big));
            assert(service_attrs(ByteOrder::Big, nlas@.take(i + 1)) =~= before.push(
                nlas@[i as int]@.attr(ByteOrder::Big),
            ));
        }
        if total + len > NLA_MAX_VALUE_LEN {
            proof {
                lemma_service_len_grows(nlas@, i + 1);
            }
            return None;
        }
        total = total + len;
        i += 1;
    }
    assert(nlas@.take(i as int) =~= nlas@);
    Some(total)
}

/// The first attributes of a list take no more bytes than all of them.
pub proof fn lemma_service_len_grows(nlas: Seq<ServiceNla>, k: int)
    requires
        0 <= k <= nlas.len(),
    ensures
        attrs_len(service_attrs(ByteOrder::Big, nlas.take(k))) <= attrs_len(
            service_attrs(ByteOrder::Big, nlas),
        ),
    decreases nlas.len() - k,
{
    if k < nlas.len() {
        lemma_service_len_grows(nlas, k + 1);
        let before = service_attrs(ByteOrder::Big, nlas.take(k));
        lemma_attrs_bytes_push(ByteOrder::Big, before, nlas[k]@.attr(ByteOrder::Big));
        assert(service_attrs(ByteOrder::Big, nlas.take(k + 1)) =~= before.push(
            nlas[k]@.attr(ByteOrder::Big),
        ));
    } else {
        assert(nlas.take(k) =~= nlas);
    }
}

/// Reads the attributes of a service from their bytes.
pub fn parse_service_nlas(order: ByteOrder, data: &[u8]) -> (r: Result<Vec<ServiceNla>, DecodeError>)
    ensures
        match parse_service_spec(order, data@) {
            Ok(v) => r is Ok && service_views(r->Ok_0@) == v,
            Err(e) => r == Err::<Vec<ServiceNla>, DecodeError>(e),
        },
{
    let ghost convert = |a: Attr| ServiceNlaView::of_attr(order, a);
    let mut nlas: Vec<ServiceNla> = Vec::new();
    let mut offset: usize = 0;
    assert(data@.skip(0) =~= data@);
    assert(service_views(nlas@) =~= Seq::<ServiceNlaView>::empty());
    while offset < data.len()
        invariant
            offset <= data@.len(),
            convert == |a: Attr| ServiceNlaView::of_attr(order, a),
            parse_typed(order, data@, convert) == match parse_typed(
                order,
                data@.skip(offset as int),
                convert,
            ) {
                Ok(rest) => Ok::<Seq<ServiceNlaView>, DecodeError>(service_views(nlas@) + rest),
                Err(e) => Err::<Seq<ServiceNlaView>, DecodeError>(e),
            },
        decreases data@.len() - offset,
    {
        let ghost here = data@.skip(offset as int);
        let ghost done = service_views(nlas@);
        let span = match next_attr(order, data, offset) {
            Ok(span) => span,
            Err(e) => {
                return Err(e);
            },
        };
        let payload = vstd::slice::slice_subrange(data, span.start, span.end);
        let nla = match ServiceNla::parse(order, span.kind, payload) {
            Ok(nla) => nla,
            Err(e) => {
                return Err(e);
            },
        };
        proof {
            let taken = span.next - offset;
            assert(here.skip(taken) =~= data@.skip(span.next as int));
            let after = parse_typed(order, data@.skip(span.next as int), convert);
            assert(convert(first_attr(order, here)->Ok_0.0) == Ok::<ServiceNlaView, DecodeError>(nla@));
            match after {
                Ok(rest) => {
                    assert(service_views(nlas@.push(nla)) =~= done.push(nla@));
                    assert(done + (seq![nla@] + rest) =~= done.push(nla@) + rest);
                },
                Err(_) => {},
            }
        }
        nlas.push(nla);
        assert(span.next > offset);
        offset = span.next;
    }
    assert(data@.skip(offset as int) =~= Seq::<u8>::empty());
    assert(service_views(nlas@) + Seq::<ServiceNlaView>::empty() =~= service_views(nlas@));
    Ok(nlas)
}

/// Reading undoes writing: attributes of a service that are canonical come back
/// from their own bytes as they were written, in either byte order.
pub proof fn lemma_service_roundtrip(order: ByteOrder, nlas: Seq<ServiceNla>)
    requires
        forall|i: int| 0 <= i < nlas.len() ==> (#[trigger] nlas[i])@.canonical(order),
    ensures
        parse_service_spec(order, attrs_bytes(order, service_attrs(order, nlas))) == Ok::<
            Seq<ServiceNlaView>,
            DecodeError,
        >(service_views(nlas)),
    decreases nlas.len(),
{
    let convert = |a: Attr| ServiceNlaView::of_attr(order, a);
    let attrs = service_attrs(order, nlas);
    if nlas.len() == 0 {
        assert(attrs =~= Seq::<Attr>::empty());
        assert(service_views(nlas) =~= Seq::<ServiceNlaView>::empty());
    } else {
        let first = nlas.first();
        let rest = nlas.drop_first();
        assert(first == nlas[0]);
        assert forall|i: int| 0 <= i < rest.len() implies (#[trigger] rest[i])@.canonical(
            order,
        ) by {
            assert(rest[i] == nlas[i + 1]);
        }
        lemma_service_roundtrip(order, rest);
        lemma_service_attr_roundtrip(order, first@);
        let a = first@.attr(order);
        assert(attrs.first() == a);
        assert(attrs.drop_first() =~= service_attrs(order, rest));
        let tail = attrs_bytes(order, service_attrs(order, rest));
        crate::ipvs::attr::lemma_first_attr(order, a, tail);
        lemma_attr_len(order, a);
        let data = attrs_bytes(order, attrs);
        assert(data == attr_bytes(order, a) + tail);
        assert(data.len() > 0);
        assert(seq![first@] + service_views(rest) =~= service_views(nlas));
    }
}

} // verus!

verus! {

impl DestNla {
    /// The length of the attribute on the wire, header and padding
    /// included.
    pub fn buffer_len(&self) -> (n: usize)
        requires
            self.value_fits(),
        ensures
            n == attr_len(self@.attr(ByteOrder::Big)),
            n == attr_len(self@.attr(ByteOrder::Little)),
            n <= 65536,
    {
        padded_len(self.value_len())
    }

    /// Appends the attribute: header, value, padding.
    pub fn emit(&self, order: ByteOrder, buffer: &mut Vec<u8>)
        requires
            self.value_fits(),
        ensures
            final(buffer)@ == old(buffer)@ + attr_bytes(order, self@.attr(order)),
    {
        let n: usize = self.value_len();
        emit_header(buffer, order, self.kind(), n);
        self.emit_value(order, buffer);
        emit_padding(buffer, n);
        assert(buffer@ =~= old(buffer)@ + attr_bytes(order, self@.attr(order)));
    }
}

/// Whether every attribute of the list fits the length field.
pub open spec fn dest_fit(nlas: Seq<DestNla>) -> bool {
    forall|i: int| 0 <= i < nlas.len() ==> (#[trigger] nlas[i]).value_fits()
}

/// Appends the attributes of a list, one after the other.
pub fn emit_dest_nlas(nlas: &Vec<DestNla>, order: ByteOrder, buffer: &mut Vec<u8>)
    requires
        dest_fit(nlas@),
    ensures
        final(buffer)@ == old(buffer)@ + attrs_bytes(order, dest_attrs(order, nlas@)),
{
    let mut i: usize = 0;
    assert(dest_attrs(order, nlas@.take(0)) =~= Seq::<Attr>::empty());
    assert(buffer@ =~= old(buffer)@ + attrs_bytes(order, Seq::<Attr>::empty()));
    while i < nlas.len()
        invariant
            i <= nlas@.len(),
            dest_fit(nlas@),
            buffer@ == old(buffer)@ + attrs_bytes(order, dest_attrs(order, nlas@.take(i as int))),
        decreases nlas@.len() - i,
    {
        nlas[i].emit(order, buffer);
        proof {
            let before = dest_attrs(order, nlas@.take(i as int));
            lemma_attrs_bytes_push(order, before, nlas@[i as int]@.attr(order));
            assert(dest_attrs(order, nlas@.take(i + 1)) =~= before.push(
                nlas@[i as int]@.attr(order),
            ));
            assert(buffer@ =~= old(buffer)@ + attrs_bytes(
                order,
                dest_attrs(order, nlas@.take(i + 1)),
            ));
        }
        i += 1;
    }
    assert(nlas@.take(i as int) =~= nlas@);
}

/// The length of the attributes of a list on the wire, if it can be had
/// without overflow of the length field of an enclosing attribute.
pub fn dest_nlas_len(nlas: &Vec<DestNla>) -> (n: Option<usize>)
    requires
        dest_fit(nlas@),
    ensures
        match n {
            Some(n) => n == attrs_len(dest_attrs(ByteOrder::Big, nlas@)) && n <= NLA_MAX_VALUE_LEN,
            None => attrs_len(dest_attrs(ByteOrder::Big, nlas@)) > NLA_MAX_VALUE_LEN,
        },
{
    let mut total: usize = 0;
    let mut i: usize = 0;
    assert(dest_attrs(ByteOrder::Big, nlas@.take(0)) =~= Seq::<Attr>::empty());
    while i < nlas.len()
        invariant
            i <= nlas@.len(),
            dest_fit(nlas@),
            total == attrs_len(dest_attrs(ByteOrder::Big, nlas@.take(i as int))),
            total <= NLA_MAX_VALUE_LEN,
        decreases nlas@.len() - i,
    {
        let len: usize = nlas[i].buffer_len();
        proof {
            let before = dest_attrs(ByteOrder::Big, nlas@.take(i as int));
            lemma_attrs_bytes_push(ByteOrder::Big, before, nlas@[i as int]@.attr(ByteOrder::Big));
            assert(dest_attrs(ByteOrder::Big, nlas@.take(i + 1)) =~= before.push(
                nlas@[i as int]@.attr(ByteOrder::Big),
            ));
        }
        if total + len > NLA_MAX_VALUE_LEN {
            proof {
                lemma_dest_len_grows(nlas@, i + 1);
            }
            return None;
        }
        total = total + len;
        i += 1;
    }
    assert(nlas@.take(i as int) =~= nlas@);
    Some(total)
}

/// The first attributes of a list take no more bytes than all of them.
pub proof fn lemma_dest_len_grows(nlas: Seq<DestNla>, k: int)
    requires
        0 <= k <= nlas.len(),
    ensures
        attrs_len(dest_attrs(ByteOrder::Big, nlas.take(k))) <= attrs_len(
            dest_attrs(ByteOrder::Big, nlas),
        ),
    decreases nlas.len() - k,
{
    if k < nlas.len() {
        lemma_dest_len_grows(nlas, k + 1);
        let before = dest_attrs(ByteOrder::Big, nlas.take(k));
        lemma_attrs_bytes_push(ByteOrder::Big, before, nlas[k]@.attr(ByteOrder::Big));
        assert(dest_attrs(ByteOrder::Big, nlas.take(k + 1)) =~= before.push(
            nlas[k]@.attr(ByteOrder::Big),
        ));
    } else {
        assert(nlas.take(k) =~= nlas);
    }
}

/// Reads the attributes of a destination from their bytes.
pub fn parse_dest_nlas(order: ByteOrder, data: &[u8]) -> (r: Result<Vec<DestNla>, DecodeError>)
    ensures
        match parse_dest_spec(order, data@) {
            Ok(v) => r is Ok && dest_views(r->Ok_0@) == v,
            Err(e) => r == Err::<Vec<DestNla>, DecodeError>(e),
        },
{
    let ghost convert = |a: Attr| DestNlaView::of_attr(order, a);
    let mut nlas: Vec<DestNla> = Vec::new();
    let mut offset: usize = 0;
    assert(data@.skip(0) =~= data@);
    assert(dest_views(nlas@) =~= Seq::<DestNlaView>::empty());
    while offset < data.len()
        invariant
            offset <= data@.len(),
            convert == |a: Attr| DestNlaView::of_attr(order, a),
            parse_typed(order, data@, convert) == match parse_typed(
                order,
                data@.skip(offset as int),
                convert,
            ) {
                Ok(rest) => Ok::<Seq<DestNlaView>, DecodeError>(dest_views(nlas@) + rest),
                Err(e) => Err::<Seq<DestNlaView>, DecodeError>(e),
            },
        decreases data@.len() - offset,
    {
        let ghost here = data@.skip(offset as int);
        let ghost done = dest_views(nlas@);
        let span = match next_attr(order, data, offset) {
            Ok(span) => span,
            Err(e) => {
                return Err(e);
            },
        };
        let payload = vstd::slice::slice_subrange(data, span.start, span.end);
        let nla = match DestNla::parse(order, span.kind, payload) {
            Ok(nla) => nla,
            Err(e) => {
                return Err(e);
            },
        };
        proof {
            let taken = span.next - offset;
            assert(here.skip(taken) =~= data@.skip(span.next as int));
            let after = parse_typed(order, data@.skip(span.next as int), convert);
            assert(convert(first_attr(order, here)->Ok_0.0) == Ok::<DestNlaView, DecodeError>(nla@));
            match after {
                Ok(rest) => {
                    assert(dest_views(nlas@.push(nla)) =~= done.push(nla@));
                    assert(done + (seq![nla@] + rest) =~= done.push(nla@) + rest);
                },
                Err(_) => {},
            }
        }
        nlas.push(nla);
        assert(span.next > offset);
        offset = span.next;
    }
    assert(data@.skip(offset as int) =~= Seq::<u8>::empty());
    assert(dest_views(nlas@) + Seq::<DestNlaView>::empty() =~= dest_views(nlas@));
    Ok(nlas)
}

/// Reading undoes writing: attributes of a destination that are canonical come back
/// from their own bytes as they were written, in either byte order.
pub proof fn lemma_dest_roundtrip(order: ByteOrder, nlas: Seq<DestNla>)
    requires
        forall|i: int| 0 <= i < nlas.len() ==> (#[trigger] nlas[i])@.canonical(order),
    ensures
        parse_dest_spec(order, attrs_bytes(order, dest_attrs(order, nlas))) == Ok::<
            Seq<DestNlaView>,
            DecodeError,
        >(dest_views(nlas)),
    decreases nlas.len(),
{
    let convert = |a: Attr| DestNlaView::of_attr(order, a);
    let attrs = dest_attrs(order, nlas);
    if nlas.len() == 0 {
        assert(attrs =~= Seq::<Attr>::empty());
        assert(dest_views(nlas) =~= Seq::<DestNlaView>::empty());
    } else {
        let first = nlas.first();
        let rest = nlas.drop_first();
        assert(first == nlas[0]);
        assert forall|i: int| 0 <= i < rest.len() implies (#[trigger] rest[i])@.canonical(
            order,
        ) by {
            assert(rest[i] == nlas[i + 1]);
        }
        lemma_dest_roundtrip(order, rest);
        lemma_dest_attr_roundtrip(order, first@);
        let a = first@.attr(order);
        assert(attrs.first() == a);
        assert(attrs.drop_first() =~= dest_attrs(order, rest));
        let tail = attrs_bytes(order, dest_attrs(order, rest));
        crate::ipvs::attr::lemma_first_attr(order, a, tail);
        lemma_attr_len(order, a);
        let data = attrs_bytes(order, attrs);
        assert(data == attr_bytes(order, a) + tail);
        assert(data.len() > 0);
        assert(seq![first@] + dest_views(rest) =~= dest_views(nlas));
    }
}

} // verus!

verus! {

impl InfoNla {
    /// The length of the attribute on the wire, header and padding
    /// included.
    pub fn buffer_len(&self) -> (n: usize)
        requires
            self.value_fits(),
        ensures
            n == attr_len(self@.attr(ByteOrder::Big)),
            n == attr_len(self@.attr(ByteOrder::Little)),
            n <= 65536,
    {
        padded_len(self.value_len())
    }

    /// Appends the attribute: header, value, padding.
    pub fn emit(&self, order: ByteOrder, buffer: &mut Vec<u8>)
        requires
            self.value_fits(),
        ensures
            final(buffer)@ == old(buffer)@ + attr_bytes(order, self@.attr(order)),
    {
        let n: usize = self.value_len();
        emit_header(buffer, order, self.kind(), n);
        self.emit_value(order, buffer);
        emit_padding(buffer, n);
        assert(buffer@ =~= old(buffer)@ + attr_bytes(order, self@.attr(order)));
    }
}

/// Whether every attribute of the list fits the length field.
pub open spec fn info_fit(nlas: Seq<InfoNla>) -> bool {
    forall|i: int| 0 <= i < nlas.len() ==> (#[trigger] nlas[i]).value_fits()
}

/// Appends the attributes of a list, one after the other.
pub fn emit_info_nlas(nlas: &Vec<InfoNla>, order: ByteOrder, buffer: &mut Vec<u8>)
    requires
        info_fit(nlas@),
    ensures
        final(buffer)@ == old(buffer)@ + attrs_bytes(order, info_attrs(order, nlas@)),
{
    let mut i: usize = 0;
    assert(info_attrs(order, nlas@.take(0)) =~= Seq::<Attr>::empty());
    assert(buffer@ =~= old(buffer)@ + attrs_bytes(order, Seq::<Attr>::empty()));
    while i < nlas.len()
        invariant
            i <= nlas@.len(),
            info_fit(nlas@),
            buffer@ == old(buffer)@ + attrs_bytes(order, info_attrs(order, nlas@.take(i as int))),
        decreases nlas@.len() - i,
    {
        nlas[i].emit(order, buffer);
        proof {
            let before = info_attrs(order, nlas@.take(i as int));
            lemma_attrs_bytes_push(order, before, nlas@[i as int]@.attr(order));
            assert(info_attrs(order, nlas@.take(i + 1)) =~= before.push(
                nlas@[i as int]@.attr(order),
            ));
            assert(buffer@ =~= old(buffer)@ + attrs_bytes(
                order,
                info_attrs(order, nlas@.take(i + 1)),
            ));
        }
        i += 1;
    }
    assert(nlas@.take(i as int) =~= nlas@);
}

/// The length of the attributes of a list on the wire, if it can be had
/// without overflow of the length field of an enclosing attribute.
pub fn info_nlas_len(nlas: &Vec<InfoNla>) -> (n: Option<usize>)
    requires
        info_fit(nlas@),
    ensures
        match n {
            Some(n) => n == attrs_len(info_attrs(ByteOrder::Big, nlas@)) && n <= NLA_MAX_VALUE_LEN,
            None => attrs_len(info_attrs(ByteOrder::Big, nlas@)) > NLA_MAX_VALUE_LEN,
        },
{
    let mut total: usize = 0;
    let mut i: usize = 0;
    assert(info_attrs(ByteOrder::Big, nlas@.take(0)) =~= Seq::<Attr>::empty());
    while i < nlas.len()
        invariant
            i <= nlas@.len(),
            info_fit(nlas@),
            total == attrs_len(info_attrs(ByteOrder::Big, nlas@.take(i as int))),
            total <= NLA_MAX_VALUE_LEN,
        decreases nlas@.len() - i,
    {
        let len: usize = nlas[i].buffer_len();
        proof {
            let before = info_attrs(ByteOrder::Big, nlas@.take(i as int));
            lemma_attrs_bytes_push(ByteOrder::Big, before, nlas@[i as int]@.attr(ByteOrder::Big));
            assert(info_attrs(ByteOrder::Big, nlas@.take(i + 1)) =~= before.push(
                nlas@[i as int]@.attr(ByteOrder::Big),
            ));
        }
        if total + len > NLA_MAX_VALUE_LEN {
            proof {
                lemma_info_len_grows(nlas@, i + 1);
            }
            return None;
        }
        total = total + len;
        i += 1;
    }
    assert(nlas@.take(i as int) =~= nlas@);
    Some(total)
}

/// The first attributes of a list take no more bytes than all of them.
pub proof fn lemma_info_len_grows(nlas: Seq<InfoNla>, k: int)
    requires
        0 <= k <= nlas.len(),
    ensures
        attrs_len(info_attrs(ByteOrder::Big, nlas.take(k))) <= attrs_len(
            info_attrs(ByteOrder::Big, nlas),
        ),
    decreases nlas.len() - k,
{
    if k < nlas.len() {
        lemma_info_len_grows(nlas, k + 1);
        let before = info_attrs(ByteOrder::Big, nlas.take(k));
        lemma_attrs_bytes_push(ByteOrder::Big, before, nlas[k]@.attr(ByteOrder::Big));
        assert(info_attrs(ByteOrder::Big, nlas.take(k + 1)) =~= before.push(
            nlas[k]@.attr(ByteOrder::Big),
        ));
    } else {
        assert(nlas.take(k) =~= nlas);
    }
}

/// Reads the attributes of an answer with information from their bytes.
pub fn parse_info_nlas(order: ByteOrder, data: &[u8]) -> (r: Result<Vec<InfoNla>, DecodeError>)
    ensures
        match parse_info_spec(order, data@) {
            Ok(v) => r is Ok && info_views(r->Ok_0@) == v,
            Err(e) => r == Err::<Vec<InfoNla>, DecodeError>(e),
        },
{
    let ghost convert = |a: Attr| InfoNlaView::of_attr(order, a);
    let mut nlas: Vec<InfoNla> = Vec::new();
    let mut offset: usize = 0;
    assert(data@.skip(0) =~= data@);
    assert(info_views(nlas@) =~= Seq::<InfoNlaView>::empty());
    while offset < data.len()
        invariant
            offset <= data@.len(),
            convert == |a: Attr| InfoNlaView::of_attr(order, a),
            parse_typed(order, data@, convert) == match parse_typed(
                order,
                data@.skip(offset as int),
                convert,
            ) {
                Ok(rest) => Ok::<Seq<InfoNlaView>, DecodeError>(info_views(nlas@) + rest),
                Err(e) => Err::<Seq<InfoNlaView>, DecodeError>(e),
            },
        decreases data@.len() - offset,
    {
        let ghost here = data@.skip(offset as int);
        let ghost done = info_views(nlas@);
        let span = match next_attr(order, data, offset) {
            Ok(span) => span,
            Err(e) => {
                return Err(e);
            },
        };
        let payload = vstd::slice::slice_subrange(data, span.start, span.end);
        let nla = match InfoNla::parse(order, span.kind, payload) {
            Ok(nla) => nla,
            Err(e) => {
                return Err(e);
            },
        };
        proof {
            let taken = span.next - offset;
            assert(here.skip(taken) =~= data@.skip(span.next as int));
            let after = parse_typed(order, data@.skip(span.next as int), convert);
            assert(convert(first_attr(order, here)->Ok_0.0) == Ok::<InfoNlaView, DecodeError>(nla@));
            match after {
                Ok(rest) => {
                    assert(info_views(nlas@.push(nla)) =~= done.push(nla@));
                    assert(done + (seq![nla@] + rest) =~= done.push(nla@) + rest);
                },
                Err(_) => {},
            }
        }
        nlas.push(nla);
        assert(span.next > offset);
        offset = span.next;
    }
    assert(data@.skip(offset as int) =~= Seq::<u8>::empty());
    assert(info_views(nlas@) + Seq::<InfoNlaView>::empty() =~= info_views(nlas@));
    Ok(nlas)
}

/// Reading undoes writing: attributes of an answer with information that are canonical come back
/// from their own bytes as they were written, in either byte order.
pub proof fn lemma_info_roundtrip(order: ByteOrder, nlas: Seq<InfoNla>)
    requires
        forall|i: int| 0 <= i < nlas.len() ==> (#[trigger] nlas[i])@.canonical(order),
    ensures
        parse_info_spec(order, attrs_bytes(order, info_attrs(order, nlas))) == Ok::<
            Seq<InfoNlaView>,
            DecodeError,
        >(info_views(nlas)),
    decreases nlas.len(),
{
    let convert = |a: Attr| InfoNlaView::of_attr(order, a);
    let attrs = info_attrs(order, nlas);
    if nlas.len() == 0 {
        assert(attrs =~= Seq::<Attr>::empty());
        assert(info_views(nlas) =~= Seq::<InfoNlaView>::empty());
    } else {
        let first = nlas.first();
        let rest = nlas.drop_first();
        assert(first == nlas[0]);
        assert forall|i: int| 0 <= i < rest.len() implies (#[trigger] rest[i])@.canonical(
            order,
        ) by {
            assert(rest[i] == nlas[i + 1]);
        }
        lemma_info_roundtrip(order, rest);
        lemma_info_attr_roundtrip(order, first@);
        let a = first@.attr(order);
        assert(attrs.first() == a);
        assert(attrs.drop_first() =~= info_attrs(order, rest));
        let tail = attrs_bytes(order, info_attrs(order, rest));
        crate::ipvs::attr::lemma_first_attr(order, a, tail);
        lemma_attr_len(order, a);
        let data = attrs_bytes(order, attrs);
        assert(data == attr_bytes(order, a) + tail);
        assert(data.len() > 0);
        assert(seq![first@] + info_views(rest) =~= info_views(nlas));
    }
}

} // verus!

verus! {

/// The zero bytes at the end of a name that does not end in one are exactly
/// the one that was written after it.
pub proof fn lemma_strip_nuls(name: Seq<u8>)
    requires
        name.len() == 0 || name.last() != 0,
    ensures
        strip_nuls(name + seq![0u8]) == name,
{
    let padded = name + seq![0u8];
    assert(padded.last() == 0);
    assert(padded.drop_last() =~= name);
    assert(strip_nuls(name) == name);
    assert(strip_nuls(padded) == strip_nuls(padded.drop_last()));
}

/// A canonical attribute of a service means, once written, what it was.
pub proof fn lemma_service_attr_roundtrip(order: ByteOrder, nla: ServiceNlaView)
    requires
        nla.canonical(order),
    ensures
        nla.attr(order).fits(),
        ServiceNlaView::of_attr(order, nla.attr(order)) == Ok::<ServiceNlaView, DecodeError>(nla),
{
    match nla {
        ServiceNlaView::AddressFamily(v) => {
            crate::ipvs::wire::lemma_integer_roundtrip(order, v, 0, 0);
        },
        ServiceNlaView::Protocol(v) => {
            crate::ipvs::wire::lemma_integer_roundtrip(order, v, 0, 0);
        },
        ServiceNlaView::Address(v) => {
            crate::ipvs::wire::lemma_integer_roundtrip(ByteOrder::Big, 0, v, 0);
        },
        ServiceNlaView::Port(v) => {
            crate::ipvs::wire::lemma_integer_roundtrip(ByteOrder::Big, v, 0, 0);
        },
        ServiceNlaView::FirewallMark(v) => {
            crate::ipvs::wire::lemma_integer_roundtrip(order, 0, v, 0);
        },
        ServiceNlaView::Scheduler(s) => {
            lemma_strip_nuls(encode_utf8(s));
            vstd::utf8::encode_utf8_valid_utf8(s);
            vstd::utf8::encode_utf8_decode_utf8(s);
        },
        ServiceNlaView::Flags(f, m) => {
            crate::ipvs::wire::lemma_integer_roundtrip(order, 0, f, 0);
            crate::ipvs::wire::lemma_integer_roundtrip(order, 0, m, 0);
            let v = nla.value(order);
            assert(v.subrange(0, 4) =~= u32_bytes(order, f));
            assert(v.subrange(4, 8) =~= u32_bytes(order, m));
        },
        ServiceNlaView::Timeout(v) => {
            crate::ipvs::wire::lemma_integer_roundtrip(order, 0, v, 0);
        },
        ServiceNlaView::Netmask(v) => {
            crate::ipvs::wire::lemma_integer_roundtrip(order, 0, v, 0);
        },
        ServiceNlaView::Other(_, _) => {},
    }
}

/// A canonical attribute of a destination means, once written, what it was.
pub proof fn lemma_dest_attr_roundtrip(order: ByteOrder, nla: DestNlaView)
    requires
        nla.canonical(order),
    ensures
        nla.attr(order).fits(),
        DestNlaView::of_attr(order, nla.attr(order)) == Ok::<DestNlaView, DecodeError>(nla),
{
    match nla {
        DestNlaView::Address(v) => {
            crate::ipvs::wire::lemma_integer_roundtrip(ByteOrder::Big, 0, v, 0);
        },
        DestNlaView::Port(v) => {
            crate::ipvs::wire::lemma_integer_roundtrip(ByteOrder::Big, v, 0, 0);
        },
        DestNlaView::ForwardingMethod(v) => {
            crate::ipvs::wire::lemma_integer_roundtrip(order, 0, v, 0);
        },
        DestNlaView::Weight(v) => {
            crate::ipvs::wire::lemma_integer_roundtrip(order, 0, i32_bits(v), v);
        },
        DestNlaView::UpperThreshold(v) => {
            crate::ipvs::wire::lemma_integer_roundtrip(order, 0, v, 0);
        },
        DestNlaView::LowerThreshold(v) => {
            crate::ipvs::wire::lemma_integer_roundtrip(order, 0, v, 0);
        },
        DestNlaView::Other(_, _) => {},
    }
}

/// A canonical attribute of an answer with information means, once written,
/// what it was.
pub proof fn lemma_info_attr_roundtrip(order: ByteOrder, nla: InfoNlaView)
    requires
        nla.canonical(order),
    ensures
        nla.attr(order).fits(),
        InfoNlaView::of_attr(order, nla.attr(order)) == Ok::<InfoNlaView, DecodeError>(nla),
{
    match nla {
        InfoNlaView::Version(v) => {
            crate::ipvs::wire::lemma_integer_roundtrip(order, 0, v, 0);
        },
        InfoNlaView::ConnTableSize(v) => {
            crate::ipvs::wire::lemma_integer_roundtrip(order, 0, v, 0);
        },
        InfoNlaView::Other(_, _) => {},
    }
}

} // verus!

verus! {

impl ServiceNla {
    /// Whether the value of the attribute fits the length field.
    pub fn check_fits(&self) -> (r: bool)
        ensures
            r == self.value_fits(),
    {
        match self {
            ServiceNla::Scheduler(s) => s.as_str().as_bytes().len() < NLA_MAX_VALUE_LEN,
            ServiceNla::Other(_, bytes) => bytes.len() <= NLA_MAX_VALUE_LEN,
            _ => true,
        }
    }
}

impl DestNla {
    /// Whether the value of the attribute fits the length field.
    pub fn check_fits(&self) -> (r: bool)
        ensures
            r == self.value_fits(),
    {
        match self {
            DestNla::Other(_, bytes) => bytes.len() <= NLA_MAX_VALUE_LEN,
            _ => true,
        }
    }
}

impl InfoNla {
    /// Whether the value of the attribute fits the length field.
    pub fn check_fits(&self) -> (r: bool)
        ensures
            r == self.value_fits(),
    {
        match self {
            InfoNla::Other(_, bytes) => bytes.len() <= NLA_MAX_VALUE_LEN,
            _ => true,
        }
    }
}

/// Whether every attribute of the list fits the length field.
pub fn check_service_fit(nlas: &Vec<ServiceNla>) -> (r: bool)
    ensures
        r == service_fit(nlas@),
{
    let mut i: usize = 0;
    while i < nlas.len()
        invariant
            i <= nlas@.len(),
            forall|j: int| 0 <= j < i ==> (#[trigger] nlas@[j]).value_fits(),
        decreases nlas@.len() - i,
    {
        if !nlas[i].check_fits() {
            return false;
        }
        i += 1;
    }
    true
}

/// Whether every attribute of the list fits the length field.
pub fn check_dest_fit(nlas: &Vec<DestNla>) -> (r: bool)
    ensures
        r == dest_fit(nlas@),
{
    let mut i: usize = 0;
    while i < nlas.len()
        invariant
            i <= nlas@.len(),
            forall|j: int| 0 <= j < i ==> (#[trigger] nlas@[j]).value_fits(),
        decreases nlas@.len() - i,
    {
        if !nlas[i].check_fits() {
            return false;
        }
        i += 1;
    }
    true
}

/// Whether every attribute of the list fits the length field.
pub fn check_info_fit(nlas: &Vec<InfoNla>) -> (r: bool)
    ensures
        r == info_fit(nlas@),
{
    let mut i: usize = 0;
    while i < nlas.len()
        invariant
            i <= nlas@.len(),
            forall|j: int| 0 <= j < i ==> (#[trigger] nlas@[j]).value_fits(),
        decreases nlas@.len() - i,
    {
        if !nlas[i].check_fits() {
            return false;
        }
        i += 1;
    }
    true
}

} // verus!
