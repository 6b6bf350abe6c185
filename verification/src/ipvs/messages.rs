//! Messages of the IPVS family: a command and its top-level attributes.

use crate::ipvs::attr::{
    attr_bytes, attr_len, attrs_bytes, attrs_len, copy_range, emit_header, emit_padding, first_attr,
    lemma_attrs_bytes_push, lemma_attrs_len, next_attr, padded_len, Attr, DecodeError,
    NLA_MAX_VALUE_LEN,
};
use crate::ipvs::commands::IPVSCommand;
use crate::ipvs::nla::{
    dest_attrs, dest_fit, dest_nlas_len, dest_views, emit_dest_nlas, emit_info_nlas,
    emit_service_nlas, info_attrs, info_fit, info_nlas_len, info_views, parse_dest_nlas,
    parse_dest_spec, parse_info_nlas, parse_info_spec, parse_service_nlas, parse_service_spec,
    parse_typed, service_attrs, service_fit, service_nlas_len, service_views, DestNla,
    DestNlaView, InfoNla, InfoNlaView, ServiceNla, ServiceNlaView,
};
use crate::ipvs::types::{
    Destination, Protocol, Scheduler, SchedulerView, Service, ServiceFlags, ServiceStats,
};
use crate::ipvs::wire::{bits_i32, bits_signed, push_bytes, ByteOrder};
use crate::net::IpAddr;
use vstd::prelude::*;

verus! {

/// Address family of IPv4.
pub const AF_INET: u16 = 2;

/// Name of the generic netlink family.
pub const IPVS_GENL_NAME: &'static str = "IPVS";

/// Version of the generic netlink family.
pub const IPVS_GENL_VERSION: u8 = 1;

/// Top-level attributes of a message.
#[derive(Debug, Clone, PartialEq, Eq)]
pub enum IPVSNla {
    /// A service, as nested attributes.
    Service(Vec<ServiceNla>),
    /// A destination, as nested attributes.
    Dest(Vec<DestNla>),
    /// Information, as nested attributes.
    Info(Vec<InfoNla>),
    /// An attribute of another kind, with its bytes.
    Other(u16, Vec<u8>),
}

/// The mathematical value of an [`IPVSNla`].
pub enum IPVSNlaView {
    Service(Seq<ServiceNlaView>),
    Dest(Seq<DestNlaView>),
    Info(Seq<InfoNlaView>),
    Other(u16, Seq<u8>),
}

impl View for IPVSNla {
    type V = IPVSNlaView;

    open spec fn view(&self) -> IPVSNlaView {
        match self {
            IPVSNla::Service(nlas) => IPVSNlaView::Service(service_views(nlas@)),
            IPVSNla::Dest(nlas) => IPVSNlaView::Dest(dest_views(nlas@)),
            IPVSNla::Info(nlas) => IPVSNlaView::Info(info_views(nlas@)),
            IPVSNla::Other(kind, bytes) => IPVSNlaView::Other(*kind, bytes@),
        }
    }
}

impl IPVSNla {
    /// The kind of the attribute: 1 for a service, 2 for a destination, 0
    /// for information.
    pub open spec fn kind_spec(&self) -> u16 {
        match self {
            IPVSNla::Service(_) => 1,
            IPVSNla::Dest(_) => 2,
            IPVSNla::Info(_) => 0,
            IPVSNla::Other(kind, _) => *kind,
        }
    }

    /// The bytes of the value: the nested attributes one after the other.
    pub open spec fn value_spec(&self, order: ByteOrder) -> Seq<u8> {
        match self {
            IPVSNla::Service(nlas) => attrs_bytes(order, service_attrs(order, nlas@)),
            IPVSNla::Dest(nlas) => attrs_bytes(order, dest_attrs(order, nlas@)),
            IPVSNla::Info(nlas) => attrs_bytes(order, info_attrs(order, nlas@)),
            IPVSNla::Other(_, bytes) => bytes@,
        }
    }

    /// The attribute as it is on the wire.
    pub open spec fn attr(&self, order: ByteOrder) -> Attr {
        Attr { kind: self.kind_spec(), value: self.value_spec(order) }
    }

    /// Whether the attribute can be written: every nested attribute fits
    /// its length field, and all of them together fit the length field of
    /// this attribute.
    pub open spec fn value_fits(&self) -> bool {
        match self {
            IPVSNla::Service(nlas) => service_fit(nlas@) && attrs_len(
                service_attrs(ByteOrder::Big, nlas@),
            ) <= NLA_MAX_VALUE_LEN,
            IPVSNla::Dest(nlas) => dest_fit(nlas@) && attrs_len(dest_attrs(ByteOrder::Big, nlas@))
                <= NLA_MAX_VALUE_LEN,
            IPVSNla::Info(nlas) => info_fit(nlas@) && attrs_len(info_attrs(ByteOrder::Big, nlas@))
                <= NLA_MAX_VALUE_LEN,
            IPVSNla::Other(_, bytes) => bytes@.len() <= NLA_MAX_VALUE_LEN,
        }
    }

    /// The length of the value in bytes.
    pub fn value_len(&self) -> (n: usize)
        requires
            self.value_fits(),
        ensures
            n == self.value_spec(ByteOrder::Big).len(),
            n <= NLA_MAX_VALUE_LEN,
    {
        match self {
            IPVSNla::Service(nlas) => {
                proof {
                    lemma_attrs_len(ByteOrder::Big, service_attrs(ByteOrder::Big, nlas@));
                }
                match service_nlas_len(nlas) {
                    Some(n) => n,
                    None => 0,
                }
            },
            IPVSNla::Dest(nlas) => {
                proof {
                    lemma_attrs_len(ByteOrder::Big, dest_attrs(ByteOrder::Big, nlas@));
                }
                match dest_nlas_len(nlas) {
                    Some(n) => n,
                    None => 0,
                }
            },
            IPVSNla::Info(nlas) => {
                proof {
                    lemma_attrs_len(ByteOrder::Big, info_attrs(ByteOrder::Big, nlas@));
                }
                match info_nlas_len(nlas) {
                    Some(n) => n,
                    None => 0,
                }
            },
            IPVSNla::Other(_, bytes) => bytes.len(),
        }
    }

    /// The kind of the attribute.
    pub fn kind(&self) -> (k: u16)
        ensures
            k == self.kind_spec(),
    {
        match self {
            IPVSNla::Service(_) => 1,
            IPVSNla::Dest(_) => 2,
            IPVSNla::Info(_) => 0,
            IPVSNla::Other(kind, _) => *kind,
        }
    }

    /// Appends the bytes of the value.
    pub fn emit_value(&self, order: ByteOrder, buffer: &mut Vec<u8>)
        requires
            self.value_fits(),
        ensures
            final(buffer)@ == old(buffer)@ + self.value_spec(order),
    {
        match self {
            IPVSNla::Service(nlas) => emit_service_nlas(nlas, order, buffer),
            IPVSNla::Dest(nlas) => emit_dest_nlas(nlas, order, buffer),
            IPVSNla::Info(nlas) => emit_info_nlas(nlas, order, buffer),
            IPVSNla::Other(_, bytes) => push_bytes(buffer, bytes.as_slice()),
        }
    }

    /// The length of the attribute on the wire, header and padding
    /// included.
    pub fn buffer_len(&self) -> (n: usize)
        requires
            self.value_fits(),
        ensures
            n == attr_len(self.attr(ByteOrder::Big)),
            n <= 65536,
    {
        padded_len(self.value_len())
    }

    /// Appends the attribute: header, value, padding.
    pub fn emit(&self, order: ByteOrder, buffer: &mut Vec<u8>)
        requires
            self.value_fits(),
        ensures
            final(buffer)@ == old(buffer)@ + attr_bytes(order, self.attr(order)),
    {
        let n: usize = self.value_len();
        proof {
            lemma_value_len_any_order(self, order);
        }
        emit_header(buffer, order, self.kind(), n);
        self.emit_value(order, buffer);
        emit_padding(buffer, n);
        assert(buffer@ =~= old(buffer)@ + attr_bytes(order, self.attr(order)));
    }
}

/// The length of attributes on the wire does not depend on the byte order.
pub proof fn lemma_attrs_len_any_order(a: Seq<Attr>, b: Seq<Attr>)
    requires
        a.len() == b.len(),
        forall|i: int| 0 <= i < a.len() ==> (#[trigger] a[i]).value.len() == b[i].value.len(),
    ensures
        attrs_len(a) == attrs_len(b),
    decreases a.len(),
{
    if a.len() > 0 {
        assert(a.first().value.len() == b.first().value.len());
        assert forall|i: int| 0 <= i < a.drop_first().len() implies (#[trigger] a.drop_first()[i]).value.len()
            == b.drop_first()[i].value.len() by {
            assert(a.drop_first()[i] == a[i + 1]);
            assert(b.drop_first()[i] == b[i + 1]);
        }
        lemma_attrs_len_any_order(a.drop_first(), b.drop_first());
    }
}

/// The value of a top-level attribute is as long in one byte order as in
/// the other.
pub proof fn lemma_value_len_any_order(nla: &IPVSNla, order: ByteOrder)
    ensures
        nla.value_spec(order).len() == nla.value_spec(ByteOrder::Big).len(),
{
    match nla {
        IPVSNla::Service(nlas) => {
            let a = service_attrs(order, nlas@);
            let b = service_attrs(ByteOrder::Big, nlas@);
            lemma_attrs_len_any_order(a, b);
            lemma_attrs_len(order, a);
            lemma_attrs_len(ByteOrder::Big, b);
        },
        IPVSNla::Dest(nlas) => {
            let a = dest_attrs(order, nlas@);
            let b = dest_attrs(ByteOrder::Big, nlas@);
            lemma_attrs_len_any_order(a, b);
            lemma_attrs_len(order, a);
            lemma_attrs_len(ByteOrder::Big, b);
        },
        IPVSNla::Info(nlas) => {
            let a = info_attrs(order, nlas@);
            let b = info_attrs(ByteOrder::Big, nlas@);
            lemma_attrs_len_any_order(a, b);
            lemma_attrs_len(order, a);
            lemma_attrs_len(ByteOrder::Big, b);
        },
        IPVSNla::Other(_, _) => {},
    }
}

/// The attributes of a list of top-level attributes, as they are on the
/// wire.
pub open spec fn top_attrs(order: ByteOrder, nlas: Seq<IPVSNla>) -> Seq<Attr> {
    Seq::new(nlas.len(), |i: int| nlas[i].attr(order))
}

/// The command that an answer can carry under a number.
pub open spec fn command_of(code: u8) -> Option<IPVSCommand> {
    if code == 1 {
        Some(IPVSCommand::GetInfo)
    } else if code == 2 {
        Some(IPVSCommand::NewService)
    } else if code == 3 {
        Some(IPVSCommand::SetService)
    } else if code == 4 {
        Some(IPVSCommand::DelService)
    } else if code == 5 {
        Some(IPVSCommand::GetService)
    } else if code == 10 {
        Some(IPVSCommand::Flush)
    } else {
        None
    }
}

/// A message of the IPVS family.
#[derive(Debug, Clone, PartialEq, Eq)]
pub struct IPVSMessage {
    /// The command.
    pub cmd: IPVSCommand,
    /// The top-level attributes.
    pub nlas: Vec<IPVSNla>,
}

/// The mathematical value of an [`IPVSMessage`].
pub struct MessageView {
    pub cmd: IPVSCommand,
    pub nlas: Seq<IPVSNlaView>,
}

impl View for IPVSMessage {
    type V = MessageView;

    open spec fn view(&self) -> MessageView {
        MessageView { cmd: self.cmd, nlas: top_views(self.nlas@) }
    }
}

/// The values of a list of top-level attributes.
pub open spec fn top_views(nlas: Seq<IPVSNla>) -> Seq<IPVSNlaView> {
    Seq::new(nlas.len(), |i: int| nlas[i]@)
}

impl IPVSNlaView {
    /// What a top-level attribute of the wire means in an answer: kind 1
    /// holds the attributes of a service, kind 2 those of a destination,
    /// any other kind is kept with its bytes.
    pub open spec fn of_attr(order: ByteOrder, a: Attr) -> Result<IPVSNlaView, DecodeError> {
        if a.kind == 1 {
            match parse_service_spec(order, a.value) {
                Ok(nlas) => Ok(IPVSNlaView::Service(nlas)),
                Err(e) => Err(e),
            }
        } else if a.kind == 2 {
            match parse_dest_spec(order, a.value) {
                Ok(nlas) => Ok(IPVSNlaView::Dest(nlas)),
                Err(e) => Err(e),
            }
        } else {
            Ok(IPVSNlaView::Other(a.kind, a.value))
        }
    }
}

/// What bytes mean as the top-level attributes of an answer.
pub open spec fn parse_top_spec(order: ByteOrder, data: Seq<u8>) -> Result<
    Seq<IPVSNlaView>,
    DecodeError,
> {
    parse_typed(order, data, |a: Attr| IPVSNlaView::of_attr(order, a))
}

/// What the payload of an answer means under the command of its header. An
/// answer to a request for information carries information attributes at
/// the top level; they come back as one `Info` attribute. Any other answer
/// carries services and destinations as nested attributes.
pub open spec fn parse_message_spec(order: ByteOrder, buf: Seq<u8>, code: u8) -> Result<
    MessageView,
    DecodeError,
> {
    match command_of(code) {
        None => Err(DecodeError::UnknownCommand),
        Some(cmd) => if buf.len() == 0 {
            Ok(MessageView { cmd, nlas: Seq::empty() })
        } else if cmd == IPVSCommand::GetInfo {
            match parse_info_spec(order, buf) {
                Err(e) => Err(e),
                Ok(infos) => Ok(MessageView { cmd, nlas: seq![IPVSNlaView::Info(infos)] }),
            }
        } else {
            match parse_top_spec(order, buf) {
                Err(e) => Err(e),
                Ok(nlas) => Ok(MessageView { cmd, nlas }),
            }
        },
    }
}

impl IPVSMessage {
    /// A message without attributes.
    pub fn new(cmd: IPVSCommand) -> (m: Self)
        ensures
            m.cmd == cmd,
            m.nlas@ == Seq::<IPVSNla>::empty(),
    {
        IPVSMessage { cmd, nlas: Vec::new() }
    }

    /// A message with the given attributes.
    pub fn with_nlas(cmd: IPVSCommand, nlas: Vec<IPVSNla>) -> (m: Self)
        ensures
            m.cmd == cmd,
            m.nlas == nlas,
    {
        IPVSMessage { cmd, nlas }
    }

    /// The name of the generic netlink family.
    pub fn family_name() -> (name: &'static str)
        ensures
            name@ == "IPVS"@,
    {
        "IPVS"
    }

    /// The version of the generic netlink family.
    pub fn version(&self) -> (v: u8)
        ensures
            v == 1,
    {
        1
    }

    /// The number of the command.
    pub fn command(&self) -> (c: u8)
        ensures
            c == self.cmd.code_spec(),
    {
        self.cmd.code()
    }

    /// Whether the message can be written: every attribute fits.
    pub open spec fn fits(&self) -> bool {
        forall|i: int| 0 <= i < self.nlas@.len() ==> (#[trigger] self.nlas@[i]).value_fits()
    }

    /// The bytes of the payload: the attributes one after the other.
    pub open spec fn payload_spec(&self, order: ByteOrder) -> Seq<u8> {
        attrs_bytes(order, top_attrs(order, self.nlas@))
    }

    /// The length of the payload in bytes.
    pub fn buffer_len(&self) -> (n: usize)
        requires
            self.fits(),
            attrs_len(top_attrs(ByteOrder::Big, self.nlas@)) <= usize::MAX,
        ensures
            n == attrs_len(top_attrs(ByteOrder::Big, self.nlas@)),
    {
        let mut total: usize = 0;
        let mut i: usize = 0;
        assert(top_attrs(ByteOrder::Big, self.nlas@.take(0)) =~= Seq::<Attr>::empty());
        while i < self.nlas.len()
            invariant
                i <= self.nlas@.len(),
                self.fits(),
                attrs_len(top_attrs(ByteOrder::Big, self.nlas@)) <= usize::MAX,
                total == attrs_len(top_attrs(ByteOrder::Big, self.nlas@.take(i as int))),
            decreases self.nlas@.len() - i,
        {
            let len: usize = self.nlas[i].buffer_len();
            proof {
                let before = top_attrs(ByteOrder::Big, self.nlas@.take(i as int));
                lemma_attrs_bytes_push(
                    ByteOrder::Big,
                    before,
                    self.nlas@[i as int].attr(ByteOrder::Big),
                );
                assert(top_attrs(ByteOrder::Big, self.nlas@.take(i + 1)) =~= before.push(
                    self.nlas@[i as int].attr(ByteOrder::Big),
                ));
                lemma_top_len_grows(self.nlas@, i + 1);
            }
            total = total + len;
            i += 1;
        }
        assert(self.nlas@.take(i as int) =~= self.nlas@);
        total
    }

    /// Appends the payload: the attributes one after the other.
    pub fn emit(&self, order: ByteOrder, buffer: &mut Vec<u8>)
        requires
            self.fits(),
        ensures
            final(buffer)@ == old(buffer)@ + self.payload_spec(order),
    {
        let mut i: usize = 0;
        assert(top_attrs(order, self.nlas@.take(0)) =~= Seq::<Attr>::empty());
        assert(buffer@ =~= old(buffer)@ + attrs_bytes(order, Seq::<Attr>::empty()));
        while i < self.nlas.len()
            invariant
                i <= self.nlas@.len(),
                self.fits(),
                buffer@ == old(buffer)@ + attrs_bytes(
                    order,
                    top_attrs(order, self.nlas@.take(i as int)),
                ),
            decreases self.nlas@.len() - i,
        {
            self.nlas[i].emit(order, buffer);
            proof {
                let before = top_attrs(order, self.nlas@.take(i as int));
                lemma_attrs_bytes_push(order, before, self.nlas@[i as int].attr(order));
                assert(top_attrs(order, self.nlas@.take(i + 1)) =~= before.push(
                    self.nlas@[i as int].attr(order),
                ));
                assert(buffer@ =~= old(buffer)@ + attrs_bytes(
                    order,
                    top_attrs(order, self.nlas@.take(i + 1)),
                ));
            }
            i += 1;
        }
        assert(self.nlas@.take(i as int) =~= self.nlas@);
    }

    /// Reads the payload of an answer whose header carries the command
    /// `code`.
    pub fn parse_with_param(order: ByteOrder, buf: &[u8], code: u8) -> (r: Result<
        IPVSMessage,
        DecodeError,
    >)
        ensures
            match parse_message_spec(order, buf@, code) {
                Ok(m) => r is Ok && r->Ok_0@ == m,
                Err(e) => r == Err::<IPVSMessage, DecodeError>(e),
            },
    {
        let cmd: IPVSCommand = if code == 1 {
            IPVSCommand::GetInfo
        } else if code == 2 {
            IPVSCommand::NewService
        } else if code == 3 {
            IPVSCommand::SetService
        } else if code == 4 {
            IPVSCommand::DelService
        } else if code == 5 {
            IPVSCommand::GetService
        } else if code == 10 {
            IPVSCommand::Flush
        } else {
            return Err(DecodeError::UnknownCommand);
        };
        let mut nlas: Vec<IPVSNla> = Vec::new();
        if buf.len() > 0 && code == 1 {
            let infos = match parse_info_nlas(order, buf) {
                Ok(infos) => infos,
                Err(e) => {
                    return Err(e);
                },
            };
            nlas.push(IPVSNla::Info(infos));
        } else if buf.len() > 0 {
            nlas = match parse_top_nlas(order, buf) {
                Ok(nlas) => nlas,
                Err(e) => {
                    return Err(e);
                },
            };
        }
        let message = IPVSMessage { cmd, nlas };
        assert(message@.nlas =~= parse_message_spec(order, buf@, code)->Ok_0.nlas);
        Ok(message)
    }
}

impl IPVSNla {
    /// Reads the top-level attribute of the given kind from its value.
    pub fn parse(order: ByteOrder, kind: u16, payload: &[u8]) -> (r: Result<IPVSNla, DecodeError>)
        ensures
            match IPVSNlaView::of_attr(order, Attr { kind, value: payload@ }) {
                Ok(v) => r is Ok && r->Ok_0@ == v,
                Err(e) => r == Err::<IPVSNla, DecodeError>(e),
            },
    {
        if kind == 1 {
            match parse_service_nlas(order, payload) {
                Ok(nlas) => Ok(IPVSNla::Service(nlas)),
                Err(e) => Err(e),
            }
        } else if kind == 2 {
            match parse_dest_nlas(order, payload) {
                Ok(nlas) => Ok(IPVSNla::Dest(nlas)),
                Err(e) => Err(e),
            }
        } else {
            let bytes = copy_range(payload, 0, payload.len());
            assert(payload@.subrange(0, payload@.len() as int) =~= payload@);
            Ok(IPVSNla::Other(kind, bytes))
        }
    }
}

/// Reads the top-level attributes of an answer from their bytes.
pub fn parse_top_nlas(order: ByteOrder, data: &[u8]) -> (r: Result<Vec<IPVSNla>, DecodeError>)
    ensures
        match parse_top_spec(order, data@) {
            Ok(v) => r is Ok && top_views(r->Ok_0@) == v,
            Err(e) => r == Err::<Vec<IPVSNla>, DecodeError>(e),
        },
{
    let ghost convert = |a: Attr| IPVSNlaView::of_attr(order, a);
    let mut nlas: Vec<IPVSNla> = Vec::new();
    let mut offset: usize = 0;
    assert(data@.skip(0) =~= data@);
    assert(top_views(nlas@) =~= Seq::<IPVSNlaView>::empty());
    while offset < data.len()
        invariant
            offset <= data@.len(),
            convert == |a: Attr| IPVSNlaView::of_attr(order, a),
            parse_typed(order, data@, convert) == match parse_typed(
                order,
                data@.skip(offset as int),
                convert,
            ) {
                Ok(rest) => Ok::<Seq<IPVSNlaView>, DecodeError>(top_views(nlas@) + rest),
                Err(e) => Err::<Seq<IPVSNlaView>, DecodeError>(e),
            },
        decreases data@.len() - offset,
    {
        let ghost here = data@.skip(offset as int);
        let ghost done = top_views(nlas@);
        let span = match next_attr(order, data, offset) {
            Ok(span) => span,
            Err(e) => {
                return Err(e);
            },
        };
        let payload = vstd::slice::slice_subrange(data, span.start, span.end);
        let nla = match IPVSNla::parse(order, span.kind, payload) {
            Ok(nla) => nla,
            Err(e) => {
                return Err(e);
            },
        };
        proof {
            let taken = span.next - offset;
            assert(here.skip(taken) =~= data@.skip(span.next as int));
            let after = parse_typed(order, data@.skip(span.next as int), convert);
            assert(convert(first_attr(order, here)->Ok_0.0) == Ok::<IPVSNlaView, DecodeError>(
                nla@,
            ));
            match after {
                Ok(rest) => {
                    assert(top_views(nlas@.push(nla)) =~= done.push(nla@));
                    assert(done + (seq![nla@] + rest) =~= done.push(nla@) + rest);
                },
                Err(_) => {},
            }
        }
        nlas.push(nla);
        assert(span.next > offset);
        offset = span.next;
    }
    assert(data@.skip(offset as int) =~= Seq::<u8>::empty());
    assert(top_views(nlas@) + Seq::<IPVSNlaView>::empty() =~= top_views(nlas@));
    Ok(nlas)
}

/// The first attributes of a message take no more bytes than all of them.
pub proof fn lemma_top_len_grows(nlas: Seq<IPVSNla>, k: int)
    requires
        0 <= k <= nlas.len(),
    ensures
        attrs_len(top_attrs(ByteOrder::Big, nlas.take(k))) <= attrs_len(
            top_attrs(ByteOrder::Big, nlas),
        ),
    decreases nlas.len() - k,
{
    if k < nlas.len() {
        lemma_top_len_grows(nlas, k + 1);
        let before = top_attrs(ByteOrder::Big, nlas.take(k));
        lemma_attrs_bytes_push(ByteOrder::Big, before, nlas[k].attr(ByteOrder::Big));
        assert(top_attrs(ByteOrder::Big, nlas.take(k + 1)) =~= before.push(
            nlas[k].attr(ByteOrder::Big),
        ));
    } else {
        assert(nlas.take(k) =~= nlas);
    }
}

} // verus!

verus! {

/// The IPv4 address as one number, its first octet the most significant;
/// 0 for an IPv6 address, which this family of messages does not carry.
pub open spec fn address_number(ip: IpAddr) -> u32 {
    match ip {
        IpAddr::V4(o) => (o[0] * 0x100_0000 + o[1] * 0x1_0000 + o[2] * 0x100 + o[3]) as u32,
        IpAddr::V6(_) => 0,
    }
}

/// The IPv4 address of a number.
pub open spec fn number_address(n: u32) -> IpAddr {
    IpAddr::V4(
        [
            (n / 0x100_0000) as u8,
            ((n / 0x1_0000) % 256) as u8,
            ((n / 0x100) % 256) as u8,
            (n % 256) as u8,
        ],
    )
}

fn address_as_number(ip: &IpAddr) -> (n: u32)
    ensures
        n == address_number(*ip),
{
    match ip {
        IpAddr::V4(o) => o[0] as u32 * 0x100_0000 + o[1] as u32 * 0x1_0000 + o[2] as u32 * 0x100
            + o[3] as u32,
        IpAddr::V6(_) => 0,
    }
}

fn number_as_address(n: u32) -> (ip: IpAddr)
    ensures
        ip == number_address(n),
{
    IpAddr::V4(
        [
            (n / 0x100_0000) as u8,
            ((n / 0x1_0000) % 256) as u8,
            ((n / 0x100) % 256) as u8,
            (n % 256) as u8,
        ],
    )
}

/// The attributes that identify and describe a service in a request: the
/// family, the protocol, then address and port or, if the service has a
/// firewall mark, the mark alone, then the scheduler and the flags with
/// themselves as mask, then the timeout if it is not 0.
pub open spec fn service_nlas_spec(s: &Service) -> Seq<ServiceNlaView> {
    seq![ServiceNlaView::AddressFamily(AF_INET), ServiceNlaView::Protocol(s.protocol.number_spec())]
        + (if s.fwmark == 0 {
        seq![ServiceNlaView::Address(address_number(s.address)), ServiceNlaView::Port(s.port)]
    } else {
        seq![ServiceNlaView::FirewallMark(s.fwmark)]
    }) + seq![
        ServiceNlaView::Scheduler(s.scheduler@.name()),
        ServiceNlaView::Flags(s.flags.0, s.flags.0),
    ] + (if s.timeout > 0 {
        seq![ServiceNlaView::Timeout(s.timeout)]
    } else {
        Seq::empty()
    })
}

/// The attributes that describe a destination in a request: address, port,
/// weight, forwarding method, upper and lower threshold.
pub open spec fn dest_nlas_spec(d: &Destination) -> Seq<DestNlaView> {
    seq![
        DestNlaView::Address(address_number(d.address)),
        DestNlaView::Port(d.port),
        DestNlaView::Weight(bits_i32(d.weight)),
        DestNlaView::ForwardingMethod(d.flags.code_spec()),
        DestNlaView::UpperThreshold(d.upper_threshold),
        DestNlaView::LowerThreshold(d.lower_threshold),
    ]
}

impl Service {
    /// The attributes of the service for a request.
    pub fn to_service_nlas(&self) -> (nlas: Vec<ServiceNla>)
        ensures
            service_views(nlas@) == service_nlas_spec(self),
    {
        let mut nlas: Vec<ServiceNla> = Vec::new();
        nlas.push(ServiceNla::AddressFamily(AF_INET));
        nlas.push(ServiceNla::Protocol(self.protocol.number()));
        if self.fwmark == 0 {
            nlas.push(ServiceNla::Address(address_as_number(&self.address)));
            nlas.push(ServiceNla::Port(self.port));
        } else {
            nlas.push(ServiceNla::FirewallMark(self.fwmark));
        }
        nlas.push(ServiceNla::Scheduler(self.scheduler.to_string()));
        nlas.push(ServiceNla::Flags(self.flags.0, self.flags.0));
        if self.timeout > 0 {
            nlas.push(ServiceNla::Timeout(self.timeout));
        }
        assert(service_views(nlas@) =~= service_nlas_spec(self));
        nlas
    }
}

impl Destination {
    /// The attributes of the destination for a request.
    pub fn to_dest_nlas(&self) -> (nlas: Vec<DestNla>)
        ensures
            dest_views(nlas@) == dest_nlas_spec(self),
    {
        let mut nlas: Vec<DestNla> = Vec::new();
        nlas.push(DestNla::Address(address_as_number(&self.address)));
        nlas.push(DestNla::Port(self.port));
        nlas.push(DestNla::Weight(bits_signed(self.weight)));
        nlas.push(DestNla::ForwardingMethod(self.flags.code()));
        nlas.push(DestNla::UpperThreshold(self.upper_threshold));
        nlas.push(DestNla::LowerThreshold(self.lower_threshold));
        assert(dest_views(nlas@) =~= dest_nlas_spec(self));
        nlas
    }
}

/// Whether the name of a scheduler can be written and read back: its UTF-8
/// form fits an attribute and does not end in a zero byte.
pub open spec fn name_roundtrips(name: Seq<char>) -> bool {
    let bytes = vstd::utf8::encode_utf8(name);
    bytes.len() < NLA_MAX_VALUE_LEN && (bytes.len() == 0 || bytes.last() != 0)
}

/// An attribute of a service that has a meaning of its own is canonical if
/// a name in it can be written and read back.
proof fn lemma_plain_service_view(order: ByteOrder, v: ServiceNlaView)
    requires
        !(v is Other),
        v matches ServiceNlaView::Scheduler(name) ==> name_roundtrips(name),
    ensures
        v.canonical(order),
{
    crate::ipvs::wire::lemma_integer_roundtrip(order, 0, 0, 0);
    crate::ipvs::wire::lemma_integer_roundtrip(ByteOrder::Big, 0, 0, 0);
}

/// An attribute of a destination that has a meaning of its own is
/// canonical.
proof fn lemma_plain_dest_view(order: ByteOrder, v: DestNlaView)
    requires
        !(v is Other),
    ensures
        v.canonical(order),
{
    crate::ipvs::wire::lemma_integer_roundtrip(order, 0, 0, 0);
    crate::ipvs::wire::lemma_integer_roundtrip(ByteOrder::Big, 0, 0, 0);
}

/// The attributes of a service come back from the wire as they were
/// written, in either byte order, whenever the name of its scheduler can be
/// written and read back.
pub proof fn lemma_service_nlas_roundtrip(order: ByteOrder, s: &Service, nlas: Seq<ServiceNla>)
    requires
        service_views(nlas) == service_nlas_spec(s),
        name_roundtrips(s.scheduler@.name()),
    ensures
        crate::ipvs::nla::parse_service_spec(
            order,
            attrs_bytes(order, service_attrs(order, nlas)),
        ) == Ok::<Seq<ServiceNlaView>, DecodeError>(service_nlas_spec(s)),
{
    let views = service_nlas_spec(s);
    let family = ServiceNlaView::AddressFamily(AF_INET);
    let protocol = ServiceNlaView::Protocol(s.protocol.number_spec());
    let address = ServiceNlaView::Address(address_number(s.address));
    let port = ServiceNlaView::Port(s.port);
    let mark = ServiceNlaView::FirewallMark(s.fwmark);
    let scheduler = ServiceNlaView::Scheduler(s.scheduler@.name());
    let flags = ServiceNlaView::Flags(s.flags.0, s.flags.0);
    let timeout = ServiceNlaView::Timeout(s.timeout);
    if s.fwmark == 0 && s.timeout > 0 {
        assert(views =~= seq![family, protocol, address, port, scheduler, flags, timeout]);
    } else if s.fwmark == 0 {
        assert(views =~= seq![family, protocol, address, port, scheduler, flags]);
    } else if s.timeout > 0 {
        assert(views =~= seq![family, protocol, mark, scheduler, flags, timeout]);
    } else {
        assert(views =~= seq![family, protocol, mark, scheduler, flags]);
    }
    assert forall|i: int| 0 <= i < nlas.len() implies (#[trigger] nlas[i])@.canonical(order) by {
        assert(nlas[i]@ == service_views(nlas)[i]);
        assert(nlas[i]@ == views[i]);
        lemma_plain_service_view(order, views[i]);
    }
    crate::ipvs::nla::lemma_service_roundtrip(order, nlas);
}

/// The attributes of a destination come back from the wire as they were
/// written, in either byte order.
pub proof fn lemma_dest_nlas_roundtrip(order: ByteOrder, d: &Destination, nlas: Seq<DestNla>)
    requires
        dest_views(nlas) == dest_nlas_spec(d),
    ensures
        crate::ipvs::nla::parse_dest_spec(order, attrs_bytes(order, dest_attrs(order, nlas))) == Ok::<
            Seq<DestNlaView>,
            DecodeError,
        >(dest_nlas_spec(d)),
{
    let views = dest_nlas_spec(d);
    assert(dest_views(nlas).len() == nlas.len());
    assert(views.len() == 6);
    assert forall|i: int| 0 <= i < nlas.len() implies (#[trigger] nlas[i])@.canonical(order) by {
        assert(nlas[i]@ == dest_views(nlas)[i]);
        assert(nlas[i]@ == views[i]);
        lemma_plain_dest_view(order, views[i]);
    }
    crate::ipvs::nla::lemma_dest_roundtrip(order, nlas);
}

} // verus!

verus! {

impl IPVSNla {
    /// Whether the attribute can be written.
    pub fn check_fits(&self) -> (r: bool)
        ensures
            r == self.value_fits(),
    {
        match self {
            IPVSNla::Service(nlas) => {
                if !crate::ipvs::nla::check_service_fit(nlas) {
                    return false;
                }
                service_nlas_len(nlas).is_some()
            },
            IPVSNla::Dest(nlas) => {
                if !crate::ipvs::nla::check_dest_fit(nlas) {
                    return false;
                }
                dest_nlas_len(nlas).is_some()
            },
            IPVSNla::Info(nlas) => {
                if !crate::ipvs::nla::check_info_fit(nlas) {
                    return false;
                }
                info_nlas_len(nlas).is_some()
            },
            IPVSNla::Other(_, bytes) => bytes.len() <= NLA_MAX_VALUE_LEN,
        }
    }
}

impl IPVSMessage {
    /// Whether the message can be written.
    pub fn check_fits(&self) -> (r: bool)
        ensures
            r == self.fits(),
    {
        let mut i: usize = 0;
        while i < self.nlas.len()
            invariant
                i <= self.nlas@.len(),
                forall|j: int| 0 <= j < i ==> (#[trigger] self.nlas@[j]).value_fits(),
            decreases self.nlas@.len() - i,
        {
            if !self.nlas[i].check_fits() {
                return false;
            }
            i += 1;
        }
        true
    }
}

} // verus!

verus! {

/// The mathematical value of a [`Service`].
pub struct ServiceView {
    pub address: IpAddr,
    pub protocol: Protocol,
    pub port: u16,
    pub fwmark: u32,
    pub scheduler: SchedulerView,
    pub flags: ServiceFlags,
    pub timeout: u32,
    pub persistence_engine: Option<Seq<char>>,
    pub statistics: ServiceStats,
}

impl View for Service {
    type V = ServiceView;

    open spec fn view(&self) -> ServiceView {
        ServiceView {
            address: self.address,
            protocol: self.protocol,
            port: self.port,
            fwmark: self.fwmark,
            scheduler: self.scheduler@,
            flags: self.flags,
            timeout: self.timeout,
            persistence_engine: match self.persistence_engine {
                Some(name) => Some(name@),
                None => None,
            },
            statistics: self.statistics,
        }
    }
}

/// The service of which nothing is known yet.
pub open spec fn blank_service() -> ServiceView {
    ServiceView {
        address: number_address(0),
        protocol: Protocol::Other(0),
        port: 0,
        fwmark: 0,
        scheduler: SchedulerView::Other(Seq::empty()),
        flags: ServiceFlags(0),
        timeout: 0,
        persistence_engine: None,
        statistics: ServiceStats {
            connections: 0,
            packets_in: 0,
            packets_out: 0,
            bytes_in: 0,
            bytes_out: 0,
            cps: 0,
            pps_in: 0,
            pps_out: 0,
            bps_in: 0,
            bps_out: 0,
        },
    }
}

/// The service after one more of its attributes has been read.
pub open spec fn with_nla(s: ServiceView, nla: ServiceNlaView) -> ServiceView {
    match nla {
        ServiceNlaView::Protocol(p) => ServiceView {
            protocol: Protocol::of_number((p % 256) as u8),
            ..s
        },
        ServiceNlaView::Address(a) => ServiceView { address: number_address(a), ..s },
        ServiceNlaView::Port(p) => ServiceView { port: p, ..s },
        ServiceNlaView::FirewallMark(m) => ServiceView { fwmark: m, ..s },
        ServiceNlaView::Scheduler(name) => ServiceView {
            scheduler: SchedulerView::of_name(name),
            ..s
        },
        ServiceNlaView::Flags(flags, _) => ServiceView { flags: ServiceFlags(flags), ..s },
        ServiceNlaView::Timeout(t) => ServiceView { timeout: t, ..s },
        _ => s,
    }
}

/// The service that attributes describe: each attribute sets its field, a
/// later one over an earlier one; a field without attribute is 0 or empty.
pub open spec fn service_of(nlas: Seq<ServiceNlaView>) -> ServiceView
    decreases nlas.len(),
{
    if nlas.len() == 0 {
        blank_service()
    } else {
        with_nla(service_of(nlas.drop_last()), nlas.last())
    }
}

/// A service that its attributes describe in full: an IPv4 service without
/// persistence engine and statistics, whose protocol and scheduler are in
/// their named form where they have one, and which, if a firewall mark
/// identifies it, has neither address nor port.
pub open spec fn plain_service(s: ServiceView) -> bool {
    &&& s.address is V4
    &&& s.fwmark != 0 ==> s.address == number_address(0) && s.port == 0
    &&& s.protocol == Protocol::of_number((s.protocol.number_spec() % 256) as u8)
    &&& s.scheduler == SchedulerView::of_name(s.scheduler.name())
    &&& s.persistence_engine is None
    &&& s.statistics == blank_service().statistics
}

impl Service {
    /// The service that attributes describe.
    pub fn from_service_nlas(nlas: &Vec<ServiceNla>) -> (s: Service)
        ensures
            s@ == service_of(service_views(nlas@)),
    {
        let mut s = Service {
            address: number_as_address(0),
            protocol: Protocol::Other(0),
            port: 0,
            fwmark: 0,
            scheduler: Scheduler::Other(String::new()),
            flags: ServiceFlags(0),
            timeout: 0,
            persistence_engine: None,
            statistics: ServiceStats::default(),
        };
        let mut i: usize = 0;
        assert(service_views(nlas@).take(0) =~= Seq::<ServiceNlaView>::empty());
        while i < nlas.len()
            invariant
                i <= nlas@.len(),
                s@ == service_of(service_views(nlas@).take(i as int)),
            decreases nlas@.len() - i,
        {
            proof {
                let upto = service_views(nlas@).take(i + 1);
                assert(upto.drop_last() =~= service_views(nlas@).take(i as int));
                assert(upto.last() == nlas@[i as int]@);
            }
            match &nlas[i] {
                ServiceNla::Protocol(p) => {
                    s.protocol = Protocol::from_number((*p % 256) as u8);
                },
                ServiceNla::Address(a) => {
                    s.address = number_as_address(*a);
                },
                ServiceNla::Port(p) => {
                    s.port = *p;
                },
                ServiceNla::FirewallMark(m) => {
                    s.fwmark = *m;
                },
                ServiceNla::Scheduler(name) => {
                    s.scheduler = Scheduler::from_name(name.as_str());
                },
                ServiceNla::Flags(flags, _) => {
                    s.flags = ServiceFlags(*flags);
                },
                ServiceNla::Timeout(t) => {
                    s.timeout = *t;
                },
                _ => {},
            }
            i += 1;
        }
        assert(service_views(nlas@).take(i as int) =~= service_views(nlas@));
        s
    }
}

/// The address of a number is the address that the number was made from.
pub proof fn lemma_address_number(ip: IpAddr)
    requires
        ip is V4,
    ensures
        number_address(address_number(ip)) == ip,
{
    let o = ip->V4_0;
    let a = o[0] as int;
    let b = o[1] as int;
    let c = o[2] as int;
    let d = o[3] as int;
    let n = address_number(ip) as int;
    assert(n == a * 0x100_0000 + b * 0x1_0000 + c * 0x100 + d);
    lemma_quotients(a, b, c, d, n);
    assert(number_address(address_number(ip))->V4_0 =~= o);
}

/// The four base-256 digits of a number that is made of them.
proof fn lemma_quotients(a: int, b: int, c: int, d: int, n: int)
    requires
        0 <= a < 256,
        0 <= b < 256,
        0 <= c < 256,
        0 <= d < 256,
        n == a * 0x100_0000 + b * 0x1_0000 + c * 0x100 + d,
    ensures
        n / 0x100_0000 == a,
        (n / 0x1_0000) % 256 == b,
        (n / 0x100) % 256 == c,
        n % 256 == d,
{
    assert(n == 0x100_0000 * a + (b * 0x1_0000 + c * 0x100 + d));
    assert(n / 0x100_0000 == a);
    assert(n == 0x1_0000 * (a * 0x100 + b) + (c * 0x100 + d));
    assert(n / 0x1_0000 == a * 0x100 + b);
    assert(n == 0x100 * (a * 0x1_0000 + b * 0x100 + c) + d);
    assert(n / 0x100 == a * 0x1_0000 + b * 0x100 + c);
}

/// A plain service is the service that its own attributes describe.
pub proof fn lemma_service_of_own_nlas(s: &Service)
    requires
        plain_service(s@),
    ensures
        service_of(service_nlas_spec(s)) == s@,
{
    let views = service_nlas_spec(s);
    let family = ServiceNlaView::AddressFamily(AF_INET);
    let protocol = ServiceNlaView::Protocol(s.protocol.number_spec());
    let address = ServiceNlaView::Address(address_number(s.address));
    let port = ServiceNlaView::Port(s.port);
    let mark = ServiceNlaView::FirewallMark(s.fwmark);
    let scheduler = ServiceNlaView::Scheduler(s.scheduler@.name());
    let flags = ServiceNlaView::Flags(s.flags.0, s.flags.0);
    let timeout = ServiceNlaView::Timeout(s.timeout);
    lemma_address_number(s.address);
    let start = seq![family, protocol];
    let keyed = if s.fwmark == 0 {
        start.push(address).push(port)
    } else {
        start.push(mark)
    };
    let described = keyed.push(scheduler).push(flags);
    let all = if s.timeout > 0 {
        described.push(timeout)
    } else {
        described
    };
    assert(views =~= all);
    lemma_service_of_push(Seq::empty(), family);
    assert(Seq::<ServiceNlaView>::empty().push(family).push(protocol) =~= start);
    lemma_service_of_push(seq![family], protocol);
    assert(seq![family] =~= Seq::<ServiceNlaView>::empty().push(family));
    if s.fwmark == 0 {
        lemma_service_of_push(start, address);
        lemma_service_of_push(start.push(address), port);
    } else {
        lemma_service_of_push(start, mark);
    }
    lemma_service_of_push(keyed, scheduler);
    lemma_service_of_push(keyed.push(scheduler), flags);
    if s.timeout > 0 {
        lemma_service_of_push(described, timeout);
    }
    assert(s.flags == ServiceFlags(s.flags.0));
}

/// One more attribute at the end is read last.
pub proof fn lemma_service_of_push(nlas: Seq<ServiceNlaView>, nla: ServiceNlaView)
    ensures
        service_of(nlas.push(nla)) == with_nla(service_of(nlas), nla),
{
    assert(nlas.push(nla).drop_last() =~= nlas);
}

/// A plain service comes back from the wire: written as attributes in
/// either byte order, read back and put together again, it is the service
/// that was written, whenever the name of its scheduler can be written and
/// read back.
pub proof fn lemma_service_roundtrip(order: ByteOrder, s: &Service, nlas: Seq<ServiceNla>)
    requires
        service_views(nlas) == service_nlas_spec(s),
        plain_service(s@),
        name_roundtrips(s.scheduler@.name()),
    ensures
        crate::ipvs::nla::parse_service_spec(
            order,
            attrs_bytes(order, service_attrs(order, nlas)),
        ) matches Ok(read) && service_of(read) == s@,
{
    lemma_service_nlas_roundtrip(order, s, nlas);
    lemma_service_of_own_nlas(s);
}

} // verus!
