//! The IPVS driver: the request that each operation sends, and what it
//! reads from the answer.
//!
//! The driver builds requests and numbers them; whoever owns the netlink
//! socket sends each request and hands back the frame that answers it.

use crate::error::{Error, ErrorView};
use crate::ipvs::commands::IPVSCommand;
use crate::ipvs::attr::{
    attr_bytes, attr_len, attrs_bytes, attrs_len, lemma_attr_len, lemma_attrs_len,
    first_attr, lemma_first_attr, Attr, DecodeError, NLA_MAX_VALUE_LEN,
};
use crate::ipvs::messages::{
    command_of, dest_nlas_spec, lemma_service_nlas_roundtrip, lemma_service_of_own_nlas,
    lemma_value_len_any_order, name_roundtrips, parse_message_spec, plain_service,
    service_nlas_spec, service_of, IPVSMessage, IPVSNla, IPVSNlaView, MessageView, ServiceView,
};
use crate::ipvs::netlink::{SequenceCounter, NLM_F_DUMP, NLM_F_REQUEST};
use crate::ipvs::nla::{
    dest_attrs, dest_fit, dest_views, info_views, parse_typed, service_attrs, service_fit,
    service_views, DestNla, InfoNla, InfoNlaView, ServiceNla, ServiceNlaView,
};
use crate::ipvs::wire::ByteOrder;
use crate::ipvs::types::{Destination, IPVSVersion, SchedulerView, Service};
use vstd::prelude::*;

verus! {

/// A request to the kernel.
pub struct Request {
    /// The identifier of the IPVS family.
    pub family_id: u16,
    /// The sequence number of the request.
    pub sequence: u32,
    /// The flags of the netlink header.
    pub flags: u16,
    /// The message.
    pub message: IPVSMessage,
}

/// The flags of a request that asks for one answer.
pub open spec fn request_flags() -> u16 {
    NLM_F_REQUEST
}

/// The flags of a request that asks for all entries.
pub open spec fn dump_flags() -> u16 {
    0x301
}

/// The first version among information attributes.
pub open spec fn first_version(infos: Seq<InfoNlaView>) -> Option<u32>
    decreases infos.len(),
{
    if infos.len() == 0 {
        None
    } else {
        match infos.first() {
            InfoNlaView::Version(v) => Some(v),
            _ => first_version(infos.drop_first()),
        }
    }
}

/// The version that an answer to a request for information carries: the
/// first version among the information attributes of its first attribute.
pub open spec fn version_spec(nlas: Seq<IPVSNlaView>) -> Option<IPVSVersion> {
    if nlas.len() == 0 {
        None
    } else {
        match nlas.first() {
            IPVSNlaView::Info(infos) => match first_version(infos) {
                Some(v) => Some(IPVSVersion::of_number(v)),
                None => None,
            },
            _ => None,
        }
    }
}

/// The attributes of the first service among top-level attributes.
pub open spec fn first_service(nlas: Seq<IPVSNlaView>) -> Option<Seq<ServiceNlaView>>
    decreases nlas.len(),
{
    if nlas.len() == 0 {
        None
    } else {
        match nlas.first() {
            IPVSNlaView::Service(v) => Some(v),
            _ => first_service(nlas.drop_first()),
        }
    }
}

/// The service that an answer carries: the one that the attributes of its
/// first service describe.
pub open spec fn service_in(m: MessageView) -> Option<ServiceView> {
    match first_service(m.nlas) {
        Some(v) => Some(service_of(v)),
        None => None,
    }
}

/// The services that the answers of a dump carry, in order; an answer
/// without a service adds none.
pub open spec fn services_in(replies: Seq<IPVSMessage>) -> Seq<ServiceView>
    decreases replies.len(),
{
    if replies.len() == 0 {
        Seq::empty()
    } else {
        let before = services_in(replies.drop_last());
        match service_in(replies.last()@) {
            Some(v) => before.push(v),
            None => before,
        }
    }
}

/// The values of a list of services.
pub open spec fn views_of(services: Seq<Service>) -> Seq<ServiceView> {
    Seq::new(services.len(), |i: int| services[i]@)
}

/// Why a service cannot be sent, if it cannot: its address is not IPv4,
/// which is all that this family of messages carries, or the name of its
/// scheduler is empty.
pub open spec fn service_refusal(s: &Service) -> Option<ErrorView> {
    if !(s.address is V4) {
        Some(ErrorView::IPVS("Only IPv4 services are supported"@))
    } else if s.scheduler@.name().len() == 0 {
        Some(ErrorView::IPVS("Scheduler name must not be empty"@))
    } else {
        None
    }
}

/// Why a destination cannot be sent for a service, if it cannot: the
/// service cannot be sent, or the address of the destination is of another
/// family than that of the service.
pub open spec fn destination_refusal(s: &Service, d: &Destination) -> Option<ErrorView> {
    if service_refusal(s) is Some {
        service_refusal(s)
    } else if !s.address.same_family(d.address) {
        Some(ErrorView::IPVS("Destination address family does not match service"@))
    } else {
        None
    }
}

/// Whether attributes of a service can be written as one nested attribute:
/// each fits its length field, and so do all of them together.
pub open spec fn service_views_fit(v: Seq<ServiceNlaView>) -> bool {
    &&& forall|i: int|
        0 <= i < v.len() ==> (#[trigger] v[i]).value(ByteOrder::Big).len() <= NLA_MAX_VALUE_LEN
    &&& attrs_len(Seq::new(v.len(), |i: int| v[i].attr(ByteOrder::Big))) <= NLA_MAX_VALUE_LEN
}

/// Whether a request can be built for the service: nothing refuses it, and
/// its attributes can be written.
pub open spec fn service_sendable(s: &Service) -> bool {
    service_refusal(s) is None && service_views_fit(service_nlas_spec(s))
}

/// Whether a request can be built for the destination of the service:
/// nothing refuses the two, and the attributes of the service can be
/// written. Those of a destination always can.
pub open spec fn destination_sendable(s: &Service, d: &Destination) -> bool {
    destination_refusal(s, d) is None && service_views_fit(service_nlas_spec(s))
}

/// The error for a message that is too long to be written.
pub open spec fn too_long() -> ErrorView {
    ErrorView::IPVS("Attribute too long"@)
}

/// The IPVS driver.
pub struct IPVSManager {
    family_id: u16,
    sequence: SequenceCounter,
}

impl IPVSManager {
    /// The identifier of the IPVS family.
    pub closed spec fn family(&self) -> u16 {
        self.family_id
    }

    /// The sequence number of the last request; 0 before the first.
    pub closed spec fn last_sequence(&self) -> u32 {
        self.sequence.last()
    }

    /// The sequence number after `last`.
    pub open spec fn following(last: u32) -> u32 {
        if last == u32::MAX {
            0
        } else {
            (last + 1) as u32
        }
    }

    /// Whether `r` is the request that follows on `before` with the given
    /// command and flags.
    pub open spec fn is_next(&self, before: &IPVSManager, r: &Request, cmd: IPVSCommand, flags: u16)
        -> bool {
        &&& self.family() == before.family()
        &&& self.last_sequence() == IPVSManager::following(before.last_sequence())
        &&& r.family_id == before.family()
        &&& r.sequence == self.last_sequence()
        &&& r.flags == flags
        &&& r.message.cmd == cmd
    }

    /// A driver for the family with the given identifier.
    pub fn new(family_id: u16) -> (m: Self)
        ensures
            m.family() == family_id,
            m.last_sequence() == 0,
    {
        IPVSManager { family_id, sequence: SequenceCounter::new() }
    }

    /// The identifier of the IPVS family.
    pub fn family_id(&self) -> (id: u16)
        ensures
            id == self.family(),
    {
        self.family_id
    }

    fn request(&mut self, message: IPVSMessage, flags: u16) -> (r: Request)
        ensures
            final(self).is_next(old(self), &r, message.cmd, flags),
            r.message == message,
    {
        Request { family_id: self.family_id, sequence: self.sequence.next_sequence(), flags, message }
    }

    fn checked(&mut self, message: IPVSMessage, flags: u16) -> (r: Result<Request, Error>)
        ensures
            message.fits() ==> r is Ok && r->Ok_0.message == message && final(self).is_next(
                old(self),
                &r->Ok_0,
                message.cmd,
                flags,
            ),
            !message.fits() ==> r is Err && r->Err_0@ == too_long() && *final(self) == *old(self),
    {
        if !message.check_fits() {
            return Err(Error::ipvs("Attribute too long"));
        }
        Ok(self.request(message, flags))
    }

    /// The request for the version of IPVS.
    pub fn version(&mut self) -> (r: Request)
        ensures
            final(self).is_next(old(self), &r, IPVSCommand::GetInfo, request_flags()),
            r.message.nlas@.len() == 0,
            r.message.fits(),
    {
        self.request(IPVSMessage::new(IPVSCommand::GetInfo), NLM_F_REQUEST)
    }

    /// The version that the answer to a request for the version carries, if
    /// it carries one.
    pub fn read_version(reply: &IPVSMessage) -> (v: Option<IPVSVersion>)
        ensures
            v == version_spec(reply@.nlas),
    {
        if reply.nlas.len() == 0 {
            return None;
        }
        assert(reply@.nlas.first() == reply.nlas@[0]@);
        match &reply.nlas[0] {
            IPVSNla::Info(infos) => {
                let mut i: usize = 0;
                assert(info_views(infos@).skip(0) =~= info_views(infos@));
                while i < infos.len()
                    invariant
                        i <= infos@.len(),
                        reply@.nlas.len() > 0,
                        reply@.nlas.first() == IPVSNlaView::Info(info_views(infos@)),
                        first_version(info_views(infos@)) == first_version(
                            info_views(infos@).skip(i as int),
                        ),
                    decreases infos@.len() - i,
                {
                    let ghost rest = info_views(infos@).skip(i as int);
                    assert(rest.first() == infos@[i as int]@);
                    assert(rest.drop_first() =~= info_views(infos@).skip(i + 1));
                    match &infos[i] {
                        InfoNla::Version(v) => {
                            return Some(IPVSVersion::from_number(*v));
                        },
                        _ => {},
                    }
                    i += 1;
                }
                assert(info_views(infos@).skip(i as int) =~= Seq::<InfoNlaView>::empty());
                None
            },
            _ => None,
        }
    }

    /// The service that an answer carries, if it carries one.
    pub fn read_service(reply: &IPVSMessage) -> (service: Option<Service>)
        ensures
            match service_in(reply@) {
                Some(v) => service is Some && service->Some_0@ == v,
                None => service is None,
            },
    {
        let ghost all = reply@.nlas;
        let mut i: usize = 0;
        assert(all.skip(0) =~= all);
        while i < reply.nlas.len()
            invariant
                i <= reply.nlas@.len(),
                all == reply@.nlas,
                first_service(all) == first_service(all.skip(i as int)),
            decreases reply.nlas@.len() - i,
        {
            let ghost rest = all.skip(i as int);
            assert(rest.first() == reply.nlas@[i as int]@);
            assert(rest.drop_first() =~= all.skip(i + 1));
            match &reply.nlas[i] {
                IPVSNla::Service(nlas) => {
                    return Some(Service::from_service_nlas(nlas));
                },
                _ => {},
            }
            i += 1;
        }
        assert(all.skip(i as int) =~= Seq::<IPVSNlaView>::empty());
        None
    }

    /// The services that the answers of a dump carry, in order.
    pub fn read_services(replies: &Vec<IPVSMessage>) -> (services: Vec<Service>)
        ensures
            views_of(services@) == services_in(replies@),
    {
        let mut services: Vec<Service> = Vec::new();
        let mut i: usize = 0;
        assert(replies@.take(0) =~= Seq::<IPVSMessage>::empty());
        assert(views_of(services@) =~= Seq::<ServiceView>::empty());
        while i < replies.len()
            invariant
                i <= replies@.len(),
                views_of(services@) == services_in(replies@.take(i as int)),
            decreases replies@.len() - i,
        {
            let ghost before = views_of(services@);
            proof {
                let upto = replies@.take(i + 1);
                assert(upto.drop_last() =~= replies@.take(i as int));
                assert(upto.last() == replies@[i as int]);
            }
            match IPVSManager::read_service(&replies[i]) {
                Some(service) => {
                    services.push(service);
                    assert(views_of(services@) =~= before.push(service@));
                },
                None => {},
            }
            i += 1;
        }
        assert(replies@.take(i as int) =~= replies@);
        services
    }

    /// The request that removes all services.
    pub fn flush(&mut self) -> (r: Request)
        ensures
            final(self).is_next(old(self), &r, IPVSCommand::Flush, request_flags()),
            r.message.nlas@.len() == 0,
            r.message.fits(),
    {
        self.request(IPVSMessage::new(IPVSCommand::Flush), NLM_F_REQUEST)
    }

    /// The request for all services: a dump, answered in several parts.
    pub fn get_services(&mut self) -> (r: Request)
        ensures
            final(self).is_next(old(self), &r, IPVSCommand::GetService, dump_flags()),
            r.message.nlas@.len() == 0,
            r.message.fits(),
    {
        self.request(IPVSMessage::new(IPVSCommand::GetService), NLM_F_REQUEST + NLM_F_DUMP)
    }

    /// What a request for a service comes to. A request is built exactly
    /// for a service that can be sent: it follows on the last request, has
    /// the command, and carries the attributes of the service as its one
    /// nested attribute. Any other service leaves the driver as it was and
    /// gives the reason of the refusal, or that the message is too long.
    pub open spec fn service_outcome(
        &self,
        before: &IPVSManager,
        service: &Service,
        cmd: IPVSCommand,
        r: Result<Request, Error>,
    ) -> bool {
        &&& r is Ok <==> service_sendable(service)
        &&& match r {
            Ok(request) => {
                &&& self.is_next(before, &request, cmd, request_flags())
                &&& request.message@.nlas == seq![IPVSNlaView::Service(service_nlas_spec(service))]
                &&& request.message.fits()
            },
            Err(e) => {
                &&& *self == *before
                &&& match service_refusal(service) {
                    Some(refusal) => e@ == refusal,
                    None => e@ == too_long(),
                }
            },
        }
    }

    /// What a request for a destination of a service comes to. A request is
    /// built exactly for a service and a destination that can be sent; it
    /// carries the attributes of the service and those of the destination.
    pub open spec fn destination_outcome(
        &self,
        before: &IPVSManager,
        service: &Service,
        destination: &Destination,
        cmd: IPVSCommand,
        r: Result<Request, Error>,
    ) -> bool {
        &&& r is Ok <==> destination_sendable(service, destination)
        &&& match r {
            Ok(request) => {
                &&& self.is_next(before, &request, cmd, request_flags())
                &&& request.message@.nlas == seq![
                    IPVSNlaView::Service(service_nlas_spec(service)),
                    IPVSNlaView::Dest(dest_nlas_spec(destination)),
                ]
                &&& request.message.fits()
            },
            Err(e) => {
                &&& *self == *before
                &&& match destination_refusal(service, destination) {
                    Some(refusal) => e@ == refusal,
                    None => e@ == too_long(),
                }
            },
        }
    }

    fn service_request(&mut self, cmd: IPVSCommand, service: &Service) -> (r: Result<
        Request,
        Error,
    >)
        ensures
            final(self).service_outcome(old(self), service, cmd, r),
    {
        if !service.address.is_ipv4() {
            return Err(Error::ipvs("Only IPv4 services are supported"));
        }
        if self::name_is_empty(service) {
            return Err(Error::ipvs("Scheduler name must not be empty"));
        }
        let service_nlas = service.to_service_nlas();
        proof {
            lemma_service_fits(service_nlas@);
        }
        let mut nlas: Vec<IPVSNla> = Vec::new();
        nlas.push(IPVSNla::Service(service_nlas));
        let message = IPVSMessage::with_nlas(cmd, nlas);
        assert(message@.nlas =~= seq![IPVSNlaView::Service(service_nlas_spec(service))]);
        assert(message.fits() <==> message.nlas@[0].value_fits());
        self.checked(message, NLM_F_REQUEST)
    }

    fn destination_request(
        &mut self,
        cmd: IPVSCommand,
        service: &Service,
        destination: &Destination,
    ) -> (r: Result<Request, Error>)
        ensures
            final(self).destination_outcome(old(self), service, destination, cmd, r),
    {
        if !service.address.is_ipv4() {
            return Err(Error::ipvs("Only IPv4 services are supported"));
        }
        if self::name_is_empty(service) {
            return Err(Error::ipvs("Scheduler name must not be empty"));
        }
        if !service.accepts(destination) {
            return Err(Error::ipvs("Destination address family does not match service"));
        }
        let service_nlas = service.to_service_nlas();
        let dest_nlas = destination.to_dest_nlas();
        proof {
            lemma_service_fits(service_nlas@);
            lemma_dest_fits(destination, dest_nlas@);
        }
        let mut nlas: Vec<IPVSNla> = Vec::new();
        nlas.push(IPVSNla::Service(service_nlas));
        nlas.push(IPVSNla::Dest(dest_nlas));
        let message = IPVSMessage::with_nlas(cmd, nlas);
        assert(message@.nlas =~= seq![
            IPVSNlaView::Service(service_nlas_spec(service)),
            IPVSNlaView::Dest(dest_nlas_spec(destination)),
        ]);
        assert(message.nlas@[1].value_fits());
        assert(message.fits() <==> message.nlas@[0].value_fits());
        self.checked(message, NLM_F_REQUEST)
    }

    /// The request that adds a service. A request is owed for every IPv4
    /// service whose scheduler has a name and whose attributes can be
    /// written; any other service is refused with the reason.
    pub fn add_service(&mut self, service: &Service) -> (r: Result<Request, Error>)
        ensures
            final(self).service_outcome(old(self), service, IPVSCommand::NewService, r),
    {
        self.service_request(IPVSCommand::NewService, service)
    }

    /// The request that changes a service.
    pub fn update_service(&mut self, service: &Service) -> (r: Result<Request, Error>)
        ensures
            final(self).service_outcome(old(self), service, IPVSCommand::SetService, r),
    {
        self.service_request(IPVSCommand::SetService, service)
    }

    /// The request that removes a service.
    pub fn delete_service(&mut self, service: &Service) -> (r: Result<Request, Error>)
        ensures
            final(self).service_outcome(old(self), service, IPVSCommand::DelService, r),
    {
        self.service_request(IPVSCommand::DelService, service)
    }

    /// The request for one service.
    pub fn get_service(&mut self, service: &Service) -> (r: Result<Request, Error>)
        ensures
            final(self).service_outcome(old(self), service, IPVSCommand::GetService, r),
    {
        self.service_request(IPVSCommand::GetService, service)
    }

    /// The request that adds a destination to a service. A request is owed
    /// for every service that can be sent and every destination whose
    /// address is of the family of the service.
    pub fn add_destination(&mut self, service: &Service, destination: &Destination) -> (r: Result<
        Request,
        Error,
    >)
        ensures
            final(self).destination_outcome(
                old(self),
                service,
                destination,
                IPVSCommand::NewDest,
                r,
            ),
    {
        self.destination_request(IPVSCommand::NewDest, service, destination)
    }

    /// The request that changes a destination of a service.
    pub fn update_destination(&mut self, service: &Service, destination: &Destination) -> (r:
        Result<Request, Error>)
        ensures
            final(self).destination_outcome(
                old(self),
                service,
                destination,
                IPVSCommand::SetDest,
                r,
            ),
    {
        self.destination_request(IPVSCommand::SetDest, service, destination)
    }

    /// The request that removes a destination from a service.
    pub fn delete_destination(&mut self, service: &Service, destination: &Destination) -> (r:
        Result<Request, Error>)
        ensures
            final(self).destination_outcome(
                old(self),
                service,
                destination,
                IPVSCommand::DelDest,
                r,
            ),
    {
        self.destination_request(IPVSCommand::DelDest, service, destination)
    }
}

/// Whether the scheduler of the service has no name.
fn name_is_empty(service: &Service) -> (r: bool)
    ensures
        r == (service.scheduler@.name().len() == 0),
{
    service.scheduler.to_string().as_str().is_empty()
}

/// Attributes of a service can be written as one nested attribute exactly
/// when their values can.
proof fn lemma_service_fits(nlas: Seq<ServiceNla>)
    ensures
        (service_fit(nlas) && attrs_len(service_attrs(ByteOrder::Big, nlas)) <= NLA_MAX_VALUE_LEN)
            <==> service_views_fit(service_views(nlas)),
{
    let v = service_views(nlas);
    assert(service_attrs(ByteOrder::Big, nlas) =~= Seq::new(
        v.len(),
        |i: int| v[i].attr(ByteOrder::Big),
    ));
    if service_fit(nlas) {
        assert forall|i: int| 0 <= i < v.len() implies (#[trigger] v[i]).value(
            ByteOrder::Big,
        ).len() <= NLA_MAX_VALUE_LEN by {
            assert(nlas[i].value_fits());
        }
    }
    if service_views_fit(v) {
        assert forall|i: int| 0 <= i < nlas.len() implies (#[trigger] nlas[i]).value_fits() by {
            assert(v[i] == nlas[i]@);
        }
    }
}

/// Attributes that take at most `bound` bytes each take at most `bound`
/// bytes for each of them together.
proof fn lemma_attrs_len_bound(attrs: Seq<Attr>, bound: nat)
    requires
        forall|i: int| 0 <= i < attrs.len() ==> attr_len(#[trigger] attrs[i]) <= bound,
    ensures
        attrs_len(attrs) <= bound * attrs.len(),
    decreases attrs.len(),
{
    if attrs.len() > 0 {
        let rest = attrs.drop_first();
        assert forall|i: int| 0 <= i < rest.len() implies attr_len(#[trigger] rest[i]) <= bound by {
            assert(rest[i] == attrs[i + 1]);
        }
        lemma_attrs_len_bound(rest, bound);
        assert(attr_len(attrs[0]) <= bound);
        assert(bound * attrs.len() == bound * rest.len() + bound) by (nonlinear_arith)
            requires
                attrs.len() == rest.len() + 1,
        ;
    }
}

/// The six attributes of a destination can always be written.
proof fn lemma_dest_fits(d: &Destination, nlas: Seq<DestNla>)
    requires
        dest_views(nlas) == dest_nlas_spec(d),
    ensures
        dest_fit(nlas),
        attrs_len(dest_attrs(ByteOrder::Big, nlas)) <= NLA_MAX_VALUE_LEN,
{
    let v = dest_nlas_spec(d);
    assert(dest_views(nlas).len() == nlas.len());
    assert(v.len() == 6);
    crate::ipvs::wire::lemma_integer_roundtrip(ByteOrder::Big, 0, 0, 0);
    assert forall|i: int| 0 <= i < nlas.len() implies (#[trigger] nlas[i]).value_fits() && attr_len(
        nlas[i]@.attr(ByteOrder::Big),
    ) <= 8 by {
        assert(nlas[i]@ == dest_views(nlas)[i]);
        assert(nlas[i]@ == v[i]);
    }
    let attrs = dest_attrs(ByteOrder::Big, nlas);
    assert forall|i: int| 0 <= i < attrs.len() implies attr_len(#[trigger] attrs[i]) <= 8 by {
        assert(attrs[i] == nlas[i]@.attr(ByteOrder::Big));
    }
    lemma_attrs_len_bound(attrs, 8);
}

} // verus!

verus! {

/// What is asked for comes back: an answer that carries the attributes of a
/// plain service, written in either byte order, is read as that service,
/// whenever the name of its scheduler can be written and read back.
pub proof fn lemma_service_answer_roundtrip(
    order: ByteOrder,
    s: &Service,
    top: IPVSNla,
    code: u8,
)
    requires
        top matches IPVSNla::Service(nlas) && service_views(nlas@) == service_nlas_spec(s),
        top.value_fits(),
        plain_service(s@),
        name_roundtrips(s.scheduler@.name()),
        command_of(code) is Some,
        code != 1,
    ensures
        parse_message_spec(order, attrs_bytes(order, seq![top.attr(order)]), code) matches Ok(m)
            && service_in(m) == Some(s@),
{
    let nlas = top->Service_0@;
    let a = top.attr(order);
    let payload = attrs_bytes(order, seq![a]);
    lemma_value_len_any_order(&top, order);
    lemma_attrs_len(ByteOrder::Big, service_attrs(ByteOrder::Big, nlas));
    assert(a.fits());
    assert(seq![a].first() == a);
    assert(seq![a].drop_first() =~= Seq::<Attr>::empty());
    assert(attrs_bytes(order, Seq::<Attr>::empty()) =~= Seq::<u8>::empty());
    assert(payload == attr_bytes(order, a) + Seq::<u8>::empty());
    lemma_first_attr(order, a, Seq::<u8>::empty());
    lemma_attr_len(order, a);
    lemma_service_nlas_roundtrip(order, s, nlas);
    lemma_service_of_own_nlas(s);
    let views = service_nlas_spec(s);
    let convert = |x: Attr| IPVSNlaView::of_attr(order, x);
    assert(convert(a) == Ok::<IPVSNlaView, DecodeError>(IPVSNlaView::Service(views)));
    assert(payload.len() > 0);
    assert(first_attr(order, payload) == Ok::<(Attr, nat), DecodeError>((a, attr_len(a))));
    let rest = payload.skip(attr_len(a) as int);
    assert(rest =~= Seq::<u8>::empty());
    assert(parse_typed(order, rest, convert) == Ok::<Seq<IPVSNlaView>, DecodeError>(
        Seq::<IPVSNlaView>::empty(),
    ));
    let read = seq![IPVSNlaView::Service(views)] + Seq::<IPVSNlaView>::empty();
    assert(parse_typed(order, payload, convert) == Ok::<Seq<IPVSNlaView>, DecodeError>(read));
    assert(read =~= seq![IPVSNlaView::Service(views)]);
    assert(read.first() == IPVSNlaView::Service(views));
}

} // verus!

verus! {

/// Text in UTF-8 takes at most four bytes for each character.
pub proof fn lemma_utf8_len(chars: Seq<char>)
    ensures
        vstd::utf8::encode_utf8(chars).len() <= 4 * chars.len(),
    decreases chars.len(),
{
    if chars.len() > 0 {
        lemma_utf8_len(chars.drop_first());
        assert(vstd::utf8::encode_scalar(chars[0] as u32).len() <= 4);
    }
}

/// The scheduling algorithms that have a name of their own have a name of
/// two or three characters.
pub proof fn lemma_named_schedulers(v: SchedulerView)
    requires
        !(v is Other),
    ensures
        2 <= v.name().len() <= 3,
{
    reveal_strlit("rr");
    reveal_strlit("wrr");
    reveal_strlit("lc");
    reveal_strlit("wlc");
    reveal_strlit("sh");
    reveal_strlit("mh");
}

/// The attributes of a service whose scheduler has a name of at most 255
/// characters can be written.
pub proof fn lemma_short_names_fit(s: &Service)
    requires
        s.scheduler@.name().len() <= 255,
    ensures
        service_views_fit(service_nlas_spec(s)),
{
    let v = service_nlas_spec(s);
    let family = ServiceNlaView::AddressFamily(crate::ipvs::messages::AF_INET);
    let protocol = ServiceNlaView::Protocol(s.protocol.number_spec());
    let address = ServiceNlaView::Address(crate::ipvs::messages::address_number(s.address));
    let port = ServiceNlaView::Port(s.port);
    let mark = ServiceNlaView::FirewallMark(s.fwmark);
    let scheduler = ServiceNlaView::Scheduler(s.scheduler@.name());
    let flags = ServiceNlaView::Flags(s.flags.0, s.flags.0);
    let timeout = ServiceNlaView::Timeout(s.timeout);
    if s.fwmark == 0 && s.timeout > 0 {
        assert(v =~= seq![family, protocol, address, port, scheduler, flags, timeout]);
    } else if s.fwmark == 0 {
        assert(v =~= seq![family, protocol, address, port, scheduler, flags]);
    } else if s.timeout > 0 {
        assert(v =~= seq![family, protocol, mark, scheduler, flags, timeout]);
    } else {
        assert(v =~= seq![family, protocol, mark, scheduler, flags]);
    }
    lemma_utf8_len(s.scheduler@.name());
    crate::ipvs::wire::lemma_integer_roundtrip(ByteOrder::Big, 0, 0, 0);
    let attrs = Seq::new(v.len(), |i: int| v[i].attr(ByteOrder::Big));
    assert forall|i: int| 0 <= i < v.len() implies (#[trigger] v[i]).value(ByteOrder::Big).len()
        <= 1021 by {}
    assert forall|i: int| 0 <= i < attrs.len() implies attr_len(#[trigger] attrs[i]) <= 1028 by {
        assert(attrs[i] == v[i].attr(ByteOrder::Big));
        assert(v[i].value(ByteOrder::Big).len() <= 1021);
    }
    lemma_attrs_len_bound(attrs, 1028);
    assert(1028 * attrs.len() <= 1028 * 7) by (nonlinear_arith)
        requires
            attrs.len() <= 7,
    ;
}

/// A request is owed for every IPv4 service whose scheduler has a name of
/// one to 255 characters, and so for every IPv4 service with one of the
/// scheduling algorithms that have a name of their own.
pub proof fn lemma_sendable(s: &Service)
    requires
        s.address is V4,
        1 <= s.scheduler@.name().len() <= 255 || !(s.scheduler@ is Other),
    ensures
        service_sendable(s),
        forall|d: &Destination| d.address is V4 ==> #[trigger] destination_sendable(s, d),
{
    if !(s.scheduler@ is Other) {
        lemma_named_schedulers(s.scheduler@);
    }
    lemma_short_names_fit(s);
}

/// A dump gives back what it carries: where every answer carries a service,
/// the services that are read from the answers are those services, each
/// once and in the order of the answers.
pub proof fn lemma_dump_returns_services(replies: Seq<IPVSMessage>, services: Seq<ServiceView>)
    requires
        replies.len() == services.len(),
        forall|i: int|
            0 <= i < replies.len() ==> service_in((#[trigger] replies[i])@) == Some(services[i]),
    ensures
        services_in(replies) == services,
    decreases replies.len(),
{
    if replies.len() == 0 {
        assert(services =~= Seq::<ServiceView>::empty());
    } else {
        let earlier = replies.drop_last();
        assert forall|i: int| 0 <= i < earlier.len() implies service_in((#[trigger] earlier[i])@)
            == Some(services.drop_last()[i]) by {
            assert(earlier[i] == replies[i]);
        }
        lemma_dump_returns_services(earlier, services.drop_last());
        assert(service_in(replies.last()@) == Some(services.last()));
        assert(services.drop_last().push(services.last()) =~= services);
    }
}

} // verus!
