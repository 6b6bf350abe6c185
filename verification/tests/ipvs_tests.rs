use seesaw::error::Error;
use seesaw::ffi::{CDestination, CVersion, IpvsError};
use seesaw::ipvs::attr::DecodeError;
use seesaw::ipvs::commands::{
    IPVSAttr, IPVSCommand, IPVSDestAttr, IPVSInfoAttr, IPVSServiceAttr, IPVSStatsAttr,
};
use seesaw::ipvs::manager::IPVSManager;
use seesaw::ipvs::messages::{IPVSMessage, IPVSNla};
use seesaw::ipvs::netlink::{collect_dump, interpret_reply, ReplyFrame, SequenceCounter};
use seesaw::ipvs::nla::{
    emit_dest_nlas, emit_service_nlas, parse_dest_nlas, parse_info_nlas, parse_service_nlas,
    DestNla, InfoNla, ServiceNla,
};
use seesaw::ipvs::types::{
    Destination, DestinationFlags, DestinationStats, IPVSVersion, Protocol, Scheduler, Service,
    ServiceFlags, ServiceStats,
};
use seesaw::ipvs::wire::ByteOrder;
use seesaw::net::IpAddr;

fn service() -> Service {
    Service {
        address: IpAddr::V4([10, 0, 0, 1]),
        protocol: Protocol::TCP,
        port: 80,
        fwmark: 0,
        scheduler: Scheduler::RoundRobin,
        flags: ServiceFlags(0),
        timeout: 0,
        persistence_engine: None,
        statistics: ServiceStats::default(),
    }
}

fn destination() -> Destination {
    Destination {
        address: IpAddr::V4([192, 168, 1, 10]),
        port: 8080,
        weight: 100,
        flags: DestinationFlags::Route,
        lower_threshold: 0,
        upper_threshold: 0,
        statistics: DestinationStats::default(),
    }
}

#[test]
fn test_placeholder() {
    assert_eq!(2 + 2, 4);
}

#[test]
fn test_command_and_attribute_numbers() {
    assert_eq!(u8::from(IPVSCommand::GetInfo), 1);
    assert_eq!(IPVSCommand::NewService.code(), 2);
    assert_eq!(IPVSCommand::SetService.code(), 3);
    assert_eq!(IPVSCommand::DelService.code(), 4);
    assert_eq!(IPVSCommand::GetService.code(), 5);
    assert_eq!(IPVSCommand::NewDest.code(), 6);
    assert_eq!(IPVSCommand::SetDest.code(), 7);
    assert_eq!(IPVSCommand::DelDest.code(), 8);
    assert_eq!(IPVSCommand::GetDest.code(), 9);
    assert_eq!(IPVSCommand::Flush.code(), 10);
    assert_eq!(IPVSCommand::GetConfig.code(), 17);
    assert_eq!(IPVSAttr::Service.code(), 1);
    assert_eq!(IPVSAttr::Dest.code(), 2);
    assert_eq!(IPVSServiceAttr::Scheduler.code(), 6);
    assert_eq!(IPVSServiceAttr::AddressV6.code(), 12);
    assert_eq!(IPVSDestAttr::ForwardingMethod.code(), 3);
    assert_eq!(IPVSDestAttr::AddressV6.code(), 11);
    assert_eq!(IPVSStatsAttr::BPSOut.code(), 10);
    assert_eq!(IPVSInfoAttr::ConnTableSize.code(), 2);
}

#[test]
fn test_types_as_text() {
    assert_eq!(IPVSVersion { major: 1, minor: 2, patch: 1 }.to_string(), "1.2.1");
    assert_eq!(IPVSVersion::from_number(0x010201), IPVSVersion { major: 1, minor: 2, patch: 1 });
    assert_eq!(Protocol::TCP.to_string(), "TCP");
    assert_eq!(Protocol::Other(47).to_string(), "IP(47)");
    assert_eq!(Protocol::SCTP.number(), 132);
    assert_eq!(Protocol::from_number(17), Protocol::UDP);
    assert_eq!(Protocol::from_number(47), Protocol::Other(47));
    assert_eq!(Scheduler::WeightedLeastConnection.to_string(), "wlc");
    assert_eq!(Scheduler::Other("ovf".to_string()).to_string(), "ovf");
    assert_eq!(Scheduler::from_name("mh"), Scheduler::MaglevHashing);
    assert_eq!(Scheduler::from_name("ovf"), Scheduler::Other("ovf".to_string()));
    assert_eq!(service().to_string(), "TCP 10.0.0.1:80 (rr)");
    let mut marked = service();
    marked.fwmark = 7;
    marked.scheduler = Scheduler::SourceHashing;
    assert_eq!(marked.to_string(), "FWM 7 (sh)");
    assert_eq!(destination().to_string(), "192.168.1.10:8080");
    assert!(service().accepts(&destination()));
    let mut v6 = destination();
    v6.address = IpAddr::V6([0u8; 16]);
    assert!(!service().accepts(&v6));
    assert_eq!(ServiceFlags::PERSISTENT, 1);
    assert_eq!(ServiceFlags::SCHED_SH_PORT, 0x10);
    assert_eq!(DestinationFlags::Tunnel.code(), 2);
    assert_eq!(DestinationFlags::from_code(9), DestinationFlags::Route);
}

#[test]
fn test_service_nlas() {
    let nlas = service().to_service_nlas();
    assert_eq!(
        nlas,
        vec![
            ServiceNla::AddressFamily(2),
            ServiceNla::Protocol(6),
            ServiceNla::Address(0x0a000001),
            ServiceNla::Port(80),
            ServiceNla::Scheduler("rr".to_string()),
            ServiceNla::Flags(0, 0),
        ]
    );
    let mut marked = service();
    marked.fwmark = 9;
    marked.timeout = 300;
    marked.flags = ServiceFlags(ServiceFlags::PERSISTENT);
    marked.protocol = Protocol::UDP;
    assert_eq!(
        marked.to_service_nlas(),
        vec![
            ServiceNla::AddressFamily(2),
            ServiceNla::Protocol(17),
            ServiceNla::FirewallMark(9),
            ServiceNla::Scheduler("rr".to_string()),
            ServiceNla::Flags(1, 1),
            ServiceNla::Timeout(300),
        ]
    );
    assert_eq!(
        destination().to_dest_nlas(),
        vec![
            DestNla::Address(0xc0a8010a),
            DestNla::Port(8080),
            DestNla::Weight(100),
            DestNla::ForwardingMethod(3),
            DestNla::UpperThreshold(0),
            DestNla::LowerThreshold(0),
        ]
    );
}

#[test]
fn test_service_bytes_little_endian() {
    let mut buffer = Vec::new();
    emit_service_nlas(&service().to_service_nlas(), ByteOrder::Little, &mut buffer);
    let expected: Vec<u8> = vec![
        6, 0, 1, 0, 2, 0, 0, 0, //
        6, 0, 2, 0, 6, 0, 0, 0, //
        8, 0, 3, 0, 10, 0, 0, 1, //
        6, 0, 4, 0, 0, 80, 0, 0, //
        7, 0, 6, 0, b'r', b'r', 0, 0, //
        12, 0, 7, 0, 0, 0, 0, 0, 0, 0, 0, 0,
    ];
    assert_eq!(buffer, expected);
}

#[test]
fn test_service_bytes_big_endian() {
    let mut buffer = vec![0xee];
    emit_service_nlas(
        &vec![ServiceNla::Protocol(6), ServiceNla::Port(80), ServiceNla::Timeout(0x01020304)],
        ByteOrder::Big,
        &mut buffer,
    );
    assert_eq!(
        buffer,
        vec![0xee, 0, 6, 0, 2, 0, 6, 0, 0, 0, 6, 0, 4, 0, 80, 0, 0, 0, 8, 0, 8, 1, 2, 3, 4]
    );
}

#[test]
fn test_nla_roundtrip_both_orders() {
    for order in [ByteOrder::Little, ByteOrder::Big] {
        let mut all = service();
        all.timeout = 99;
        all.scheduler = Scheduler::Other("maglev-x".to_string());
        all.flags = ServiceFlags(0x13);
        let nlas = all.to_service_nlas();
        let mut buffer = Vec::new();
        emit_service_nlas(&nlas, order, &mut buffer);
        assert_eq!(buffer.len() % 4, 0);
        assert_eq!(parse_service_nlas(order, &buffer), Ok(nlas));

        let mut extra = vec![
            ServiceNla::FirewallMark(0xdeadbeef),
            ServiceNla::Netmask(0xffffff00),
            ServiceNla::Other(11, b"sip\0".to_vec()),
            ServiceNla::Scheduler(String::new()),
        ];
        let mut buffer = Vec::new();
        emit_service_nlas(&extra, order, &mut buffer);
        assert_eq!(parse_service_nlas(order, &buffer).as_ref(), Ok(&extra));
        extra.clear();

        let dests = vec![
            DestNla::Address(0xc0a8010a),
            DestNla::Port(8080),
            DestNla::Weight(-1),
            DestNla::Weight(i32::MIN),
            DestNla::ForwardingMethod(3),
            DestNla::UpperThreshold(10),
            DestNla::LowerThreshold(5),
            DestNla::Other(10, vec![1, 2, 3, 4, 5]),
        ];
        let mut buffer = Vec::new();
        emit_dest_nlas(&dests, order, &mut buffer);
        assert_eq!(parse_dest_nlas(order, &buffer), Ok(dests));
    }
}

#[test]
fn test_nla_lengths_and_kinds() {
    let s = ServiceNla::Scheduler("wlc".to_string());
    assert_eq!(s.value_len(), 4);
    assert_eq!(s.kind(), 6);
    assert_eq!(s.buffer_len(), 8);
    assert_eq!(ServiceNla::Flags(1, 2).value_len(), 8);
    assert_eq!(ServiceNla::Other(40, vec![1, 2, 3]).buffer_len(), 8);
    assert_eq!(DestNla::Weight(3).kind(), 4);
    assert_eq!(DestNla::Port(3).buffer_len(), 8);
    assert_eq!(InfoNla::Version(1).kind(), 1);
    assert_eq!(InfoNla::ConnTableSize(1).value_len(), 4);
    let nested = IPVSNla::Service(service().to_service_nlas());
    assert_eq!(nested.kind(), 1);
    assert_eq!(nested.value_len(), 52);
    assert_eq!(nested.buffer_len(), 56);
    assert_eq!(IPVSNla::Dest(vec![]).kind(), 2);
    assert_eq!(IPVSNla::Info(vec![]).kind(), 0);
    assert_eq!(IPVSNla::Other(77, vec![]).kind(), 77);
    assert!(nested.check_fits());
    assert!(!IPVSNla::Other(1, vec![0u8; 65532]).check_fits());
    assert!(!ServiceNla::Scheduler("x".repeat(65531)).check_fits());
    assert!(ServiceNla::Scheduler("x".repeat(65530)).check_fits());
}

#[test]
fn test_nla_parse_errors() {
    let le = ByteOrder::Little;
    assert_eq!(parse_service_nlas(le, &[1, 2, 3]), Err(DecodeError::TruncatedAttribute));
    assert_eq!(parse_service_nlas(le, &[3, 0, 1, 0]), Err(DecodeError::InvalidAttributeLength));
    assert_eq!(parse_service_nlas(le, &[9, 0, 1, 0, 0, 0, 0, 0]), Err(DecodeError::InvalidAttributeLength));
    assert_eq!(parse_service_nlas(le, &[5, 0, 1, 0, 2, 0, 0, 0]), Err(DecodeError::InvalidAddressFamily));
    assert_eq!(parse_service_nlas(le, &[4, 0, 2, 0]), Err(DecodeError::InvalidProtocol));
    assert_eq!(parse_service_nlas(le, &[6, 0, 3, 0, 1, 2, 0, 0]), Err(DecodeError::InvalidAddress));
    assert_eq!(parse_service_nlas(le, &[8, 0, 4, 0, 1, 2, 3, 4]), Err(DecodeError::InvalidPort));
    assert_eq!(
        parse_service_nlas(le, &[6, 0, 6, 0, 0xff, 0xfe, 0, 0]),
        Err(DecodeError::InvalidSchedulerName)
    );
    assert_eq!(parse_service_nlas(le, &[6, 0, 8, 0, 1, 2, 0, 0]), Err(DecodeError::InvalidNumber));
    assert_eq!(parse_info_nlas(le, &[6, 0, 1, 0, 1, 2, 0, 0]), Err(DecodeError::InvalidVersion));
    assert_eq!(parse_info_nlas(le, &[5, 0, 2, 0, 1, 0, 0, 0]), Err(DecodeError::InvalidConnTableSize));
    assert_eq!(parse_dest_nlas(le, &[6, 0, 5, 0, 1, 2, 0, 0]), Err(DecodeError::InvalidNumber));
    assert_eq!(parse_service_nlas(le, &[]), Ok(vec![]));
    assert_eq!(DecodeError::UnknownCommand.message(), "Unknown IPVS command");
    assert_eq!(DecodeError::InvalidVersion.message(), "Invalid version");
}

#[test]
fn test_parse_reads_flags_and_names() {
    let le = ByteOrder::Little;
    assert_eq!(
        parse_service_nlas(le, &[7, 0, 6, 0x80, b'w', b'r', b'r', 0]),
        Ok(vec![ServiceNla::Scheduler("wrr".to_string())])
    );
    assert_eq!(
        parse_service_nlas(le, &[10, 0, 6, 0, b's', b'h', 0, 0, 0, 0, 0, 0, 6, 0, 4, 0, 1, 187]),
        Ok(vec![ServiceNla::Scheduler("sh".to_string()), ServiceNla::Port(443)])
    );
}

#[test]
fn test_message_emit_and_parse() {
    let message = IPVSMessage::new(IPVSCommand::Flush);
    assert!(message.nlas.is_empty());
    assert_eq!(message.command(), 10);
    assert_eq!(message.version(), 1);
    assert_eq!(IPVSMessage::family_name(), "IPVS");
    assert_eq!(message.buffer_len(), 0);

    let message = IPVSMessage::with_nlas(
        IPVSCommand::NewDest,
        vec![
            IPVSNla::Service(service().to_service_nlas()),
            IPVSNla::Dest(destination().to_dest_nlas()),
        ],
    );
    assert!(message.check_fits());
    assert_eq!(message.buffer_len(), 56 + 4 + 48);
    let mut buffer = Vec::new();
    message.emit(ByteOrder::Little, &mut buffer);
    assert_eq!(buffer.len(), 108);
    assert_eq!(&buffer[..4], &[56, 0, 1, 0]);
    assert_eq!(&buffer[56..60], &[52, 0, 2, 0]);
    assert_eq!(&buffer[60..68], &[8, 0, 1, 0, 192, 168, 1, 10]);
    assert_eq!(parse_service_nlas(ByteOrder::Little, &buffer[4..56]), Ok(service().to_service_nlas()));
    assert_eq!(parse_dest_nlas(ByteOrder::Little, &buffer[60..]), Ok(destination().to_dest_nlas()));

    let info = [8u8, 0, 1, 0, 1, 2, 1, 0, 8, 0, 2, 0, 0, 16, 0, 0];
    let reply = IPVSMessage::parse_with_param(ByteOrder::Little, &info, 1).unwrap();
    assert_eq!(reply.cmd, IPVSCommand::GetInfo);
    assert_eq!(
        reply.nlas,
        vec![IPVSNla::Info(vec![InfoNla::Version(0x010201), InfoNla::ConnTableSize(4096)])]
    );
    assert_eq!(IPVSManager::read_version(&reply), Some(IPVSVersion { major: 1, minor: 2, patch: 1 }));
    assert_eq!(IPVSManager::read_version(&IPVSMessage::new(IPVSCommand::GetInfo)), None);
    assert_eq!(
        IPVSMessage::parse_with_param(ByteOrder::Little, &info, 5),
        Err(DecodeError::InvalidAttributeLength)
    );
    assert_eq!(
        IPVSMessage::parse_with_param(ByteOrder::Little, &buffer, 5),
        Ok(IPVSMessage::with_nlas(IPVSCommand::GetService, message.nlas.clone()))
    );
    assert_eq!(
        IPVSMessage::parse_with_param(ByteOrder::Little, &[5, 0, 9, 0, 7, 0, 0, 0], 2),
        Ok(IPVSMessage::with_nlas(IPVSCommand::NewService, vec![IPVSNla::Other(9, vec![7])]))
    );
    assert_eq!(
        IPVSMessage::parse_with_param(ByteOrder::Little, &[6, 0, 1, 0, 9, 9, 0, 0], 2),
        Err(DecodeError::TruncatedAttribute)
    );
    assert_eq!(
        IPVSMessage::parse_with_param(ByteOrder::Little, &[], 1),
        Ok(IPVSMessage::new(IPVSCommand::GetInfo))
    );
    assert_eq!(
        IPVSMessage::parse_with_param(ByteOrder::Little, &info, 6),
        Err(DecodeError::UnknownCommand)
    );
    assert_eq!(
        IPVSMessage::parse_with_param(ByteOrder::Little, &info[..15], 1),
        Err(DecodeError::InvalidAttributeLength)
    );
}

#[test]
fn test_native_order_is_one_of_two() {
    let order = ByteOrder::native();
    assert_eq!(order == ByteOrder::Little, 0x0102u16.to_ne_bytes() == [2, 1]);
    assert_eq!(order == ByteOrder::Big, 0x0102u16.to_ne_bytes() == [1, 2]);
    assert_eq!(order, ByteOrder::from_probe(u16::from_ne_bytes([1, 0])));
    assert_eq!(ByteOrder::from_probe(1), ByteOrder::Little);
    assert_eq!(ByteOrder::from_probe(256), ByteOrder::Big);
}

#[test]
fn test_service_lifecycle() {
    let mut manager = IPVSManager::new(27);
    assert_eq!(manager.family_id(), 27);
    let flush = manager.flush();
    assert_eq!(flush.sequence, 1);
    assert_eq!(flush.flags, 1);
    assert_eq!(flush.family_id, 27);
    assert_eq!(flush.message, IPVSMessage::new(IPVSCommand::Flush));

    let add = manager.add_service(&service()).unwrap();
    assert_eq!(add.sequence, 2);
    assert_eq!(add.message.cmd, IPVSCommand::NewService);
    assert_eq!(add.message.nlas, vec![IPVSNla::Service(service().to_service_nlas())]);

    let add_dest = manager.add_destination(&service(), &destination()).unwrap();
    assert_eq!(add_dest.sequence, 3);
    assert_eq!(add_dest.message.cmd, IPVSCommand::NewDest);
    assert_eq!(
        add_dest.message.nlas,
        vec![
            IPVSNla::Service(service().to_service_nlas()),
            IPVSNla::Dest(destination().to_dest_nlas()),
        ]
    );
    assert_eq!(manager.update_destination(&service(), &destination()).unwrap().message.cmd, IPVSCommand::SetDest);
    assert_eq!(manager.delete_destination(&service(), &destination()).unwrap().message.cmd, IPVSCommand::DelDest);
    assert_eq!(manager.update_service(&service()).unwrap().message.cmd, IPVSCommand::SetService);
    assert_eq!(manager.get_service(&service()).unwrap().message.cmd, IPVSCommand::GetService);
    let delete = manager.delete_service(&service()).unwrap();
    assert_eq!(delete.message.cmd, IPVSCommand::DelService);
    assert_eq!(delete.sequence, 8);
    let dump = manager.get_services();
    assert_eq!(dump.flags, 0x301);
    assert_eq!(dump.message.cmd, IPVSCommand::GetService);
    assert_eq!(manager.version().message.cmd, IPVSCommand::GetInfo);
}

#[test]
fn test_requests_refused() {
    let mut manager = IPVSManager::new(27);
    let mut six = service();
    six.address = IpAddr::V6([0u8; 16]);
    assert_eq!(
        manager.add_service(&six).err(),
        Some(Error::IPVS("Only IPv4 services are supported".to_string()))
    );
    assert_eq!(
        manager.add_destination(&six, &destination()).err(),
        Some(Error::IPVS("Only IPv4 services are supported".to_string()))
    );
    let mut nameless = service();
    nameless.scheduler = Scheduler::Other(String::new());
    assert_eq!(
        manager.add_service(&nameless).err(),
        Some(Error::IPVS("Scheduler name must not be empty".to_string()))
    );
    let mut v6 = destination();
    v6.address = IpAddr::V6([0u8; 16]);
    assert_eq!(
        manager.add_destination(&service(), &v6).err(),
        Some(Error::IPVS("Destination address family does not match service".to_string()))
    );
    let mut long = service();
    long.scheduler = Scheduler::Other("s".repeat(70000));
    assert_eq!(
        manager.update_service(&long).err(),
        Some(Error::IPVS("Attribute too long".to_string()))
    );
    assert_eq!(manager.flush().sequence, 1);
}

#[test]
fn test_firewall_mark_service() {
    let mut marked = service();
    marked.fwmark = 100;
    let mut manager = IPVSManager::new(3);
    let request = manager.add_service(&marked).unwrap();
    match &request.message.nlas[0] {
        IPVSNla::Service(nlas) => {
            assert!(nlas.contains(&ServiceNla::FirewallMark(100)));
            assert!(!nlas.iter().any(|n| matches!(n, ServiceNla::Address(_) | ServiceNla::Port(_))));
        }
        _ => panic!("a service"),
    }
}

#[test]
fn test_sequence_wraps() {
    let mut counter = SequenceCounter::new();
    assert_eq!(counter.next_sequence(), 1);
    assert_eq!(counter.next_sequence(), 2);
}

#[test]
fn test_replies() {
    let message = IPVSMessage::new(IPVSCommand::GetInfo);
    assert_eq!(interpret_reply(ReplyFrame::Message(message.clone())), Ok(Some(message.clone())));
    assert_eq!(interpret_reply(ReplyFrame::Error(0)), Ok(None));
    assert_eq!(
        interpret_reply(ReplyFrame::Error(-17)),
        Err(Error::IPVS("IPVS command failed: error code -17".to_string()))
    );
    assert_eq!(
        interpret_reply(ReplyFrame::Done),
        Err(Error::Netlink("Unexpected netlink response type".to_string()))
    );
    assert_eq!(
        interpret_reply(ReplyFrame::Unexpected),
        Err(Error::Netlink("Unexpected netlink response type".to_string()))
    );

    let a = IPVSMessage::new(IPVSCommand::GetService);
    let b = IPVSMessage::with_nlas(IPVSCommand::GetService, vec![IPVSNla::Other(9, vec![1])]);
    assert_eq!(
        collect_dump(vec![
            ReplyFrame::Message(a.clone()),
            ReplyFrame::Message(b.clone()),
            ReplyFrame::Done,
            ReplyFrame::Message(a.clone()),
        ]),
        Ok(vec![a.clone(), b.clone()])
    );
    assert_eq!(collect_dump(vec![ReplyFrame::Done]), Ok(vec![]));
    assert_eq!(
        collect_dump(vec![ReplyFrame::Message(a.clone()), ReplyFrame::Error(-2)]),
        Err(Error::IPVS("IPVS command failed: error code -2".to_string()))
    );
    assert_eq!(
        collect_dump(vec![ReplyFrame::Message(a.clone())]),
        Err(Error::Netlink("Multi-part netlink response ended before DONE".to_string()))
    );
    assert_eq!(
        collect_dump(vec![ReplyFrame::Error(0)]),
        Err(Error::Netlink("Unexpected netlink response type".to_string()))
    );
}

#[test]
fn test_errors_as_text() {
    assert_eq!(Error::netlink("down").to_string(), "Netlink error: down");
    assert_eq!(Error::ipvs("no").to_string(), "IPVS error: no");
    assert_eq!(Error::vrrp("bad").to_string(), "VRRP error: bad");
    assert_eq!(Error::healthcheck("h").to_string(), "Healthcheck error: h");
    assert_eq!(Error::config("c").to_string(), "Configuration error: c");
    assert_eq!(Error::other("o").to_string(), "Unknown error: o");
    assert_eq!(Error::Io("gone".to_string()).to_string(), "IO error: gone");
    assert_eq!(Error::Serialization("eof".to_string()).to_string(), "Serialization error: eof");
    assert_eq!(IpvsError::Unknown.code(), -99);
    assert_eq!(IpvsError::NetlinkError.code(), -4);
    assert_eq!(IpvsError::error_string(-2), "Invalid UTF-8");
    assert_eq!(IpvsError::error_string(5), "Unknown error");
    assert_eq!(IpvsError::error_string(0), "Success");
}

#[test]
fn test_c_destination() {
    let c = CDestination {
        address: u32::from_ne_bytes([192, 168, 1, 10]),
        port: u16::from_ne_bytes([0x1f, 0x90]),
        weight: 100,
        fwd_method: 3,
        lower_threshold: 1,
        upper_threshold: 2,
    };
    let d = c.to_destination(ByteOrder::native());
    assert_eq!(d.address, IpAddr::V4([192, 168, 1, 10]));
    assert_eq!(d.port, 8080);
    assert_eq!(d.weight, 100);
    assert_eq!(d.flags, DestinationFlags::Route);
    assert_eq!(d.lower_threshold, 1);
    assert_eq!(d.upper_threshold, 2);
    let v = CVersion::from(IPVSVersion { major: 1, minor: 2, patch: 3 });
    assert_eq!((v.major, v.minor, v.patch), (1, 2, 3));
}

#[test]
fn test_ipvs_manager_creation() {
    let manager = IPVSManager::new(0x1c);
    assert_eq!(manager.family_id(), 0x1c);
}

#[test]
fn test_ipvs_version() {
    let mut manager = IPVSManager::new(0x1c);
    let request = manager.version();
    assert_eq!(request.message.command(), 1);
    let mut payload = Vec::new();
    IPVSMessage::with_nlas(
        IPVSCommand::GetInfo,
        vec![IPVSNla::Other(2, vec![0, 16, 0, 0]), IPVSNla::Other(1, vec![1, 2, 1, 0])],
    )
    .emit(ByteOrder::Little, &mut payload);
    let reply = IPVSMessage::parse_with_param(ByteOrder::Little, &payload, 1).unwrap();
    let version = IPVSManager::read_version(&reply).expect("a version");
    assert!(version.major > 0, "Version major should be > 0");
    assert_eq!(version.to_string(), "1.2.1");
}

#[test]
fn test_udp_service() {
    let mut manager = IPVSManager::new(0x1c);
    manager.flush();

    let service = Service {
        address: IpAddr::V4([10, 0, 0, 2]),
        protocol: Protocol::UDP,
        port: 53,
        fwmark: 0,
        scheduler: Scheduler::SourceHashing,
        flags: ServiceFlags::default(),
        timeout: 0,
        persistence_engine: None,
        statistics: ServiceStats::default(),
    };

    let add = manager.add_service(&service).expect("Failed to add UDP service");
    let mut bytes = Vec::new();
    add.message.emit(ByteOrder::Little, &mut bytes);
    let read = parse_service_nlas(ByteOrder::Little, &bytes[4..]).unwrap();
    let back = Service::from_service_nlas(&read);
    assert_eq!(back.address, service.address);
    assert_eq!(back.protocol, Protocol::UDP);
    assert_eq!(back.port, 53);
    assert_eq!(back.fwmark, 0);
    assert_eq!(back.scheduler, Scheduler::SourceHashing);
    assert_eq!(back.flags, ServiceFlags(0));
    assert_eq!(back.timeout, 0);
    assert!(back.persistence_engine.is_none());

    manager.delete_service(&service).expect("Failed to delete service");
}

#[test]
fn test_multiple_destinations() {
    let mut manager = IPVSManager::new(0x1c);
    manager.flush();

    let service = Service {
        address: IpAddr::V4([10, 0, 0, 3]),
        protocol: Protocol::TCP,
        port: 443,
        fwmark: 0,
        scheduler: Scheduler::WeightedLeastConnection,
        flags: ServiceFlags::default(),
        timeout: 0,
        persistence_engine: None,
        statistics: ServiceStats::default(),
    };

    manager.add_service(&service).expect("Failed to add service");

    for i in 1..=3u8 {
        let dest = Destination {
            address: IpAddr::V4([192, 168, 1, 10 + i]),
            port: 8443,
            weight: 100 * u32::from(i),
            flags: DestinationFlags::Route,
            lower_threshold: 0,
            upper_threshold: 0,
            statistics: DestinationStats::default(),
        };
        let request = manager.add_destination(&service, &dest).expect("Failed to add destination");
        assert_eq!(request.sequence, 2 + u32::from(i));
        match &request.message.nlas[1] {
            IPVSNla::Dest(nlas) => {
                assert!(nlas.contains(&DestNla::Weight(100 * i32::from(i))));
                assert!(nlas.contains(&DestNla::Address(0xc0a8010a + u32::from(i))));
            }
            _ => panic!("a destination"),
        }
    }

    manager.delete_service(&service).expect("Failed to delete service");
}

#[test]
fn test_dump_returns_created_service() {
    let mut manager = IPVSManager::new(0x1c);
    manager.flush();
    let add = manager.add_service(&service()).expect("Failed to add service");
    manager.add_destination(&service(), &destination()).expect("Failed to add destination");
    let dump = manager.get_services();
    assert_eq!(dump.flags, 0x301);

    for order in [ByteOrder::Little, ByteOrder::Big] {
        let mut payload = Vec::new();
        add.message.emit(order, &mut payload);
        let answer = IPVSMessage::parse_with_param(order, &payload, 2).unwrap();
        assert_eq!(answer.nlas, add.message.nlas);
        let one = IPVSManager::read_service(&answer).expect("a service");
        assert_eq!(one.address, IpAddr::V4([10, 0, 0, 1]));
        assert_eq!(one.protocol, Protocol::TCP);
        assert_eq!(one.port, 80);
        assert_eq!(one.scheduler, Scheduler::RoundRobin);

        let frames = vec![
            ReplyFrame::Message(answer),
            ReplyFrame::Message(IPVSMessage::new(IPVSCommand::NewService)),
            ReplyFrame::Done,
        ];
        let replies = collect_dump(frames).unwrap();
        let services = IPVSManager::read_services(&replies);
        assert_eq!(services.len(), 1);
        assert_eq!(services[0].address, IpAddr::V4([10, 0, 0, 1]));
        assert_eq!(services[0].protocol, Protocol::TCP);
        assert_eq!(services[0].port, 80);
        assert_eq!(services[0].scheduler, Scheduler::RoundRobin);
        assert_eq!(services[0].fwmark, 0);
    }
    assert_eq!(IPVSManager::read_service(&IPVSMessage::new(IPVSCommand::GetService)).map(|s| s.port), None);
    assert!(IPVSManager::read_services(&vec![]).is_empty());
}
