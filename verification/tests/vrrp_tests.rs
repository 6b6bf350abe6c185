use seesaw::ffi::{CVrrpState, CVrrpStats};
use seesaw::net::IpAddr;
use seesaw::time::Duration;
use seesaw::vrrp::packet::VRRPPacket;
use seesaw::vrrp::socket::{
    accept_datagram, multicast_group, prepare_advertisement, socket_options, ReceiveError,
    SocketOption,
};
use seesaw::vrrp::state_machine::{
    deadline_reached, next_deadline, Action, TimerDecision, VRRPNode,
};
use seesaw::vrrp::types::{VRRPConfig, VRRPState, VRRPStats};

fn v4(a: u8, b: u8, c: u8, d: u8) -> IpAddr {
    IpAddr::V4([a, b, c, d])
}

fn group_v4() -> IpAddr {
    v4(224, 0, 0, 18)
}

fn create_test_config(vrid: u8, priority: u8) -> VRRPConfig {
    VRRPConfig {
        vrid,
        priority,
        advert_interval: 100,
        interface: "lo".to_string(),
        virtual_ips: vec![v4(127, 0, 1, 1)],
        preempt: true,
        accept_mode: false,
    }
}

fn sealed_packet(vrid: u8, priority: u8, src: IpAddr) -> VRRPPacket {
    let mut packet = VRRPPacket::new(vrid, priority, 100, vec![v4(127, 0, 1, 1)]);
    packet.set_checksum(src, group_v4());
    packet
}

#[test]
fn test_packet_serialize_parse() {
    let ips = vec![v4(192, 168, 1, 1), v4(192, 168, 1, 2)];
    let mut packet = VRRPPacket::new(1, 100, 100, ips.clone());

    let src_ip = v4(10, 0, 0, 1);
    let dst_ip = v4(224, 0, 0, 18);
    packet.set_checksum(src_ip, dst_ip);

    let bytes = packet.to_bytes();
    let parsed = VRRPPacket::parse(&bytes).unwrap();

    assert_eq!(parsed.vrid, 1);
    assert_eq!(parsed.priority, 100);
    assert_eq!(parsed.max_advert_int, 100);
    assert_eq!(parsed.ip_addresses, ips);
    assert!(parsed.verify_checksum(src_ip, dst_ip));
}

#[test]
fn test_packet_roundtrip() {
    let ips = vec![v4(192, 168, 1, 1)];
    let packet = VRRPPacket::new(1, 100, 100, ips);

    let src_ip = v4(10, 0, 0, 1);
    let dst_ip = multicast_group(false);

    let mut pkt_with_checksum = packet.clone();
    pkt_with_checksum.set_checksum(src_ip, dst_ip);

    let bytes = pkt_with_checksum.to_bytes();
    let parsed = VRRPPacket::parse(&bytes).unwrap();

    assert_eq!(parsed.vrid, 1);
    assert_eq!(parsed.priority, 100);
    assert!(parsed.verify_checksum(src_ip, dst_ip));
}

#[test]
fn test_packet_creation() {
    let ips = vec![v4(192, 168, 1, 1)];
    let packet = VRRPPacket::new(1, 100, 100, ips);

    assert_eq!(packet.vrid, 1);
    assert_eq!(packet.priority, 100);
    assert_eq!(packet.count_ip, 1);
}

#[test]
fn test_master_down_interval() {
    let config = VRRPConfig {
        vrid: 1,
        priority: 100,
        advert_interval: 100,
        ..Default::default()
    };

    let interval = config.master_down_interval();
    assert!(interval.as_millis() >= 3600 && interval.as_millis() <= 3610);
}

#[test]
fn types_test_config_validation() {
    let mut config = VRRPConfig::default();

    assert!(config.validate().is_err());

    config.virtual_ips.push(v4(192, 168, 1, 1));
    assert!(config.validate().is_ok());

    config.vrid = 0;
    assert!(config.validate().is_err());
}

#[test]
fn integration_test_test_config_validation() {
    let mut config = create_test_config(0, 100);
    assert!(config.validate().is_err(), "VRID 0 should be invalid");

    config.vrid = 1;
    config.priority = 0;
    assert!(config.validate().is_err(), "Priority 0 should be invalid");

    config.priority = 100;
    config.virtual_ips.clear();
    assert!(config.validate().is_err(), "Empty virtual IPs should be invalid");

    config.virtual_ips.push(v4(127, 0, 3, 1));
    config.interface = String::new();
    assert!(config.validate().is_err(), "Empty interface should be invalid");

    config.interface = "lo".to_string();
    assert!(config.validate().is_ok(), "Valid config should pass");
}

#[test]
fn test_config_validation_messages() {
    let mut config = create_test_config(0, 0);
    assert_eq!(config.validate(), Err("VRID must be between 1 and 255".to_string()));
    config.vrid = 9;
    assert_eq!(config.validate(), Err("Priority must be between 1 and 255".to_string()));
    config.priority = 1;
    config.virtual_ips.clear();
    assert_eq!(config.validate(), Err("At least one virtual IP is required".to_string()));
    config.virtual_ips.push(v4(10, 1, 1, 1));
    config.interface = String::new();
    assert_eq!(config.validate(), Err("Interface name is required".to_string()));
}

#[test]
fn test_basic_types() {
    let config = VRRPConfig::default();
    assert_eq!(config.vrid, 1);

    let state = VRRPState::Init;
    assert_eq!(state.to_string(), "INIT");
    assert_eq!(VRRPState::Backup.to_string(), "BACKUP");
    assert_eq!(VRRPState::Master.to_string(), "MASTER");
}

#[test]
fn test_advert_interval_calculation() {
    let config = create_test_config(7, 100);

    let advert_ms = config.advert_interval_ms();
    assert_eq!(advert_ms, Duration::from_millis(1000));

    let master_down = config.master_down_interval();
    assert_eq!(master_down, Duration::from_millis(3609));
}

#[test]
fn test_master_down_interval_extremes() {
    let owner = create_test_config(1, 255);
    assert_eq!(owner.master_down_interval(), Duration::from_millis(3003));
    let lowest = create_test_config(1, 1);
    assert_eq!(lowest.master_down_interval(), Duration::from_millis(3996));
    let mut slow = create_test_config(1, 1);
    slow.advert_interval = 65535;
    assert_eq!(slow.master_down_interval(), Duration::from_millis(1966050 + 652790));
}

#[test]
fn test_state_conversion() {
    assert_eq!(CVrrpState::from(VRRPState::Init), CVrrpState::Init);
    assert_eq!(CVrrpState::from(VRRPState::Backup), CVrrpState::Backup);
    assert_eq!(CVrrpState::from(VRRPState::Master), CVrrpState::Master);
}

#[test]
fn test_stats_conversion() {
    let stats = VRRPStats {
        master_transitions: 1,
        backup_transitions: 2,
        adverts_sent: 3,
        adverts_received: 4,
        invalid_adverts: 5,
        priority_zero_received: 6,
        checksum_errors: 7,
    };
    let c = CVrrpStats::from(stats);
    assert_eq!(c.master_transitions, 1);
    assert_eq!(c.backup_transitions, 2);
    assert_eq!(c.adverts_sent, 3);
    assert_eq!(c.adverts_received, 4);
    assert_eq!(c.invalid_adverts, 5);
    assert_eq!(c.priority_zero_received, 6);
    assert_eq!(c.checksum_errors, 7);
}

#[test]
fn test_wire_bytes_exact() {
    let mut packet = VRRPPacket::new(1, 100, 100, vec![v4(192, 168, 1, 1)]);
    assert_eq!(packet.version_type, 0x31);
    assert_eq!(packet.checksum, 0);
    let bytes = packet.to_bytes();
    assert_eq!(&bytes[..], &[0x31u8, 1, 100, 1, 0, 100, 0, 0, 192, 168, 1, 1][..]);
    packet.set_checksum(v4(10, 0, 0, 1), group_v4());
    assert_eq!(packet.checksum, 48735);
    let bytes = packet.to_bytes();
    assert_eq!(&bytes[..], &[0x31u8, 1, 100, 1, 0, 100, 0xbe, 0x5f, 192, 168, 1, 1][..]);
}

#[test]
fn test_checksum_exact_values() {
    let two = VRRPPacket::new(1, 100, 100, vec![v4(192, 168, 1, 1), v4(192, 168, 1, 2)]);
    assert_eq!(two.calculate_checksum(v4(10, 0, 0, 1), group_v4()), 64687);

    let mut v6 = [0u8; 16];
    v6[0] = 0x20;
    v6[1] = 0x01;
    v6[2] = 0x0d;
    v6[3] = 0xb8;
    v6[15] = 1;
    let mut src = [0u8; 16];
    src[0] = 0xfe;
    src[1] = 0x80;
    src[15] = 1;
    let packet = VRRPPacket::new(7, 200, 100, vec![IpAddr::V6(v6)]);
    assert_eq!(packet.to_bytes().len(), 24);
    assert_eq!(packet.calculate_checksum(IpAddr::V6(src), multicast_group(true)), 55993);
}

#[test]
fn test_checksum_mixed_families_is_zero() {
    let packet = VRRPPacket::new(1, 100, 100, vec![v4(192, 168, 1, 1)]);
    assert_eq!(packet.calculate_checksum(v4(10, 0, 0, 1), multicast_group(true)), 0);
}

#[test]
fn test_checksum_ignores_checksum_field() {
    let mut packet = VRRPPacket::new(1, 100, 100, vec![v4(192, 168, 1, 1)]);
    let before = packet.calculate_checksum(v4(10, 0, 0, 1), group_v4());
    packet.checksum = 0xffff;
    assert_eq!(packet.calculate_checksum(v4(10, 0, 0, 1), group_v4()), before);
}

#[test]
fn test_flipped_byte_fails_checksum() {
    let src = v4(10, 0, 0, 1);
    let packet = sealed_packet(1, 100, src);
    let bytes = packet.to_bytes().to_vec();
    for i in 0..bytes.len() {
        let mut damaged = bytes.clone();
        damaged[i] ^= 0xff;
        match VRRPPacket::parse(&damaged) {
            Ok(parsed) => assert!(!parsed.verify_checksum(src, group_v4()), "byte {}", i),
            Err(_) => {}
        }
    }
}

#[test]
fn test_damaged_advertisement_is_counted_invalid() {
    let src = v4(10, 0, 0, 9);
    let mut node = VRRPNode::new(create_test_config(1, 100), v4(10, 0, 0, 1));
    node.init_transition();
    let mut packet = sealed_packet(1, 200, src);
    packet.ip_addresses[0] = v4(127, 0, 1, 2);
    let decision = node.handle_advertisement_backup(&packet, src);
    assert_eq!(decision, TimerDecision::Keep);
    let stats = node.get_stats();
    assert_eq!(stats.invalid_adverts, 1);
    assert_eq!(stats.checksum_errors, 1);
    assert_eq!(stats.adverts_received, 0);
}

#[test]
fn test_parse_errors() {
    assert_eq!(VRRPPacket::parse(&[0x31, 1, 100]), Err("Packet too short"));
    assert_eq!(VRRPPacket::parse(&[0x21, 1, 100, 0, 0, 100, 0, 0]), Err("Invalid VRRP version"));
    assert_eq!(VRRPPacket::parse(&[0x32, 1, 100, 0, 0, 100, 0, 0]), Err("Invalid packet type"));
    assert_eq!(
        VRRPPacket::parse(&[0x31, 1, 100, 1, 0, 100, 0, 0, 1, 2, 3]),
        Err("Invalid packet length")
    );
    assert_eq!(
        VRRPPacket::parse(&[0x31, 1, 100, 2, 0, 100, 0, 0, 1, 2, 3, 4]),
        Err("Invalid packet length")
    );
}

#[test]
fn test_parse_masks_reserved_bits() {
    let parsed = VRRPPacket::parse(&[0x31, 5, 7, 0, 0xf1, 0x23, 0xab, 0xcd]).unwrap();
    assert_eq!(parsed.max_advert_int, 0x123);
    assert_eq!(parsed.checksum, 0xabcd);
    assert_eq!(parsed.vrid, 5);
    assert_eq!(parsed.priority, 7);
    assert_eq!(parsed.count_ip, 0);
    assert!(parsed.ip_addresses.is_empty());
}

#[test]
fn test_parse_ipv6_packet() {
    let mut data = vec![0x31u8, 3, 50, 2, 0, 10, 0, 0];
    let first: Vec<u8> = (1u8..=16).collect();
    let second: Vec<u8> = (101u8..=116).collect();
    data.extend_from_slice(&first);
    data.extend_from_slice(&second);
    let parsed = VRRPPacket::parse(&data).unwrap();
    assert_eq!(parsed.ip_addresses.len(), 2);
    let mut a = [0u8; 16];
    a.copy_from_slice(&first);
    let mut b = [0u8; 16];
    b.copy_from_slice(&second);
    assert_eq!(parsed.ip_addresses, vec![IpAddr::V6(a), IpAddr::V6(b)]);
    assert_eq!(&parsed.to_bytes()[..], &data[..]);
}

#[test]
fn test_prepare_advertisement_verifies() {
    let src = v4(10, 0, 0, 1);
    let packet = VRRPPacket::new(1, 100, 100, vec![v4(192, 168, 1, 1)]);
    let bytes = prepare_advertisement(&packet, src, false);
    assert_eq!(&bytes[..], &[0x31u8, 1, 100, 1, 0, 100, 0xbe, 0x5f, 192, 168, 1, 1][..]);
    let parsed = accept_datagram(&bytes, 255).unwrap();
    assert_eq!(parsed.version_type >> 4, 3);
    assert_eq!(parsed.version_type & 0x0f, 1);
    assert!(parsed.verify_checksum(src, multicast_group(false)));
}

#[test]
fn test_accept_datagram_errors() {
    let good = [0x31u8, 1, 100, 0, 0, 100, 0, 0];
    assert!(accept_datagram(&good, 255).is_ok());
    assert_eq!(accept_datagram(&good, 254).err(), Some(ReceiveError::HopLimit));
    assert_eq!(accept_datagram(&good[..7], 255).err(), Some(ReceiveError::TooShort));
    assert_eq!(
        accept_datagram(&[0x41u8, 1, 100, 0, 0, 100, 0, 0], 255).err(),
        Some(ReceiveError::InvalidVersion)
    );
    assert_eq!(
        accept_datagram(&[0x30u8, 1, 100, 0, 0, 100, 0, 0], 255).err(),
        Some(ReceiveError::InvalidType)
    );
    assert_eq!(
        accept_datagram(&[0x31u8, 1, 100, 1, 0, 100, 0, 0], 255).err(),
        Some(ReceiveError::InvalidLength)
    );
}

#[test]
fn test_socket_options_and_groups() {
    assert_eq!(
        socket_options(),
        vec![
            SocketOption::NonBlocking,
            SocketOption::ReuseAddress,
            SocketOption::UnicastHops(255),
            SocketOption::MulticastHops(255),
            SocketOption::MulticastLoop(false),
        ]
    );
    assert_eq!(multicast_group(false), v4(224, 0, 0, 18));
    let mut g = [0u8; 16];
    g[0] = 0xff;
    g[1] = 0x02;
    g[15] = 0x12;
    assert_eq!(multicast_group(true), IpAddr::V6(g));
}

#[test]
fn test_priority_255_becomes_master() {
    let mut node = VRRPNode::new(create_test_config(1, 255), v4(127, 0, 0, 1));
    assert_eq!(node.get_state(), VRRPState::Init);
    let action = node.init_transition();
    assert_eq!(action, Action::SendAdvertisement);
    assert_eq!(node.get_state(), VRRPState::Master);
    node.advertisement_sent();
    let stats = node.get_stats();
    assert!(stats.adverts_sent >= 1);
    assert_eq!(stats.master_transitions, 1);
    assert_eq!(node.advert_timer_fired(), Action::SendAdvertisement);
    node.advertisement_sent();
    assert!(node.get_stats().adverts_sent >= 2);
    let advert = node.advertisement();
    assert_eq!(advert.priority, 255);
    assert_eq!(advert.vrid, 1);
    assert_eq!(advert.max_advert_int, 100);
    assert_eq!(advert.ip_addresses, vec![v4(127, 0, 1, 1)]);
}

#[test]
fn test_node_creation() {
    let node = VRRPNode::new(create_test_config(1, 100), v4(127, 0, 0, 1));
    assert_eq!(node.get_state(), VRRPState::Init, "Initial state should be Init");
    let stats = node.get_stats();
    assert_eq!(stats.master_transitions, 0);
    assert_eq!(stats.backup_transitions, 0);
    assert_eq!(stats.adverts_sent, 0);
    assert_eq!(stats.adverts_received, 0);
}

#[test]
fn test_backup_state_transitions() {
    let mut node = VRRPNode::new(create_test_config(1, 100), v4(127, 0, 0, 1));
    let action = node.init_transition();
    assert_eq!(action, Action::ArmMasterDown(Duration::from_millis(3609)));
    assert_eq!(node.get_state(), VRRPState::Backup);
    assert_eq!(node.get_stats().backup_transitions, 1);
    assert_eq!(node.advert_timer_fired(), Action::Idle);

    let start = Duration::from_millis(0);
    let deadline = next_deadline(
        TimerDecision::Rearm(node.master_down_interval()),
        start,
        start,
    );
    assert_eq!(deadline, Duration::from_millis(3609));
    assert!(!deadline_reached(Duration::from_millis(3608), deadline));
    assert!(deadline_reached(Duration::from_millis(3609), deadline));

    let action = node.master_down_expired();
    assert_eq!(action, Action::SendAdvertisement);
    assert_eq!(node.get_state(), VRRPState::Master);
    assert_eq!(node.get_stats().master_transitions, 1);
    assert_eq!(node.master_down_expired(), Action::Idle);
    assert_eq!(node.get_stats().master_transitions, 1);
}

#[test]
fn test_backup_timer_decisions() {
    let src = v4(10, 0, 0, 9);
    let mut node = VRRPNode::new(create_test_config(1, 100), v4(10, 0, 0, 1));
    node.init_transition();
    let rearm = TimerDecision::Rearm(Duration::from_millis(3609));

    assert_eq!(node.handle_advertisement_backup(&sealed_packet(2, 200, src), src), TimerDecision::Keep);
    assert_eq!(node.get_stats().adverts_received, 0);

    assert_eq!(node.handle_advertisement_backup(&sealed_packet(1, 200, src), src), rearm);
    assert_eq!(node.handle_advertisement_backup(&sealed_packet(1, 100, src), src), rearm);
    assert_eq!(node.handle_advertisement_backup(&sealed_packet(1, 50, src), src), TimerDecision::Keep);
    assert_eq!(node.handle_advertisement_backup(&sealed_packet(1, 0, src), src), TimerDecision::Expire);
    let stats = node.get_stats();
    assert_eq!(stats.adverts_received, 4);
    assert_eq!(stats.priority_zero_received, 1);
    assert_eq!(stats.invalid_adverts, 0);
    assert_eq!(node.get_state(), VRRPState::Backup);

    let now = Duration::from_millis(500);
    let old = Duration::from_millis(3609);
    assert_eq!(next_deadline(TimerDecision::Expire, now, old), now);
    assert_eq!(next_deadline(TimerDecision::Keep, now, old), old);
    assert_eq!(next_deadline(rearm, now, old), Duration::from_millis(4109));

    let mut config = create_test_config(1, 100);
    config.preempt = false;
    let mut meek = VRRPNode::new(config, v4(10, 0, 0, 1));
    meek.init_transition();
    assert_eq!(meek.handle_advertisement_backup(&sealed_packet(1, 50, src), src), rearm);
}

#[test]
fn test_master_yields_to_higher_priority_or_address() {
    let ours = v4(10, 0, 0, 5);
    let higher = v4(10, 0, 0, 9);
    let lower = v4(10, 0, 0, 2);
    let master = || {
        let mut node = VRRPNode::new(create_test_config(1, 100), ours);
        node.init_transition();
        node.master_down_expired();
        assert_eq!(node.get_state(), VRRPState::Master);
        node
    };
    let yields = Action::ArmMasterDown(Duration::from_millis(3609));

    let mut node = master();
    assert_eq!(node.handle_advertisement_master(&sealed_packet(1, 101, lower), lower), yields);
    assert_eq!(node.get_state(), VRRPState::Backup);
    assert_eq!(node.get_stats().backup_transitions, 2);

    let mut node = master();
    assert_eq!(node.handle_advertisement_master(&sealed_packet(1, 100, higher), higher), yields);
    assert_eq!(node.get_state(), VRRPState::Backup);

    let mut node = master();
    assert_eq!(node.handle_advertisement_master(&sealed_packet(1, 100, lower), lower), Action::Idle);
    assert_eq!(node.handle_advertisement_master(&sealed_packet(1, 100, ours), ours), Action::Idle);
    assert_eq!(node.handle_advertisement_master(&sealed_packet(1, 99, higher), higher), Action::Idle);
    assert_eq!(node.handle_advertisement_master(&sealed_packet(9, 255, higher), higher), Action::Idle);
    assert_eq!(node.get_state(), VRRPState::Master);
    assert_eq!(node.get_stats().adverts_received, 3);
}

#[test]
fn test_graceful_shutdown() {
    let mut node = VRRPNode::new(create_test_config(4, 255), v4(127, 0, 0, 1));
    node.init_transition();
    assert_eq!(node.get_state(), VRRPState::Master);
    let farewell = node.shutdown().expect("a master says farewell");
    assert_eq!(farewell.priority, 0);
    assert_eq!(farewell.vrid, 4);
    assert_eq!(farewell.ip_addresses, vec![v4(127, 0, 1, 1)]);
    assert_eq!(node.get_state(), VRRPState::Init);

    let mut backup = VRRPNode::new(create_test_config(4, 100), v4(127, 0, 0, 1));
    backup.init_transition();
    assert!(backup.shutdown().is_none());
    assert_eq!(backup.get_state(), VRRPState::Init);
}

#[test]
fn test_statistics_tracking() {
    let mut node = VRRPNode::new(create_test_config(5, 255), v4(127, 0, 0, 1));
    node.init_transition();
    node.advertisement_sent();
    let stats_initial = node.get_stats();
    node.advertisement_sent();
    node.datagram_rejected();
    let stats_final = node.get_stats();
    assert!(stats_final.adverts_sent > stats_initial.adverts_sent);
    assert_eq!(stats_final.master_transitions, 1);
    assert_eq!(stats_final.invalid_adverts, 1);
}

#[test]
fn test_multiple_virtual_ips() {
    let config = VRRPConfig {
        vrid: 6,
        priority: 255,
        advert_interval: 100,
        interface: "lo".to_string(),
        virtual_ips: vec![v4(127, 0, 2, 1), v4(127, 0, 2, 2), v4(127, 0, 2, 3)],
        preempt: true,
        accept_mode: false,
    };
    let mut node = VRRPNode::new(config, v4(127, 0, 0, 1));
    node.init_transition();
    assert_eq!(node.get_state(), VRRPState::Master, "Should be Master with multiple VIPs");
    let advert = node.advertisement();
    assert_eq!(advert.count_ip, 3);
    assert_eq!(advert.to_bytes().len(), 20);
    assert!(!node.is_ipv6());
}

#[test]
fn test_address_order_and_text() {
    assert!(v4(10, 0, 0, 2).is_above(&v4(10, 0, 0, 1)));
    assert!(v4(10, 0, 1, 0).is_above(&v4(10, 0, 0, 255)));
    assert!(!v4(10, 0, 0, 1).is_above(&v4(10, 0, 0, 1)));
    assert!(!v4(9, 255, 255, 255).is_above(&v4(10, 0, 0, 0)));
    assert!(!v4(10, 0, 0, 2).is_above(&IpAddr::V6([0u8; 16])));
    assert!(v4(10, 0, 0, 2).same_as(&v4(10, 0, 0, 2)));
    assert!(!v4(10, 0, 0, 2).same_as(&v4(10, 0, 0, 3)));
    assert_eq!(v4(192, 168, 1, 10).to_text(), "192.168.1.10");
    let mut a = [0u8; 16];
    a[0] = 0xfe;
    a[1] = 0x80;
    a[15] = 0x1f;
    assert_eq!(IpAddr::V6(a).to_text(), "fe80:0:0:0:0:0:0:1f");
}
