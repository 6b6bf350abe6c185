use seesaw::healthcheck::types::{CheckType, HealthCheckResult, HealthStatus};
use seesaw::net::IpAddr;
use seesaw::server::config::{
    first_existing, search_paths, validate_batch_delay, validate_monitor_interval,
    validate_socket_path, BatchingSettings, ChannelSettings, Config, ConfigError, Field,
    FieldError, ManagerSettings, ServerSettings, ValidationError,
};
use seesaw::server::manager::{create_checker, Checker, Manager};
use seesaw::server::metrics::{
    connected_value, state_to_string, state_value, CheckLabels, HealthcheckLabels,
    StateTransitionLabels,
};
use seesaw::server::notifier::Notifier;
use seesaw::server::proxy::{frame, handle_event, keeps_open, ProxyAction, ProxyEvent};
use seesaw::server::server::{HealthcheckServer, QueueCapacities, Routing};
use seesaw::server::types::{
    CheckerConfig, HealthcheckConfig, Notification, ProxyToServerMsg, ServerConfig,
    ServerToProxyMsg, State, Status,
};
use seesaw::healthcheck::checkers::HttpMethod;
use seesaw::healthcheck::monitor::Transition;
use seesaw::time::Duration;
use std::time::SystemTime;

fn notification(id: u64, state: State) -> Notification {
    Notification {
        id,
        status: Status {
            last_check: Some(SystemTime::now()),
            duration: Duration::from_millis(10),
            failures: if state == State::Unhealthy { 1 } else { 0 },
            successes: if state == State::Healthy { 1 } else { 0 },
            state,
            message: format!("Test message for {}", id),
        },
    }
}

fn tcp_config(id: u64, ip: [u8; 4], port: u16) -> HealthcheckConfig {
    HealthcheckConfig {
        id,
        interval: Duration::from_secs(1),
        timeout: Duration::from_millis(100),
        retries: 2,
        checker: CheckerConfig::Tcp { ip: IpAddr::V4(ip), port },
    }
}

fn http_config(id: u64, ip: [u8; 4], port: u16, path: &str) -> HealthcheckConfig {
    HealthcheckConfig {
        id,
        interval: Duration::from_secs(1),
        timeout: Duration::from_millis(100),
        retries: 1,
        checker: CheckerConfig::Http {
            ip: IpAddr::V4(ip),
            port,
            method: "GET".to_string(),
            path: path.to_string(),
            expected_codes: vec![200],
            secure: false,
        },
    }
}

fn ms(n: u64) -> Duration {
    Duration::from_millis(n)
}

#[test]
fn test_state_to_string() {
    assert_eq!(state_to_string(State::Unknown), "unknown");
    assert_eq!(state_to_string(State::Healthy), "healthy");
    assert_eq!(state_to_string(State::Unhealthy), "unhealthy");
}

#[test]
fn test_metric_labels_and_values() {
    assert_eq!(state_value(true), 1);
    assert_eq!(state_value(false), 2);
    assert_eq!(connected_value(true), 1);
    assert_eq!(connected_value(false), 0);
    let l = HealthcheckLabels::new(1234567890123, "tcp");
    assert_eq!(l.id, "1234567890123");
    assert_eq!(l.checker_type, "tcp");
    let c = CheckLabels::new(0, "http", "success");
    assert_eq!(c.id, "0");
    assert_eq!(c.result, "success");
    let t = StateTransitionLabels::new(7, "dns", State::Unknown, State::Healthy);
    assert_eq!(t.from, "unknown");
    assert_eq!(t.to, "healthy");
}

#[test]
fn test_default_config_is_valid() {
    let config = Config::default();
    assert!(config.validate().is_ok());
}

#[test]
fn test_valid_yaml_parsing() {
    let mut config = Config::default();
    config.server.proxy_socket = "/tmp/test.sock".to_string();
    config.batching = BatchingSettings { delay: ms(100), max_size: 100 };
    config.channels = ChannelSettings { notification: 1000, config_update: 10, proxy_message: 10 };
    config.manager = ManagerSettings { monitor_interval: ms(500) };
    assert!(config.validate().is_ok());
    assert_eq!(config.server.proxy_socket, "/tmp/test.sock");
    assert_eq!(config.batching.max_size, 100);
    assert_eq!(config.channels.notification, 1000);
}

#[test]
fn test_minimal_yaml_uses_defaults() {
    let mut config = Config::default();
    config.server.proxy_socket = "/tmp/test.sock".to_string();
    assert!(config.validate().is_ok());
    assert_eq!(config.batching.delay, Duration::from_millis(100));
    assert_eq!(config.batching.max_size, 100);
}

#[test]
fn test_invalid_batch_delay_too_large() {
    let mut config = Config::default();
    config.server.proxy_socket = "/tmp/test.sock".to_string();
    config.batching = BatchingSettings { delay: Duration::from_secs(15), max_size: 100 };
    assert!(config.validate().is_err());
}

#[test]
fn test_invalid_batch_delay_too_small() {
    let mut config = Config::default();
    config.batching = BatchingSettings { delay: ms(0), max_size: 100 };
    assert_eq!(
        config.validate(),
        Err(ConfigError::ValidationError(FieldError {
            field: Field::BatchingDelay,
            error: ValidationError::BatchDelayOutOfRange,
        }))
    );
}

#[test]
fn test_invalid_batch_size_too_large() {
    let mut config = Config::default();
    config.batching = BatchingSettings { delay: ms(100), max_size: 50000 };
    assert!(config.validate().is_err());
}

#[test]
fn test_invalid_batch_size_too_small() {
    let mut config = Config::default();
    config.batching = BatchingSettings { delay: ms(100), max_size: 0 };
    assert_eq!(
        config.validate(),
        Err(ConfigError::ValidationError(FieldError {
            field: Field::BatchingMaxSize,
            error: ValidationError::Range,
        }))
    );
}

#[test]
fn test_socket_path_validation() {
    assert!(validate_socket_path("/tmp/test.sock").is_ok());
    assert!(validate_socket_path("/var/run/seesaw/healthcheck.sock").is_ok());
    assert!(validate_socket_path("./test.sock").is_ok());

    assert!(validate_socket_path("").is_err());
    assert!(validate_socket_path("   ").is_err());
    assert!(validate_socket_path("relative/path.sock").is_err());
}

#[test]
fn test_socket_path_error_codes() {
    assert_eq!(validate_socket_path(" \t"), Err(ValidationError::SocketPathEmpty));
    assert_eq!(validate_socket_path("  /x  "), Ok(()));
    assert_eq!(validate_socket_path("."), Err(ValidationError::SocketPathInvalidFormat));
    assert_eq!(validate_socket_path(".x/"), Err(ValidationError::SocketPathInvalidFormat));
    assert_eq!(ValidationError::SocketPathEmpty.code(), "socket_path_empty");
    assert_eq!(ValidationError::SocketPathInvalidFormat.code(), "socket_path_invalid_format");
    assert_eq!(ValidationError::BatchDelayOutOfRange.code(), "batch_delay_out_of_range");
    assert_eq!(ValidationError::MonitorIntervalOutOfRange.code(), "monitor_interval_out_of_range");
    let empty = ServerSettings { proxy_socket: String::new() };
    assert_eq!(
        empty.validate(),
        Err(FieldError { field: Field::ProxySocket, error: ValidationError::Length })
    );
    let blank = ServerSettings { proxy_socket: "  ".to_string() };
    assert_eq!(
        blank.validate(),
        Err(FieldError { field: Field::ProxySocket, error: ValidationError::SocketPathEmpty })
    );
}

#[test]
fn test_duration_limits() {
    assert!(validate_batch_delay(&ms(1)).is_ok());
    assert!(validate_batch_delay(&ms(10_000)).is_ok());
    assert!(validate_batch_delay(&ms(10_001)).is_err());
    assert!(validate_monitor_interval(&ms(10)).is_ok());
    assert!(validate_monitor_interval(&ms(9)).is_err());
    assert!(validate_monitor_interval(&ms(60_000)).is_ok());
    assert!(validate_monitor_interval(&ms(60_001)).is_err());
}

#[test]
fn test_config_to_server_config_conversion() {
    let config = Config::default();
    let server_config = config.to_server_config();

    assert_eq!(server_config.batch_delay, Duration::from_millis(100));
    assert_eq!(server_config.batch_size, 100);
    assert_eq!(server_config.channel_size, 1000);
    assert_eq!(server_config.config_channel_size, 10);
    assert_eq!(server_config.proxy_channel_size, 10);
    assert_eq!(server_config.manager_monitor_interval, Duration::from_millis(500));
}

#[test]
fn test_invalid_channel_sizes() {
    let mut config = Config::default();
    config.channels = ChannelSettings { notification: 5, config_update: 10, proxy_message: 10 };
    assert!(config.validate().is_err());

    let mut config = Config::default();
    config.channels = ChannelSettings { notification: 1000, config_update: 5000, proxy_message: 10 };
    assert_eq!(
        config.validate(),
        Err(ConfigError::ValidationError(FieldError {
            field: Field::ChannelConfigUpdate,
            error: ValidationError::Range,
        }))
    );
    let mut config = Config::default();
    config.channels = ChannelSettings { notification: 1000, config_update: 10, proxy_message: 0 };
    assert!(config.validate().is_err());
}

#[test]
fn test_invalid_monitor_interval() {
    let mut config = Config::default();
    config.manager = ManagerSettings { monitor_interval: ms(5) };
    assert!(config.validate().is_err());

    let mut config = Config::default();
    config.manager = ManagerSettings { monitor_interval: Duration::from_secs(120) };
    assert!(config.validate().is_err());
}

#[test]
fn test_config_search_order() {
    assert_eq!(
        search_paths(Some("/home/op".to_string())),
        vec![
            "/etc/seesaw/healthcheck-server.yaml".to_string(),
            "/home/op/.config/seesaw/healthcheck-server.yaml".to_string(),
            "./healthcheck-server.yaml".to_string(),
        ]
    );
    assert_eq!(search_paths(None).len(), 2);
    assert_eq!(first_existing(&vec![false, true, true]), Some(1));
    assert_eq!(first_existing(&vec![false, false]), None);
    assert_eq!(first_existing(&vec![]), None);
}

#[test]
fn test_server_defaults_and_queues() {
    let config = ServerConfig::default();
    assert_eq!(config.proxy_socket, "/var/run/seesaw/healthcheck-proxy.sock");
    assert_eq!(config.max_failures, 10);
    assert_eq!(config.notify_interval, Duration::from_secs(15));
    assert_eq!(config.retry_delay, Duration::from_secs(2));
    let server = HealthcheckServer::new(config);
    assert_eq!(
        server.queue_capacities(),
        QueueCapacities { notifications: 1000, config_updates: 10, to_proxy: 1000, from_proxy: 10 }
    );
    assert_eq!(server.get_config().batch_size, 100);
}

#[test]
fn test_message_routing() {
    match HealthcheckServer::route_message(ProxyToServerMsg::UpdateConfigs {
        configs: vec![tcp_config(1, [127, 0, 0, 1], 80)],
    }) {
        Routing::UpdateConfigs(configs) => {
            assert_eq!(configs.len(), 1);
            assert_eq!(configs[0].id, 1);
        }
        _ => panic!("an update goes to the manager"),
    }
    assert!(matches!(
        HealthcheckServer::route_message(ProxyToServerMsg::RequestStatus),
        Routing::StatusRequested
    ));
    assert!(matches!(HealthcheckServer::route_message(ProxyToServerMsg::Shutdown), Routing::Stop));
}

#[test]
fn test_proxy_sends_ready_message() {
    match handle_event(ProxyEvent::Connected) {
        ProxyAction::Send(ServerToProxyMsg::Ready) => {}
        _ => panic!("the first message is Ready"),
    }
    assert_eq!(frame(b"{\"type\":\"ready\"}".to_vec()), b"{\"type\":\"ready\"}\n".to_vec());
    assert_eq!(frame(Vec::new()), vec![b'\n']);
}

#[test]
fn test_proxy_events() {
    let close = handle_event(ProxyEvent::LineRead { bytes: 0, decoded: None });
    assert!(matches!(close, ProxyAction::Close));
    assert!(!keeps_open(&close));
    let bad = handle_event(ProxyEvent::LineRead { bytes: 12, decoded: None });
    assert!(matches!(bad, ProxyAction::CountParseError));
    assert!(keeps_open(&bad));
    let good = handle_event(ProxyEvent::LineRead {
        bytes: 20,
        decoded: Some(ProxyToServerMsg::Shutdown),
    });
    assert!(matches!(good, ProxyAction::Forward(ProxyToServerMsg::Shutdown)));
    let failed = handle_event(ProxyEvent::ReadFailed);
    assert!(matches!(failed, ProxyAction::CountIoErrorAndClose));
    assert!(!keeps_open(&failed));
    let out = handle_event(ProxyEvent::Outbound(ServerToProxyMsg::Error {
        message: "x".to_string(),
    }));
    match out {
        ProxyAction::Send(ServerToProxyMsg::Error { message }) => assert_eq!(message, "x"),
        _ => panic!("a message that is due is sent"),
    }
}

#[test]
fn test_notifier_batches_notifications() {
    let mut notifier = Notifier::new(ms(10), 5, ms(0));
    for i in 1..=3 {
        assert!(notifier.enqueue(notification(i, State::Healthy), ms(i)).is_none());
    }
    assert!(notifier.tick(ms(9)).is_none());
    let batch = notifier.tick(ms(10)).expect("the delay has passed");
    assert_eq!(batch.notifications.len(), 3, "Should batch all 3 notifications");
    assert_eq!(notifier.pending_len(), 0);
}

#[test]
fn test_notifier_sends_full_batch_immediately() {
    let mut notifier = Notifier::new(Duration::from_secs(1), 3, ms(0));
    assert!(notifier.enqueue(notification(1, State::Healthy), ms(1)).is_none());
    assert!(notifier.enqueue(notification(2, State::Healthy), ms(2)).is_none());
    let batch = notifier.enqueue(notification(3, State::Healthy), ms(3)).expect("the batch is full");
    assert_eq!(batch.notifications.len(), 3, "Should send full batch");
    let ids: Vec<u64> = batch.notifications.iter().map(|n| n.id).collect();
    assert_eq!(ids, vec![1, 2, 3]);
    assert!(notifier.tick(ms(1002)).is_none());
}

#[test]
fn test_notifier_time_trigger() {
    let mut notifier = Notifier::new(ms(20), 100, ms(0));
    assert!(notifier.tick(ms(20)).is_none(), "an empty batch never leaves");
    assert!(notifier.enqueue(notification(1, State::Unhealthy), ms(25)).is_none());
    let batch = notifier.tick(ms(40)).expect("one batch after the delay");
    assert_eq!(batch.notifications.len(), 1);
    assert!(notifier.tick(ms(59)).is_none());
    assert!(notifier.tick(ms(60)).is_none());
    assert!(notifier.send_batch(ms(61)).is_none());
}

#[test]
fn test_notifier_handles_multiple_batches() {
    let mut notifier = Notifier::new(ms(20), 3, ms(0));
    let mut batches = Vec::new();
    for i in 1..=3 {
        if let Some(b) = notifier.enqueue(notification(i, State::Healthy), ms(i)) {
            batches.push(b);
        }
    }
    for i in 4..=6 {
        if let Some(b) = notifier.enqueue(notification(i, State::Unhealthy), ms(i)) {
            batches.push(b);
        }
    }
    assert_eq!(batches.len(), 2);
    assert_eq!(batches[0].notifications.len(), 3);
    assert_eq!(batches[1].notifications.len(), 3);
}

#[test]
fn test_notifier_preserves_notification_order() {
    let mut notifier = Notifier::new(ms(10), 10, ms(0));
    let ids = vec![5, 3, 7, 1, 9];
    for &id in &ids {
        assert!(notifier.enqueue(notification(id, State::Healthy), ms(1)).is_none());
    }
    let batch = notifier.tick(ms(11)).expect("the delay has passed");
    let received_ids: Vec<u64> = batch.notifications.iter().map(|n| n.id).collect();
    assert_eq!(received_ids, ids, "Notification order should be preserved");
}

#[test]
fn test_notifier_handles_rapid_notifications() {
    let mut notifier = Notifier::new(ms(5), 50, ms(0));
    let mut total_received = 0;
    let mut received = Vec::new();
    for i in 1..=100u64 {
        if let Some(batch) = notifier.enqueue(notification(i, State::Healthy), ms(0)) {
            assert!(batch.notifications.len() >= 1 && batch.notifications.len() <= 50);
            total_received += batch.notifications.len();
            received.extend(batch.notifications.iter().map(|n| n.id));
        }
    }
    if let Some(batch) = notifier.tick(ms(5)) {
        total_received += batch.notifications.len();
    }
    assert_eq!(total_received, 100, "Should receive all 100 notifications");
    assert_eq!(received, (1..=100u64).collect::<Vec<u64>>());
}

#[test]
fn test_notifier_with_mixed_states() {
    let mut notifier = Notifier::new(ms(10), 10, ms(0));
    notifier.enqueue(notification(1, State::Healthy), ms(1));
    notifier.enqueue(notification(2, State::Unhealthy), ms(1));
    notifier.enqueue(notification(3, State::Unknown), ms(1));
    notifier.enqueue(notification(4, State::Healthy), ms(1));
    let batch = notifier.tick(ms(20)).expect("the delay has passed");
    assert_eq!(batch.notifications.len(), 4);
    assert_eq!(batch.notifications[0].status.state, State::Healthy);
    assert_eq!(batch.notifications[1].status.state, State::Unhealthy);
    assert_eq!(batch.notifications[2].status.state, State::Unknown);
    assert_eq!(batch.notifications[3].status.state, State::Healthy);
}

#[test]
fn test_to_monitor_config() {
    let c = tcp_config(1, [127, 0, 0, 1], 8080).to_monitor_config();
    assert_eq!(c.target, "127.0.0.1:8080");
    assert_eq!(c.rise, 3);
    assert_eq!(c.fall, 3);
    assert_eq!(c.timeout, ms(100));
    assert_eq!(c.interval, Duration::from_secs(1));
    assert_eq!(c.check_type, CheckType::Tcp);
    let mut zero = tcp_config(1, [10, 1, 2, 3], 1);
    zero.retries = 0;
    assert_eq!(zero.to_monitor_config().rise, 2);
    assert_eq!(zero.to_monitor_config().fall, 2);
    let h = http_config(2, [192, 168, 0, 7], 443, "/health").to_monitor_config();
    assert_eq!(h.target, "192.168.0.7:443");
    assert_eq!(h.rise, 2);
    assert_eq!(
        h.check_type,
        CheckType::Http {
            method: "GET".to_string(),
            path: "/health".to_string(),
            expected_codes: vec![200],
            https: false,
        }
    );
    let d = HealthcheckConfig {
        id: 3,
        interval: Duration::from_secs(1),
        timeout: ms(100),
        retries: 1,
        checker: CheckerConfig::Dns {
            query: "example.com".to_string(),
            expected_ips: vec![IpAddr::V4([93, 184, 216, 34])],
        },
    }
    .to_monitor_config();
    assert_eq!(d.target, "0.0.0.0:53");
    assert_eq!(
        d.check_type,
        CheckType::Dns {
            query: "example.com".to_string(),
            expected_ips: vec!["93.184.216.34".to_string()],
        }
    );
}

#[test]
fn test_create_checker() {
    match create_checker(&tcp_config(1, [127, 0, 0, 1], 1)) {
        Checker::Tcp(t) => {
            assert_eq!(t.target().port, 1);
            assert_eq!(t.target().ip, IpAddr::V4([127, 0, 0, 1]));
            assert_eq!(t.timeout(), ms(100));
        }
        _ => panic!("a TCP check"),
    }
    let mut config = http_config(2, [10, 0, 0, 8], 8443, "/health");
    if let CheckerConfig::Http { secure, method, .. } = &mut config.checker {
        *secure = true;
        *method = "post".to_string();
    }
    match create_checker(&config) {
        Checker::Http(h) => {
            assert_eq!(h.url(), "https://10.0.0.8:8443/health");
            assert_eq!(h.method(), HttpMethod::Post);
        }
        _ => panic!("an HTTP check"),
    }
    match create_checker(&http_config(2, [10, 0, 0, 8], 80, "/")) {
        Checker::Http(h) => assert_eq!(h.url(), "http://10.0.0.8:80/"),
        _ => panic!("an HTTP check"),
    }
}

#[test]
fn test_manager_adds_new_healthchecks() {
    let mut manager = Manager::new(ms(500));
    assert_eq!(manager.monitor_interval(), ms(500));
    let report = manager.update_configs(vec![
        tcp_config(1, [127, 0, 0, 1], 8080),
        tcp_config(2, [127, 0, 0, 1], 9090),
    ]);
    assert_eq!(report.started, vec![1, 2]);
    assert!(report.stopped.is_empty());
    assert_eq!(report.active, 2);
    let now = SystemTime::now();
    let poll = manager.poll(now);
    assert_eq!(poll.active, 2);
    assert_eq!(poll.notifications.len(), 2);
    for notification in &poll.notifications {
        assert!(notification.id == 1 || notification.id == 2);
        assert_eq!(notification.status.state, State::Unhealthy);
        assert_eq!(notification.status.last_check, Some(now));
        assert_eq!(notification.status.message, "0/0 checks successful");
    }
    assert!(manager.poll(now).notifications.is_empty());
}

#[test]
fn test_manager_removes_deleted_healthchecks() {
    let mut manager = Manager::new(ms(500));
    manager.update_configs(vec![
        tcp_config(1, [127, 0, 0, 1], 8080),
        tcp_config(2, [127, 0, 0, 1], 9090),
        tcp_config(3, [127, 0, 0, 1], 7070),
    ]);
    manager.poll(SystemTime::now());
    let report = manager.update_configs(vec![
        tcp_config(1, [127, 0, 0, 1], 8080),
        tcp_config(3, [127, 0, 0, 1], 7070),
    ]);
    assert!(report.started.is_empty());
    assert_eq!(report.stopped, vec![2]);
    assert_eq!(report.active, 2);
    assert_eq!(manager.active_monitors(), 2);
    let result = HealthCheckResult::healthy(ms(1));
    assert!(manager.record_result(2, &result).is_none());
    let poll = manager.poll(SystemTime::now());
    assert!(poll.notifications.iter().all(|n| n.id != 2));
    let mut ids: Vec<u64> = poll.observations.iter().map(|o| o.id).collect();
    ids.sort();
    assert_eq!(ids, vec![1, 3]);
}

#[test]
fn test_manager_updates_existing_healthchecks() {
    let mut manager = Manager::new(ms(500));
    manager.update_configs(vec![tcp_config(1, [127, 0, 0, 1], 8080)]);
    let ok = HealthCheckResult::healthy(ms(4));
    for _ in 0..3 {
        manager.record_result(1, &ok);
    }
    let poll = manager.poll(SystemTime::now());
    assert_eq!(poll.notifications.len(), 1);
    assert_eq!(poll.notifications[0].status.state, State::Healthy);

    let same = manager.update_configs(vec![tcp_config(1, [127, 0, 0, 1], 8080)]);
    assert!(same.started.is_empty());
    assert!(same.stopped.is_empty());
    assert!(manager.poll(SystemTime::now()).notifications.is_empty());

    let mut updated_config = tcp_config(1, [127, 0, 0, 1], 9999);
    updated_config.timeout = ms(200);
    let report = manager.update_configs(vec![updated_config]);
    assert_eq!(report.started, vec![1]);
    assert_eq!(report.stopped, vec![1]);
    assert_eq!(report.active, 1);
    let poll = manager.poll(SystemTime::now());
    assert_eq!(poll.notifications.len(), 1);
    assert_eq!(poll.notifications[0].status.state, State::Unhealthy);
    assert_eq!(poll.notifications[0].status.successes, 0);
}

#[test]
fn test_manager_handles_mixed_checker_types() {
    let mut manager = Manager::new(ms(500));
    let report = manager.update_configs(vec![
        tcp_config(1, [127, 0, 0, 1], 8080),
        http_config(2, [127, 0, 0, 1], 8080, "/health"),
        HealthcheckConfig {
            id: 3,
            interval: Duration::from_secs(1),
            timeout: ms(100),
            retries: 1,
            checker: CheckerConfig::Dns {
                query: "example.com".to_string(),
                expected_ips: vec![IpAddr::V4([93, 184, 216, 34])],
            },
        },
    ]);
    assert_eq!(report.started, vec![1, 2, 3]);
    let poll = manager.poll(SystemTime::now());
    let received = poll.notifications.len();
    assert!(received >= 1, "Expected at least 1 notification, got {}", received);
    let mut tags: Vec<(u64, &str)> =
        poll.observations.iter().map(|o| (o.id, o.checker_type)).collect();
    tags.sort();
    assert_eq!(tags, vec![(1, "tcp"), (2, "http"), (3, "dns")]);
}

#[test]
fn test_manager_status_snapshot() {
    let mut manager = Manager::new(ms(500));
    manager.update_configs(vec![
        tcp_config(1, [127, 0, 0, 1], 8080),
        tcp_config(2, [127, 0, 0, 1], 9090),
    ]);
    manager.record_result(1, &HealthCheckResult::healthy(ms(10)));
    manager.record_result(1, &HealthCheckResult::unhealthy(ms(30), "refused"));
    let now = SystemTime::now();
    let mut statuses = manager.get_statuses(now);
    statuses.sort_by_key(|s| s.0);
    assert_eq!(statuses.len(), 2);
    assert_eq!(statuses[0].0, 1);
    assert_eq!(statuses[0].1.state, State::Unknown);
    assert_eq!(statuses[0].1.successes, 1);
    assert_eq!(statuses[0].1.failures, 1);
    assert_eq!(statuses[0].1.duration, ms(20));
    assert_eq!(statuses[0].1.message, "1/2 checks successful");
    assert_eq!(statuses[0].1.last_check, Some(now));
    assert_eq!(statuses[1].1.message, "0/0 checks successful");
}

#[test]
fn test_manager_handles_empty_config_updates() {
    let mut manager = Manager::new(ms(500));
    assert_eq!(manager.update_configs(vec![]).active, 0);
    assert_eq!(manager.update_configs(vec![tcp_config(1, [127, 0, 0, 1], 8080)]).active, 1);
    let report = manager.update_configs(vec![]);
    assert_eq!(report.active, 0);
    assert!(report.started.is_empty());
    assert_eq!(report.stopped, vec![1]);
    assert!(manager.poll(SystemTime::now()).observations.is_empty());
}

#[test]
fn test_http_200_expected() {
    let mut manager = Manager::new(ms(500));
    manager.update_configs(vec![http_config(2, [127, 0, 0, 1], 8080, "/health")]);
    let checker = match create_checker(&http_config(2, [127, 0, 0, 1], 8080, "/health")) {
        Checker::Http(h) => h,
        _ => panic!("an HTTP check"),
    };
    let ok = checker.evaluate(&seesaw::healthcheck::checkers::HttpOutcome::Response(200), ms(3));
    assert_eq!(ok.status, HealthStatus::Healthy);
    assert_eq!(manager.record_result(2, &ok), Some(None));
    assert_eq!(manager.record_result(2, &ok), Some(Some(Transition::Up)));
    let poll = manager.poll(SystemTime::now());
    assert_eq!(poll.notifications.len(), 1);
    assert_eq!(poll.notifications[0].id, 2);
    assert_eq!(poll.notifications[0].status.state, State::Healthy);
    assert!(poll.notifications[0].status.message.contains("successful"));
    assert_eq!(poll.observations[0].previous_state, State::Unknown);
    assert_eq!(poll.observations[0].new_state, State::Healthy);
    assert!(poll.observations[0].success_recorded);
    assert!(!poll.observations[0].failure_recorded);
    manager.record_result(2, &ok);
    manager.record_result(2, &ok);
    let poll = manager.poll(SystemTime::now());
    assert!(poll.notifications.is_empty());
    assert!(poll.observations[0].success_recorded);
    assert_eq!(poll.observations[0].consecutive_successes, 4);
}

#[test]
fn test_flapping_within_one_poll_reports_latest_state() {
    let mut manager = Manager::new(ms(500));
    manager.update_configs(vec![http_config(9, [127, 0, 0, 1], 8080, "/")]);
    let ok = HealthCheckResult::healthy(ms(1));
    let bad = HealthCheckResult::timeout(ms(100));
    manager.record_result(9, &ok);
    manager.record_result(9, &ok);
    manager.poll(SystemTime::now());
    manager.record_result(9, &bad);
    manager.record_result(9, &bad);
    manager.record_result(9, &ok);
    manager.record_result(9, &ok);
    let poll = manager.poll(SystemTime::now());
    assert!(poll.notifications.is_empty());
    assert!(poll.observations[0].success_recorded);
    manager.record_result(9, &bad);
    manager.record_result(9, &bad);
    let poll = manager.poll(SystemTime::now());
    assert_eq!(poll.notifications.len(), 1);
    assert_eq!(poll.notifications[0].status.state, State::Unhealthy);
}

#[test]
fn test_update_names_what_to_stop() {
    let mut manager = Manager::new(ms(500));
    manager.update_configs(vec![
        tcp_config(1, [127, 0, 0, 1], 8080),
        tcp_config(2, [127, 0, 0, 1], 9090),
        tcp_config(3, [127, 0, 0, 1], 7070),
    ]);
    let report = manager.update_configs(vec![
        tcp_config(3, [127, 0, 0, 1], 7071),
        tcp_config(4, [127, 0, 0, 1], 6060),
        tcp_config(4, [127, 0, 0, 1], 6061),
        tcp_config(1, [127, 0, 0, 1], 8080),
    ]);
    let mut stopped = report.stopped.clone();
    stopped.sort();
    assert_eq!(stopped, vec![2, 3]);
    assert_eq!(report.started, vec![3, 4, 4]);
    assert_eq!(report.active, 3);
}
