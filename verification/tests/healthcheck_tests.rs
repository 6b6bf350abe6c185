use seesaw::ffi::{CHealthCheckResult, CHealthCheckType, CHealthStatus};
use seesaw::healthcheck::checkers::{
    ConnectOutcome, DnsChecker, DnsOutcome, HealthChecker, HttpChecker, HttpMethod, HttpOutcome,
    TcpChecker,
};
use seesaw::healthcheck::monitor::{HealthCheckMonitor, Transition};
use seesaw::healthcheck::types::{
    CheckType, HealthCheckConfig, HealthCheckResult, HealthCheckStats, HealthStatus,
};
use seesaw::net::{IpAddr, SocketAddr};
use seesaw::time::Duration;

fn config(rise: u32, fall: u32) -> HealthCheckConfig {
    HealthCheckConfig {
        target: "127.0.0.1:80".to_string(),
        timeout: Duration::from_secs(1),
        interval: Duration::from_secs(5),
        rise,
        fall,
        check_type: CheckType::Tcp,
    }
}

fn ok(ms: u64) -> HealthCheckResult {
    HealthCheckResult::healthy(Duration::from_millis(ms))
}

fn bad(ms: u64) -> HealthCheckResult {
    HealthCheckResult::unhealthy(Duration::from_millis(ms), "refused")
}

#[test]
fn test_health_status_display() {
    assert_eq!(HealthStatus::Healthy.to_string(), "HEALTHY");
    assert_eq!(HealthStatus::Unhealthy.to_string(), "UNHEALTHY");
    assert_eq!(HealthStatus::Timeout.to_string(), "TIMEOUT");
    assert_eq!(HealthStatus::Error.to_string(), "ERROR");
}

#[test]
fn test_health_check_result() {
    let result = HealthCheckResult::healthy(Duration::from_millis(100));
    assert!(result.is_healthy());
    assert_eq!(result.status, HealthStatus::Healthy);
    assert!(result.message.is_none());
}

#[test]
fn test_result_constructors() {
    let d = Duration::from_millis(7);
    let r = HealthCheckResult::unhealthy(d, "no");
    assert_eq!(r.status, HealthStatus::Unhealthy);
    assert_eq!(r.message.as_deref(), Some("no"));
    assert_eq!(r.duration, d);
    assert!(!r.is_healthy());
    let r = HealthCheckResult::timeout(d);
    assert_eq!(r.status, HealthStatus::Timeout);
    assert_eq!(r.message.as_deref(), Some("Health check timed out"));
    let r = HealthCheckResult::error(d, "boom");
    assert_eq!(r.status, HealthStatus::Error);
    assert_eq!(r.message.as_deref(), Some("boom"));
    assert!(r.response_code.is_none());
}

#[test]
fn test_stats_update() {
    let mut stats = HealthCheckStats::default();

    let result = HealthCheckResult::healthy(Duration::from_millis(100));
    stats.update(&result);

    assert_eq!(stats.total_checks, 1);
    assert_eq!(stats.successful_checks, 1);
    assert_eq!(stats.consecutive_successes, 1);
    assert_eq!(stats.consecutive_failures, 0);
}

#[test]
fn test_stats_counters_add_up() {
    let mut stats = HealthCheckStats::default();
    let results = vec![
        ok(10),
        bad(20),
        HealthCheckResult::timeout(Duration::from_millis(30)),
        HealthCheckResult::error(Duration::from_millis(40), "x"),
        ok(50),
        ok(60),
    ];
    for r in &results {
        stats.update(r);
        assert_eq!(
            stats.total_checks,
            stats.successful_checks + stats.failed_checks + stats.timeouts
        );
        assert!(stats.consecutive_successes == 0 || stats.consecutive_failures == 0);
    }
    assert_eq!(stats.total_checks, 6);
    assert_eq!(stats.successful_checks, 3);
    assert_eq!(stats.failed_checks, 2);
    assert_eq!(stats.timeouts, 1);
    assert_eq!(stats.consecutive_successes, 2);
    assert_eq!(stats.consecutive_failures, 0);
    assert_eq!(stats.response_time_sum_ms, 210);
    assert_eq!(stats.avg_response_time_ms(), 35);
    assert_eq!(stats.mean_response(), Duration::from_millis(35));
}

#[test]
fn test_monitor_creation() {
    let monitor = HealthCheckMonitor::new(config(2, 3));

    assert!(!monitor.is_healthy());

    let stats = monitor.get_stats();
    assert_eq!(stats.total_checks, 0);
}

#[test]
fn test_monitor_lifecycle() {
    let mut monitor = HealthCheckMonitor::new(config(2, 2));
    assert!(monitor.start());
    assert!(!monitor.start());
    monitor.process_result(&bad(1));
    let stats = monitor.get_stats();
    assert!(stats.total_checks > 0);
    assert!(monitor.stop());
    assert!(!monitor.stop());
    assert_eq!(monitor.interval(), Duration::from_secs(5));
}

#[test]
fn test_monitor_hysteresis() {
    let mut monitor = HealthCheckMonitor::new(config(2, 3));
    assert_eq!(monitor.process_result(&ok(1)), None);
    assert!(!monitor.is_healthy());
    assert_eq!(monitor.process_result(&ok(1)), Some(Transition::Up));
    assert!(monitor.is_healthy());
    assert!(monitor.get_stats().consecutive_successes >= 2);
    assert_eq!(monitor.process_result(&ok(1)), None);
    assert_eq!(monitor.process_result(&bad(1)), None);
    assert_eq!(monitor.process_result(&bad(1)), None);
    assert!(monitor.is_healthy());
    assert_eq!(monitor.process_result(&ok(1)), None);
    assert_eq!(monitor.process_result(&bad(1)), None);
    assert_eq!(monitor.process_result(&HealthCheckResult::timeout(Duration::from_millis(5))), None);
    assert_eq!(
        monitor.process_result(&HealthCheckResult::error(Duration::from_millis(5), "e")),
        Some(Transition::Down)
    );
    assert!(!monitor.is_healthy());
    assert!(monitor.get_stats().consecutive_failures >= 3);
    assert_eq!(monitor.process_result(&bad(1)), None);
}

struct Scripted {
    healthy: bool,
}

impl HealthChecker for Scripted {
    fn check(&self) -> HealthCheckResult {
        if self.healthy {
            HealthCheckResult::healthy(Duration::from_millis(3))
        } else {
            HealthCheckResult::timeout(Duration::from_millis(100))
        }
    }

    fn name(&self) -> &str {
        "scripted"
    }
}

#[test]
fn test_tcp_miss() {
    let mut monitor = HealthCheckMonitor::new(config(3, 3));
    let checker = Scripted { healthy: false };
    assert_eq!(checker.name(), "scripted");
    for _ in 0..3 {
        assert_eq!(monitor.run_check(&checker), None);
    }
    let stats = monitor.get_stats();
    assert!(stats.total_checks >= 3);
    assert!(stats.consecutive_failures >= 3);
    assert_eq!(stats.timeouts, 3);
    assert!(!monitor.is_healthy());
    let up = Scripted { healthy: true };
    assert_eq!(monitor.run_check(&up), None);
    assert_eq!(monitor.run_check(&up), None);
    assert_eq!(monitor.run_check(&up), Some(Transition::Up));
}

#[test]
fn test_tcp_checker_evaluate() {
    let target = SocketAddr::new(IpAddr::V4([127, 0, 0, 1]), 1);
    let checker = TcpChecker::new(target, Duration::from_millis(100));
    assert_eq!(checker.name(), "tcp");
    assert_eq!(checker.target(), target);
    assert_eq!(checker.timeout(), Duration::from_millis(100));
    let d = Duration::from_millis(12);
    let r = checker.evaluate(&ConnectOutcome::Connected, d);
    assert_eq!(r.status, HealthStatus::Healthy);
    assert_eq!(r.duration, d);
    let r = checker.evaluate(&ConnectOutcome::Failed("Connection refused".to_string()), d);
    assert_eq!(r.status, HealthStatus::Unhealthy);
    assert_eq!(r.message.as_deref(), Some("Connection failed: Connection refused"));
    let r = checker.evaluate(&ConnectOutcome::TimedOut, d);
    assert_eq!(r.status, HealthStatus::Timeout);
}

#[test]
fn test_http_checker_evaluate() {
    let d = Duration::from_millis(20);
    let checker = HttpChecker::new(
        "http://localhost:1/health".to_string(),
        HttpMethod::Get,
        vec![200, 204],
        Duration::from_millis(100),
    );
    assert_eq!(checker.name(), "http");
    assert_eq!(checker.url(), "http://localhost:1/health");
    assert_eq!(checker.method(), HttpMethod::Get);
    let r = checker.evaluate(&HttpOutcome::Response(204), d);
    assert_eq!(r.status, HealthStatus::Healthy);
    assert_eq!(r.response_code, Some(204));
    let r = checker.evaluate(&HttpOutcome::Response(503), d);
    assert_eq!(r.status, HealthStatus::Unhealthy);
    assert_eq!(r.response_code, Some(503));
    assert_eq!(r.message.as_deref(), Some("Unexpected status code: 503"));
    let r = checker.evaluate(&HttpOutcome::Failed("reset".to_string()), d);
    assert_eq!(r.status, HealthStatus::Error);
    assert_eq!(r.message.as_deref(), Some("HTTP request failed: reset"));
    let r = checker.evaluate(&HttpOutcome::TimedOut, d);
    assert_eq!(r.status, HealthStatus::Timeout);

    let any = HttpChecker::new("u".to_string(), HttpMethod::Head, vec![], Duration::from_millis(1));
    let r = any.evaluate(&HttpOutcome::Response(500), d);
    assert_eq!(r.status, HealthStatus::Healthy);
    assert_eq!(r.response_code, Some(500));
}

#[test]
fn test_http_method_names() {
    assert_eq!(HttpMethod::from_name("get"), HttpMethod::Get);
    assert_eq!(HttpMethod::from_name("post"), HttpMethod::Post);
    assert_eq!(HttpMethod::from_name("Head"), HttpMethod::Head);
    assert_eq!(HttpMethod::from_name("PUT"), HttpMethod::Put);
    assert_eq!(HttpMethod::from_name("dElEtE"), HttpMethod::Delete);
    assert_eq!(HttpMethod::from_name("patch"), HttpMethod::Get);
    assert_eq!(HttpMethod::from_uppercase("post"), HttpMethod::Get);
    assert_eq!(HttpMethod::from_uppercase("POST"), HttpMethod::Post);
    assert_eq!(HttpMethod::Delete.as_str(), "DELETE");
}

#[test]
fn test_dns_checker_evaluate() {
    let d = Duration::from_millis(5);
    let a = IpAddr::V4([10, 0, 0, 1]);
    let b = IpAddr::V4([10, 0, 0, 2]);
    let c = IpAddr::V4([10, 0, 0, 3]);
    let any = DnsChecker::new("localhost".to_string(), vec![], Duration::from_secs(1));
    assert_eq!(any.name(), "dns");
    assert_eq!(any.query(), "localhost");
    assert!(any.evaluate(&DnsOutcome::Resolved(vec![a]), d).is_healthy());
    let r = any.evaluate(&DnsOutcome::Resolved(vec![]), d);
    assert_eq!(r.status, HealthStatus::Unhealthy);
    assert_eq!(r.message.as_deref(), Some("No IPs resolved"));

    let some = DnsChecker::new("x".to_string(), vec![a, b], Duration::from_secs(1));
    assert!(some.evaluate(&DnsOutcome::Resolved(vec![c, b]), d).is_healthy());
    let r = some.evaluate(&DnsOutcome::Resolved(vec![c]), d);
    assert_eq!(r.status, HealthStatus::Unhealthy);
    assert_eq!(r.message.as_deref(), Some("Expected IP not found in DNS results"));
    let r = some.evaluate(&DnsOutcome::Resolved(vec![]), d);
    assert_eq!(r.status, HealthStatus::Unhealthy);
    let r = some.evaluate(&DnsOutcome::Failed("nxdomain".to_string()), d);
    assert_eq!(r.status, HealthStatus::Error);
    assert_eq!(r.message.as_deref(), Some("DNS lookup failed: nxdomain"));
    assert_eq!(some.evaluate(&DnsOutcome::TimedOut, d).status, HealthStatus::Timeout);
}

#[test]
fn test_config_equality() {
    let a = config(2, 3);
    assert!(a.same_as(&config(2, 3)));
    assert!(!a.same_as(&config(2, 4)));
    let mut http = config(2, 3);
    http.check_type = CheckType::Http {
        method: "GET".to_string(),
        path: "/".to_string(),
        expected_codes: vec![200],
        https: false,
    };
    assert!(!a.same_as(&http));
    let mut other = config(2, 3);
    other.check_type = CheckType::Http {
        method: "GET".to_string(),
        path: "/".to_string(),
        expected_codes: vec![200, 201],
        https: false,
    };
    assert!(!http.same_as(&other));
    assert!(http.same_as(&http.clone()));
    let d = HealthCheckConfig::default();
    assert_eq!(d.rise, 2);
    assert_eq!(d.fall, 3);
    assert_eq!(d.timeout, Duration::from_secs(5));
    assert_eq!(d.interval, Duration::from_secs(10));
}

#[test]
fn test_c_types() {
    assert_eq!(CHealthStatus::from(HealthStatus::Timeout), CHealthStatus::Timeout);
    assert_eq!(CHealthStatus::from(HealthStatus::Error).code(), 3);
    assert_eq!(CHealthCheckType::from_code(3), Some(CHealthCheckType::Dns));
    assert_eq!(CHealthCheckType::from_code(4), None);
    let mut r = HealthCheckResult::healthy(Duration::from_millis(42));
    r.response_code = Some(200);
    let c = CHealthCheckResult::from_result(&r);
    assert_eq!(c.status, CHealthStatus::Healthy);
    assert_eq!(c.duration_ms, 42);
    assert_eq!(c.response_code, 200);
    let c = CHealthCheckResult::from_result(&bad(1));
    assert_eq!(c.response_code, 0);
}
