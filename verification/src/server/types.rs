//! Messages and configuration of the health-check server.

use crate::healthcheck::types::{CheckType, CheckTypeView, ConfigView, HealthCheckConfig};
use crate::net::{IpAddr, SocketAddr};
use crate::time::Duration;
use std::time::SystemTime;
use vstd::prelude::*;

verus! {

/// `std::time::SystemTime`, a point in time on the system clock, opaque to
/// the verifier.
#[verifier::external_type_specification]
#[verifier::external_body]
pub struct ExSystemTime(std::time::SystemTime);

/// Identifier of a health check, assigned by the control agent.
pub type HealthcheckId = u64;

/// Configuration of the server.
#[derive(Debug, Clone)]
pub struct ServerConfig {
    /// Longest time that a notification waits for its batch.
    pub batch_delay: Duration,
    /// Largest number of notifications in one batch.
    pub batch_size: usize,
    /// Capacity of the notification queue.
    pub channel_size: usize,
    /// Failed notifications after which the server gives up.
    pub max_failures: usize,
    /// Time between two status notifications.
    pub notify_interval: Duration,
    /// Time between two fetches of the configuration.
    pub fetch_interval: Duration,
    /// Time before an attempt is repeated after a failure.
    pub retry_delay: Duration,
    /// Path of the socket of the control agent.
    pub proxy_socket: String,
    /// Capacity of the queue of configuration updates.
    pub config_channel_size: usize,
    /// Capacity of the queue of messages from the control agent.
    pub proxy_channel_size: usize,
    /// Time between two polls of the monitors.
    pub manager_monitor_interval: Duration,
}

impl Default for ServerConfig {
    fn default() -> (c: Self)
        ensures
            c.batch_delay == Duration::of_millis(100),
            c.batch_size == 100,
            c.channel_size == 1000,
            c.max_failures == 10,
            c.notify_interval == Duration::of_millis(15000),
            c.fetch_interval == Duration::of_millis(15000),
            c.retry_delay == Duration::of_millis(2000),
            c.proxy_socket@ == "/var/run/seesaw/healthcheck-proxy.sock"@,
            c.config_channel_size == 10,
            c.proxy_channel_size == 10,
            c.manager_monitor_interval == Duration::of_millis(500),
    {
        ServerConfig {
            batch_delay: Duration::from_millis(100),
            batch_size: 100,
            channel_size: 1000,
            max_failures: 10,
            notify_interval: Duration::from_secs(15),
            fetch_interval: Duration::from_secs(15),
            retry_delay: Duration::from_secs(2),
            proxy_socket: "/var/run/seesaw/healthcheck-proxy.sock".to_owned(),
            config_channel_size: 10,
            proxy_channel_size: 10,
            manager_monitor_interval: Duration::from_millis(500),
        }
    }
}

/// State of a backend as last reported.
#[derive(Debug, Clone, Copy, PartialEq, Eq, Structural)]
pub enum State {
    /// Nothing has been reported yet.
    Unknown,
    /// The backend is down.
    Unhealthy,
    /// The backend is up.
    Healthy,
}

impl State {
    /// The state that an up/down flag stands for.
    pub open spec fn of_up(up: bool) -> State {
        if up {
            State::Healthy
        } else {
            State::Unhealthy
        }
    }
}

/// Status of one health check.
#[derive(Debug, Clone)]
pub struct Status {
    /// When the status was taken.
    pub last_check: Option<SystemTime>,
    /// Mean response time of the checks.
    pub duration: Duration,
    /// Number of failed checks.
    pub failures: u64,
    /// Number of successful checks.
    pub successes: u64,
    /// State of the backend.
    pub state: State,
    /// A line of text for the operator.
    pub message: String,
}

/// The mathematical value of a [`Status`].
pub struct StatusView {
    pub last_check: Option<SystemTime>,
    pub duration: Duration,
    pub failures: u64,
    pub successes: u64,
    pub state: State,
    pub message: Seq<char>,
}

impl View for Status {
    type V = StatusView;

    open spec fn view(&self) -> StatusView {
        StatusView {
            last_check: self.last_check,
            duration: self.duration,
            failures: self.failures,
            successes: self.successes,
            state: self.state,
            message: self.message@,
        }
    }
}

/// A change of state of one health check, for the control agent.
#[derive(Debug, Clone)]
pub struct Notification {
    /// The health check.
    pub id: HealthcheckId,
    /// Its status after the change.
    pub status: Status,
}

/// The mathematical value of a [`Notification`].
pub struct NotificationView {
    pub id: HealthcheckId,
    pub status: StatusView,
}

impl View for Notification {
    type V = NotificationView;

    open spec fn view(&self) -> NotificationView {
        NotificationView { id: self.id, status: self.status@ }
    }
}

/// Notifications that travel together, oldest first.
#[derive(Debug, Clone)]
pub struct NotificationBatch {
    /// The notifications, in the order in which they were raised.
    pub notifications: Vec<Notification>,
}

/// A message from the control agent.
#[derive(Debug, Clone)]
pub enum ProxyToServerMsg {
    /// The full set of health checks that are wanted from now on.
    UpdateConfigs { configs: Vec<HealthcheckConfig> },
    /// Asks for the status of all health checks.
    RequestStatus,
    /// Asks the server to stop.
    Shutdown,
}

/// A message to the control agent.
#[derive(Debug, Clone)]
pub enum ServerToProxyMsg {
    /// Changes of state.
    NotificationBatch { batch: NotificationBatch },
    /// Answer to a request for status.
    StatusResponse { statuses: Vec<(HealthcheckId, Status)> },
    /// The server is ready; the first message on every connection.
    Ready,
    /// Something went wrong.
    Error { message: String },
}

/// What one health check probes.
#[derive(Debug, Clone)]
pub enum CheckerConfig {
    /// A TCP port.
    Tcp { ip: IpAddr, port: u16 },
    /// An HTTP or HTTPS resource.
    Http {
        ip: IpAddr,
        port: u16,
        method: String,
        path: String,
        expected_codes: Vec<u16>,
        secure: bool,
    },
    /// A name in the DNS.
    Dns { query: String, expected_ips: Vec<IpAddr> },
}

/// One health check as the control agent configures it.
#[derive(Debug, Clone)]
pub struct HealthcheckConfig {
    /// Identifier of the check.
    pub id: HealthcheckId,
    /// Time between two checks.
    pub interval: Duration,
    /// Deadline of one check.
    pub timeout: Duration,
    /// Retries before the state changes.
    pub retries: u32,
    /// What to probe.
    pub checker: CheckerConfig,
}

/// The rise and fall threshold for a number of retries: one more than the
/// retries, and at least 2.
pub open spec fn threshold_spec(retries: u32) -> int {
    if retries + 1 < 2 {
        2
    } else {
        retries + 1
    }
}

/// The texts of addresses, in order.
pub open spec fn address_texts(ips: Seq<IpAddr>) -> Seq<Seq<char>> {
    Seq::new(ips.len(), |i: int| ips[i].text_spec())
}

/// The mathematical value of a [`CheckerConfig`].
pub enum CheckerView {
    Tcp { ip: IpAddr, port: u16 },
    Http {
        ip: IpAddr,
        port: u16,
        method: Seq<char>,
        path: Seq<char>,
        expected_codes: Seq<u16>,
        secure: bool,
    },
    Dns { query: Seq<char>, expected_ips: Seq<IpAddr> },
}

impl View for CheckerConfig {
    type V = CheckerView;

    open spec fn view(&self) -> CheckerView {
        match self {
            CheckerConfig::Tcp { ip, port } => CheckerView::Tcp { ip: *ip, port: *port },
            CheckerConfig::Http {
                ip,
                port,
                method,
                path,
                expected_codes,
                secure,
            } => CheckerView::Http {
                ip: *ip,
                port: *port,
                method: method@,
                path: path@,
                expected_codes: expected_codes@,
                secure: *secure,
            },
            CheckerConfig::Dns { query, expected_ips } => CheckerView::Dns {
                query: query@,
                expected_ips: expected_ips@,
            },
        }
    }
}

impl CheckerView {
    /// The tag of the kind of checker: "tcp", "http" or "dns".
    pub open spec fn tag(self) -> Seq<char> {
        match self {
            CheckerView::Tcp { .. } => "tcp"@,
            CheckerView::Http { .. } => "http"@,
            CheckerView::Dns { .. } => "dns"@,
        }
    }

    /// The target that a monitor of this checker names.
    pub open spec fn target(self) -> Seq<char> {
        match self {
            CheckerView::Tcp { ip, port } => (SocketAddr { ip, port }).text_spec(),
            CheckerView::Http { ip, port, .. } => (SocketAddr { ip, port }).text_spec(),
            CheckerView::Dns { .. } => "0.0.0.0:53"@,
        }
    }

    /// The check type of a monitor of this checker.
    pub open spec fn check_type(self) -> CheckTypeView {
        match self {
            CheckerView::Tcp { .. } => CheckTypeView::Tcp,
            CheckerView::Http { method, path, expected_codes, secure, .. } => CheckTypeView::Http {
                method,
                path,
                expected_codes,
                https: secure,
            },
            CheckerView::Dns { query, expected_ips } => CheckTypeView::Dns {
                query,
                expected_ips: address_texts(expected_ips),
            },
        }
    }
}

/// The mathematical value of a [`HealthcheckConfig`].
pub struct HealthcheckConfigView {
    pub id: HealthcheckId,
    pub interval: Duration,
    pub timeout: Duration,
    pub retries: u32,
    pub checker: CheckerView,
}

impl View for HealthcheckConfig {
    type V = HealthcheckConfigView;

    open spec fn view(&self) -> HealthcheckConfigView {
        HealthcheckConfigView {
            id: self.id,
            interval: self.interval,
            timeout: self.timeout,
            retries: self.retries,
            checker: self.checker@,
        }
    }
}

impl HealthcheckConfigView {
    /// The configuration of the monitor that runs this check.
    pub open spec fn monitor_config(self) -> ConfigView {
        ConfigView {
            target: self.checker.target(),
            timeout: self.timeout,
            interval: self.interval,
            rise: threshold_spec(self.retries) as u32,
            fall: threshold_spec(self.retries) as u32,
            check_type: self.checker.check_type(),
        }
    }
}

impl CheckerConfig {
    /// The tag of the kind of checker.
    pub fn checker_type(&self) -> (tag: &'static str)
        ensures
            tag@ == self@.tag(),
    {
        match self {
            CheckerConfig::Tcp { .. } => "tcp",
            CheckerConfig::Http { .. } => "http",
            CheckerConfig::Dns { .. } => "dns",
        }
    }

    /// A copy of this checker configuration.
    pub fn duplicate(&self) -> (c: CheckerConfig)
        ensures
            c@ == self@,
    {
        match self {
            CheckerConfig::Tcp { ip, port } => CheckerConfig::Tcp { ip: *ip, port: *port },
            CheckerConfig::Http {
                ip,
                port,
                method,
                path,
                expected_codes,
                secure,
            } => CheckerConfig::Http {
                ip: *ip,
                port: *port,
                method: method.clone(),
                path: path.clone(),
                expected_codes: copy_codes(expected_codes),
                secure: *secure,
            },
            CheckerConfig::Dns { query, expected_ips } => {
                let mut ips: Vec<IpAddr> = Vec::new();
                let mut i: usize = 0;
                while i < expected_ips.len()
                    invariant
                        i <= expected_ips@.len(),
                        ips@ == expected_ips@.take(i as int),
                    decreases expected_ips@.len() - i,
                {
                    ips.push(expected_ips[i]);
                    assert(ips@ =~= expected_ips@.take(i + 1));
                    i += 1;
                }
                assert(expected_ips@.take(i as int) =~= expected_ips@);
                CheckerConfig::Dns { query: query.clone(), expected_ips: ips }
            },
        }
    }
}

fn copy_codes(codes: &Vec<u16>) -> (r: Vec<u16>)
    ensures
        r@ == codes@,
{
    let mut r: Vec<u16> = Vec::new();
    let mut i: usize = 0;
    while i < codes.len()
        invariant
            i <= codes@.len(),
            r@ == codes@.take(i as int),
        decreases codes@.len() - i,
    {
        r.push(codes[i]);
        assert(r@ =~= codes@.take(i + 1));
        i += 1;
    }
    assert(codes@.take(i as int) =~= codes@);
    r
}

impl HealthcheckConfig {
    /// A copy of this configuration.
    pub fn duplicate(&self) -> (c: HealthcheckConfig)
        ensures
            c@ == self@,
    {
        HealthcheckConfig {
            id: self.id,
            interval: self.interval,
            timeout: self.timeout,
            retries: self.retries,
            checker: self.checker.duplicate(),
        }
    }

    /// The configuration of the monitor that runs this check. Rise and fall
    /// are one more than the retries, and at least 2.
    pub fn to_monitor_config(&self) -> (c: HealthCheckConfig)
        requires
            self.retries < u32::MAX,
        ensures
            c@ == self@.monitor_config(),
            c.rise >= 2,
            c.fall >= 2,
    {
        let threshold: u32 = if self.retries + 1 < 2 {
            2
        } else {
            self.retries + 1
        };
        match &self.checker {
            CheckerConfig::Tcp { ip, port } => HealthCheckConfig {
                target: SocketAddr::new(*ip, *port).to_text(),
                timeout: self.timeout,
                interval: self.interval,
                rise: threshold,
                fall: threshold,
                check_type: CheckType::Tcp,
            },
            CheckerConfig::Http { ip, port, method, path, expected_codes, secure } => {
                HealthCheckConfig {
                    target: SocketAddr::new(*ip, *port).to_text(),
                    timeout: self.timeout,
                    interval: self.interval,
                    rise: threshold,
                    fall: threshold,
                    check_type: CheckType::Http {
                        method: method.clone(),
                        path: path.clone(),
                        expected_codes: copy_codes(expected_codes),
                        https: *secure,
                    },
                }
            },
            CheckerConfig::Dns { query, expected_ips } => {
                let mut texts: Vec<String> = Vec::new();
                let mut i: usize = 0;
                while i < expected_ips.len()
                    invariant
                        i <= expected_ips@.len(),
                        texts@.len() == i,
                        forall|j: int| 0 <= j < i ==> texts@[j]@ == expected_ips@[j].text_spec(),
                    decreases expected_ips@.len() - i,
                {
                    texts.push(expected_ips[i].to_text());
                    i += 1;
                }
                assert(texts.deep_view() =~= address_texts(expected_ips@));
                HealthCheckConfig {
                    target: "0.0.0.0:53".to_owned(),
                    timeout: self.timeout,
                    interval: self.interval,
                    rise: threshold,
                    fall: threshold,
                    check_type: CheckType::Dns { query: query.clone(), expected_ips: texts },
                }
            },
        }
    }
}

} // verus!
