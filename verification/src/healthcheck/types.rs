//! Results, configuration and counters of health checks.

use crate::time::Duration;
use vstd::prelude::*;

verus! {

/// Outcome of one health check.
#[derive(Debug, Clone, Copy, PartialEq, Eq, Structural)]
pub enum HealthStatus {
    /// The backend answered as expected.
    Healthy,
    /// The backend answered, but not as expected, or refused.
    Unhealthy,
    /// The check ran into its deadline.
    Timeout,
    /// The check itself failed.
    Error,
}

impl HealthStatus {
    /// The name of the status in capitals.
    pub open spec fn name(self) -> Seq<char> {
        match self {
            HealthStatus::Healthy => "HEALTHY"@,
            HealthStatus::Unhealthy => "UNHEALTHY"@,
            HealthStatus::Timeout => "TIMEOUT"@,
            HealthStatus::Error => "ERROR"@,
        }
    }

    /// The name of the status in capitals, as text.
    pub fn to_string(&self) -> (s: String)
        ensures
            s@ == self.name(),
    {
        match self {
            HealthStatus::Healthy => "HEALTHY".to_owned(),
            HealthStatus::Unhealthy => "UNHEALTHY".to_owned(),
            HealthStatus::Timeout => "TIMEOUT".to_owned(),
            HealthStatus::Error => "ERROR".to_owned(),
        }
    }
}

/// Result of one health check.
#[derive(Debug, Clone)]
pub struct HealthCheckResult {
    /// Outcome of the check.
    pub status: HealthStatus,
    /// How long the check took.
    pub duration: Duration,
    /// What went wrong, if anything did.
    pub message: Option<String>,
    /// The status code of the response, for HTTP checks.
    pub response_code: Option<u16>,
}

/// The mathematical value of a [`HealthCheckResult`].
pub struct ResultView {
    pub status: HealthStatus,
    pub duration: Duration,
    pub message: Option<Seq<char>>,
    pub response_code: Option<u16>,
}

impl View for HealthCheckResult {
    type V = ResultView;

    open spec fn view(&self) -> ResultView {
        ResultView {
            status: self.status,
            duration: self.duration,
            message: match self.message {
                Some(m) => Some(m@),
                None => None,
            },
            response_code: self.response_code,
        }
    }
}

impl HealthCheckResult {
    /// A healthy result: no message, no response code.
    pub fn healthy(duration: Duration) -> (r: Self)
        ensures
            r@ == (ResultView {
                status: HealthStatus::Healthy,
                duration,
                message: None,
                response_code: None,
            }),
    {
        HealthCheckResult {
            status: HealthStatus::Healthy,
            duration,
            message: None,
            response_code: None,
        }
    }

    /// An unhealthy result with the reason.
    pub fn unhealthy(duration: Duration, message: &str) -> (r: Self)
        ensures
            r@ == (ResultView {
                status: HealthStatus::Unhealthy,
                duration,
                message: Some(message@),
                response_code: None,
            }),
    {
        HealthCheckResult {
            status: HealthStatus::Unhealthy,
            duration,
            message: Some(message.to_owned()),
            response_code: None,
        }
    }

    /// A result for a check that ran into its deadline.
    pub fn timeout(duration: Duration) -> (r: Self)
        ensures
            r@ == (ResultView {
                status: HealthStatus::Timeout,
                duration,
                message: Some("Health check timed out"@),
                response_code: None,
            }),
    {
        HealthCheckResult {
            status: HealthStatus::Timeout,
            duration,
            message: Some("Health check timed out".to_owned()),
            response_code: None,
        }
    }

    /// A result for a check that failed to run, with the reason.
    pub fn error(duration: Duration, message: &str) -> (r: Self)
        ensures
            r@ == (ResultView {
                status: HealthStatus::Error,
                duration,
                message: Some(message@),
                response_code: None,
            }),
    {
        HealthCheckResult {
            status: HealthStatus::Error,
            duration,
            message: Some(message.to_owned()),
            response_code: None,
        }
    }

    /// Whether the status is `Healthy`.
    pub fn is_healthy(&self) -> (r: bool)
        ensures
            r == (self.status == HealthStatus::Healthy),
    {
        match self.status {
            HealthStatus::Healthy => true,
            _ => false,
        }
    }
}

/// Counters of one monitor.
///
/// The mean response time is kept exactly, as the sum of all response times
/// in whole milliseconds beside the number of checks.
#[derive(Debug, Clone, Copy, PartialEq, Eq, Structural)]
pub struct HealthCheckStats {
    /// Checks performed.
    pub total_checks: u64,
    /// Checks that were healthy.
    pub successful_checks: u64,
    /// Checks that were unhealthy or failed to run.
    pub failed_checks: u64,
    /// Checks that ran into their deadline.
    pub timeouts: u64,
    /// Sum of the response times of all checks, in milliseconds.
    pub response_time_sum_ms: u128,
    /// Healthy checks since the last check that was not.
    pub consecutive_successes: u32,
    /// Checks that were not healthy since the last healthy one.
    pub consecutive_failures: u32,
}

impl HealthCheckStats {
    /// The counters add up, and at most one streak is running.
    pub open spec fn wf(self) -> bool {
        &&& self.total_checks == self.successful_checks + self.failed_checks + self.timeouts
        &&& !(self.consecutive_successes > 0 && self.consecutive_failures > 0)
        &&& self.consecutive_successes <= self.successful_checks
        &&& self.consecutive_failures <= self.failed_checks + self.timeouts
        &&& self.response_time_sum_ms <= self.total_checks * (u128::MAX / 1_000_000)
    }

    /// The checks add up: every check was a success, a failure or a timeout.
    pub open spec fn adds_up(self) -> bool {
        self.total_checks == self.successful_checks + self.failed_checks + self.timeouts
    }

    /// Whether one more check with this response time can be counted: no
    /// counter, no streak and not the sum of the response times is at the
    /// limit of its type.
    pub open spec fn has_room(self, duration: Duration) -> bool {
        &&& self.total_checks < u64::MAX
        &&& self.successful_checks < u64::MAX
        &&& self.failed_checks < u64::MAX
        &&& self.timeouts < u64::MAX
        &&& self.consecutive_successes < u32::MAX
        &&& self.consecutive_failures < u32::MAX
        &&& self.response_time_sum_ms + duration.millis() <= u128::MAX
    }

    /// The counters after one more check.
    pub open spec fn after(self, status: HealthStatus, duration: Duration) -> HealthCheckStats {
        let counted = HealthCheckStats {
            total_checks: (self.total_checks + 1) as u64,
            response_time_sum_ms: (self.response_time_sum_ms + duration.millis()) as u128,
            ..self
        };
        match status {
            HealthStatus::Healthy => HealthCheckStats {
                successful_checks: (self.successful_checks + 1) as u64,
                consecutive_successes: (self.consecutive_successes + 1) as u32,
                consecutive_failures: 0,
                ..counted
            },
            HealthStatus::Unhealthy | HealthStatus::Error => HealthCheckStats {
                failed_checks: (self.failed_checks + 1) as u64,
                consecutive_failures: (self.consecutive_failures + 1) as u32,
                consecutive_successes: 0,
                ..counted
            },
            HealthStatus::Timeout => HealthCheckStats {
                timeouts: (self.timeouts + 1) as u64,
                consecutive_failures: (self.consecutive_failures + 1) as u32,
                consecutive_successes: 0,
                ..counted
            },
        }
    }

    /// The mean response time in whole milliseconds, 0 before the first check.
    pub open spec fn mean_response_ms(self) -> nat {
        if self.total_checks == 0 {
            0
        } else {
            (self.response_time_sum_ms / self.total_checks as u128) as nat
        }
    }

    /// Counts one check. A healthy result extends the streak of successes
    /// and ends the streak of failures; any other result does the reverse,
    /// so that at most one streak is running afterwards, whatever the
    /// counters held before. Counters that added up keep adding up.
    pub fn update(&mut self, result: &HealthCheckResult)
        requires
            old(self).has_room(result.duration),
        ensures
            *final(self) == old(self).after(result.status, result.duration),
            final(self).total_checks == old(self).total_checks + 1,
            old(self).adds_up() ==> final(self).adds_up(),
            !(final(self).consecutive_successes != 0 && final(self).consecutive_failures != 0),
            old(self).wf() ==> final(self).wf(),
    {
        proof {
            crate::time::lemma_millis_bound(result.duration);
        }
        self.total_checks = self.total_checks + 1;
        match result.status {
            HealthStatus::Healthy => {
                self.successful_checks = self.successful_checks + 1;
                self.consecutive_successes = self.consecutive_successes + 1;
                self.consecutive_failures = 0;
            },
            HealthStatus::Unhealthy | HealthStatus::Error => {
                self.failed_checks = self.failed_checks + 1;
                self.consecutive_failures = self.consecutive_failures + 1;
                self.consecutive_successes = 0;
            },
            HealthStatus::Timeout => {
                self.timeouts = self.timeouts + 1;
                self.consecutive_failures = self.consecutive_failures + 1;
                self.consecutive_successes = 0;
            },
        }
        self.response_time_sum_ms = self.response_time_sum_ms + result.duration.as_millis();
    }

    /// Whether one more check with this response time can be counted.
    pub fn can_count(&self, duration: &Duration) -> (r: bool)
        ensures
            r == self.has_room(*duration),
    {
        self.total_checks < u64::MAX && self.successful_checks < u64::MAX && self.failed_checks
            < u64::MAX && self.timeouts < u64::MAX && self.consecutive_successes < u32::MAX
            && self.consecutive_failures < u32::MAX && duration.as_millis() <= u128::MAX
            - self.response_time_sum_ms
    }

    /// The mean response time in whole milliseconds, 0 before the first check.
    pub fn avg_response_time_ms(&self) -> (ms: u128)
        ensures
            ms == self.mean_response_ms(),
    {
        if self.total_checks == 0 {
            0
        } else {
            self.response_time_sum_ms / (self.total_checks as u128)
        }
    }

    /// The mean response time as a span of whole milliseconds.
    pub fn mean_response(&self) -> (d: Duration)
        requires
            self.wf(),
        ensures
            d == Duration::of_millis(self.mean_response_ms()),
    {
        let ms: u128 = self.avg_response_time_ms();
        assert(ms <= u128::MAX / 1_000_000) by (nonlinear_arith)
            requires
                self.total_checks >= 0,
                self.response_time_sum_ms <= self.total_checks * (u128::MAX / 1_000_000),
                ms == if self.total_checks == 0 {
                    0
                } else {
                    self.response_time_sum_ms as int / self.total_checks as int
                },
        ;
        Duration::from_millis_wide(ms)
    }
}

impl Default for HealthCheckStats {
    fn default() -> (s: Self)
        ensures
            s == (HealthCheckStats {
                total_checks: 0,
                successful_checks: 0,
                failed_checks: 0,
                timeouts: 0,
                response_time_sum_ms: 0,
                consecutive_successes: 0,
                consecutive_failures: 0,
            }),
            s.wf(),
    {
        HealthCheckStats {
            total_checks: 0,
            successful_checks: 0,
            failed_checks: 0,
            timeouts: 0,
            response_time_sum_ms: 0,
            consecutive_successes: 0,
            consecutive_failures: 0,
        }
    }
}

} // verus!

verus! {

/// What a check does.
#[derive(Debug, Clone, PartialEq, Eq)]
pub enum CheckType {
    /// Opens a TCP connection.
    Tcp,
    /// Sends one HTTP or HTTPS request.
    Http {
        /// Request method.
        method: String,
        /// Request path.
        path: String,
        /// Status codes that count as healthy; none means any.
        expected_codes: Vec<u16>,
        /// Whether to use HTTPS.
        https: bool,
    },
    /// Sends an ICMP echo request.
    Ping,
    /// Resolves a name.
    Dns {
        /// The name to resolve.
        query: String,
        /// Addresses of which one must be among the answers; none means any.
        expected_ips: Vec<String>,
    },
}

/// The mathematical value of a [`CheckType`].
pub enum CheckTypeView {
    Tcp,
    Http { method: Seq<char>, path: Seq<char>, expected_codes: Seq<u16>, https: bool },
    Ping,
    Dns { query: Seq<char>, expected_ips: Seq<Seq<char>> },
}

impl View for CheckType {
    type V = CheckTypeView;

    open spec fn view(&self) -> CheckTypeView {
        match self {
            CheckType::Tcp => CheckTypeView::Tcp,
            CheckType::Http { method, path, expected_codes, https } => CheckTypeView::Http {
                method: method@,
                path: path@,
                expected_codes: expected_codes@,
                https: *https,
            },
            CheckType::Ping => CheckTypeView::Ping,
            CheckType::Dns { query, expected_ips } => CheckTypeView::Dns {
                query: query@,
                expected_ips: expected_ips.deep_view(),
            },
        }
    }
}

impl CheckType {
    /// Whether two check types are the same in every field.
    pub fn same_as(&self, other: &CheckType) -> (r: bool)
        ensures
            r == (self@ == other@),
    {
        match (self, other) {
            (CheckType::Tcp, CheckType::Tcp) => true,
            (CheckType::Ping, CheckType::Ping) => true,
            (
                CheckType::Http { method: m1, path: p1, expected_codes: c1, https: h1 },
                CheckType::Http { method: m2, path: p2, expected_codes: c2, https: h2 },
            ) => {
                let same_method: bool = *m1 == *m2;
                let same_path: bool = *p1 == *p2;
                let same_codes: bool = crate::text::codes_equal(c1, c2);
                same_method && same_path && same_codes && *h1 == *h2
            },
            (
                CheckType::Dns { query: q1, expected_ips: e1 },
                CheckType::Dns { query: q2, expected_ips: e2 },
            ) => {
                let same_query: bool = *q1 == *q2;
                let same_ips: bool = crate::text::texts_equal(e1, e2);
                same_query && same_ips
            },
            _ => false,
        }
    }
}

/// Configuration of one monitor.
#[derive(Debug, Clone, PartialEq, Eq)]
pub struct HealthCheckConfig {
    /// The backend, as `address:port`.
    pub target: String,
    /// Deadline of one check.
    pub timeout: Duration,
    /// Time between two checks.
    pub interval: Duration,
    /// Consecutive successes that bring a backend up.
    pub rise: u32,
    /// Consecutive failures that bring a backend down.
    pub fall: u32,
    /// What the check does.
    pub check_type: CheckType,
}

/// The mathematical value of a [`HealthCheckConfig`].
pub struct ConfigView {
    pub target: Seq<char>,
    pub timeout: Duration,
    pub interval: Duration,
    pub rise: u32,
    pub fall: u32,
    pub check_type: CheckTypeView,
}

impl View for HealthCheckConfig {
    type V = ConfigView;

    open spec fn view(&self) -> ConfigView {
        ConfigView {
            target: self.target@,
            timeout: self.timeout,
            interval: self.interval,
            rise: self.rise,
            fall: self.fall,
            check_type: self.check_type@,
        }
    }
}

impl HealthCheckConfig {
    /// Whether two configurations are the same in every field.
    pub fn same_as(&self, other: &HealthCheckConfig) -> (r: bool)
        ensures
            r == (self@ == other@),
    {
        let same_target: bool = self.target == other.target;
        let same_type: bool = self.check_type.same_as(&other.check_type);
        same_target && self.timeout == other.timeout && self.interval == other.interval
            && self.rise == other.rise && self.fall == other.fall && same_type
    }
}

impl Default for HealthCheckConfig {
    fn default() -> (c: Self)
        ensures
            c@ == (ConfigView {
                target: Seq::<char>::empty(),
                timeout: Duration::of_millis(5000),
                interval: Duration::of_millis(10000),
                rise: 2,
                fall: 3,
                check_type: CheckTypeView::Tcp,
            }),
    {
        HealthCheckConfig {
            target: String::new(),
            timeout: Duration::from_secs(5),
            interval: Duration::from_secs(10),
            rise: 2,
            fall: 3,
            check_type: CheckType::Tcp,
        }
    }
}

} // verus!
