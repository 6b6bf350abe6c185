//! The three kinds of check: what each makes of the outcome of its probe.
//!
//! A checker holds what to probe and what to expect. The probe itself — the
//! connect, the request, the lookup — is done by the caller, under the
//! checker's timeout; the checker turns its outcome into a result.

use crate::healthcheck::types::{HealthCheckResult, HealthStatus, ResultView};
use crate::net::{IpAddr, SocketAddr};
use crate::text::{decimal, decimal_spec, text_equals, to_uppercase, uppercase_spec};
use crate::time::Duration;
use vstd::prelude::*;
use vstd::string::StringExecFns;

verus! {

/// Something that can check a backend.
pub trait HealthChecker {
    /// Performs one health check.
    fn check(&self) -> HealthCheckResult;

    /// The name of this kind of checker.
    fn name(&self) -> &str;
}

/// How an attempt to connect ended.
#[derive(Debug, Clone, PartialEq, Eq)]
pub enum ConnectOutcome {
    /// The connection was established.
    Connected,
    /// The connection failed, with the text of the error.
    Failed(String),
    /// The deadline passed first.
    TimedOut,
}

/// How an HTTP request ended.
#[derive(Debug, Clone, PartialEq, Eq)]
pub enum HttpOutcome {
    /// A response arrived, with its status code.
    Response(u16),
    /// The request failed in transport, with the text of the error.
    Failed(String),
    /// The deadline passed first.
    TimedOut,
}

/// How a name lookup ended.
#[derive(Debug, Clone, PartialEq, Eq)]
pub enum DnsOutcome {
    /// The resolver answered with these addresses.
    Resolved(Vec<IpAddr>),
    /// The resolver failed, with the text of the error.
    Failed(String),
    /// The deadline passed first.
    TimedOut,
}

/// The method of an HTTP check.
#[derive(Debug, Clone, Copy, PartialEq, Eq, Structural)]
pub enum HttpMethod {
    Get,
    Post,
    Head,
    Put,
    Delete,
}

/// The method that a name in upper case stands for; GET for any name that is
/// none of the five.
pub open spec fn method_of(upper: Seq<char>) -> HttpMethod {
    if upper == "POST"@ {
        HttpMethod::Post
    } else if upper == "HEAD"@ {
        HttpMethod::Head
    } else if upper == "PUT"@ {
        HttpMethod::Put
    } else if upper == "DELETE"@ {
        HttpMethod::Delete
    } else {
        HttpMethod::Get
    }
}

impl HttpMethod {
    /// The name of the method in capitals.
    pub open spec fn name(self) -> Seq<char> {
        match self {
            HttpMethod::Get => "GET"@,
            HttpMethod::Post => "POST"@,
            HttpMethod::Head => "HEAD"@,
            HttpMethod::Put => "PUT"@,
            HttpMethod::Delete => "DELETE"@,
        }
    }

    /// The method that a name already in upper case stands for.
    pub fn from_uppercase(upper: &str) -> (m: HttpMethod)
        ensures
            m == method_of(upper@),
    {
        if text_equals(upper, "POST") {
            HttpMethod::Post
        } else if text_equals(upper, "HEAD") {
            HttpMethod::Head
        } else if text_equals(upper, "PUT") {
            HttpMethod::Put
        } else if text_equals(upper, "DELETE") {
            HttpMethod::Delete
        } else {
            HttpMethod::Get
        }
    }

    /// The method that a name stands for, whatever its case.
    pub fn from_name(name: &str) -> (m: HttpMethod)
        ensures
            m == method_of(uppercase_spec(name@)),
    {
        let upper: String = to_uppercase(name);
        HttpMethod::from_uppercase(upper.as_str())
    }

    /// The name of the method in capitals, as text.
    pub fn as_str(&self) -> (s: &'static str)
        ensures
            s@ == self.name(),
    {
        match self {
            HttpMethod::Get => "GET",
            HttpMethod::Post => "POST",
            HttpMethod::Head => "HEAD",
            HttpMethod::Put => "PUT",
            HttpMethod::Delete => "DELETE",
        }
    }
}

/// A check that connects to a TCP port.
#[derive(Debug, Clone)]
pub struct TcpChecker {
    target: SocketAddr,
    timeout_duration: Duration,
}

/// What a TCP check reports for the outcome of its connect.
pub open spec fn tcp_result(outcome: ConnectOutcome, elapsed: Duration) -> ResultView {
    match outcome {
        ConnectOutcome::Connected => ResultView {
            status: HealthStatus::Healthy,
            duration: elapsed,
            message: None,
            response_code: None,
        },
        ConnectOutcome::Failed(e) => ResultView {
            status: HealthStatus::Unhealthy,
            duration: elapsed,
            message: Some("Connection failed: "@ + e@),
            response_code: None,
        },
        ConnectOutcome::TimedOut => ResultView {
            status: HealthStatus::Timeout,
            duration: elapsed,
            message: Some("Health check timed out"@),
            response_code: None,
        },
    }
}

impl TcpChecker {
    /// The address to connect to.
    pub closed spec fn target_spec(&self) -> SocketAddr {
        self.target
    }

    /// The deadline of the connect.
    pub closed spec fn timeout_spec(&self) -> Duration {
        self.timeout_duration
    }

    /// A TCP check of `target` with the given deadline.
    pub fn new(target: SocketAddr, timeout_duration: Duration) -> (c: Self)
        ensures
            c.target_spec() == target,
            c.timeout_spec() == timeout_duration,
    {
        TcpChecker { target, timeout_duration }
    }

    /// The address to connect to.
    pub fn target(&self) -> (t: SocketAddr)
        ensures
            t == self.target_spec(),
    {
        self.target
    }

    /// The deadline of the connect.
    pub fn timeout(&self) -> (d: Duration)
        ensures
            d == self.timeout_spec(),
    {
        self.timeout_duration
    }

    /// The name of this kind of checker.
    pub fn name(&self) -> (n: &'static str)
        ensures
            n@ == "tcp"@,
    {
        "tcp"
    }

    /// The result of a check whose connect ended as `outcome` after
    /// `elapsed`: connected is healthy, the deadline is a timeout, any other
    /// error is unhealthy with its text.
    pub fn evaluate(&self, outcome: &ConnectOutcome, elapsed: Duration) -> (r: HealthCheckResult)
        ensures
            r@ == tcp_result(*outcome, elapsed),
    {
        match outcome {
            ConnectOutcome::Connected => HealthCheckResult::healthy(elapsed),
            ConnectOutcome::Failed(e) => {
                let mut message: String = "Connection failed: ".to_owned();
                message.append(e.as_str());
                HealthCheckResult::unhealthy(elapsed, message.as_str())
            },
            ConnectOutcome::TimedOut => HealthCheckResult::timeout(elapsed),
        }
    }
}

/// A check that sends one HTTP request.
#[derive(Debug, Clone)]
pub struct HttpChecker {
    url: String,
    method: HttpMethod,
    expected_codes: Vec<u16>,
    timeout_duration: Duration,
}

/// Whether a status code is one that the check expects: any code when it
/// expects none in particular.
pub open spec fn code_expected(expected: Seq<u16>, code: u16) -> bool {
    expected.len() == 0 || expected.contains(code)
}

/// What an HTTP check reports for the outcome of its request.
pub open spec fn http_result(expected: Seq<u16>, outcome: HttpOutcome, elapsed: Duration)
    -> ResultView {
    match outcome {
        HttpOutcome::Response(code) => if code_expected(expected, code) {
            ResultView {
                status: HealthStatus::Healthy,
                duration: elapsed,
                message: None,
                response_code: Some(code),
            }
        } else {
            ResultView {
                status: HealthStatus::Unhealthy,
                duration: elapsed,
                message: Some("Unexpected status code: "@ + decimal_spec(code as nat)),
                response_code: Some(code),
            }
        },
        HttpOutcome::Failed(e) => ResultView {
            status: HealthStatus::Error,
            duration: elapsed,
            message: Some("HTTP request failed: "@ + e@),
            response_code: None,
        },
        HttpOutcome::TimedOut => ResultView {
            status: HealthStatus::Timeout,
            duration: elapsed,
            message: Some("Health check timed out"@),
            response_code: None,
        },
    }
}

impl HttpChecker {
    /// The address of the request.
    pub closed spec fn url_spec(&self) -> Seq<char> {
        self.url@
    }

    /// The method of the request.
    pub closed spec fn method_spec(&self) -> HttpMethod {
        self.method
    }

    /// The status codes that count as healthy.
    pub closed spec fn expected_spec(&self) -> Seq<u16> {
        self.expected_codes@
    }

    /// The deadline of the request.
    pub closed spec fn timeout_spec(&self) -> Duration {
        self.timeout_duration
    }

    /// An HTTP check of `url`.
    pub fn new(
        url: String,
        method: HttpMethod,
        expected_codes: Vec<u16>,
        timeout_duration: Duration,
    ) -> (c: Self)
        ensures
            c.url_spec() == url@,
            c.method_spec() == method,
            c.expected_spec() == expected_codes@,
            c.timeout_spec() == timeout_duration,
    {
        HttpChecker { url, method, expected_codes, timeout_duration }
    }

    /// The address of the request.
    pub fn url(&self) -> (u: &str)
        ensures
            u@ == self.url_spec(),
    {
        self.url.as_str()
    }

    /// The method of the request.
    pub fn method(&self) -> (m: HttpMethod)
        ensures
            m == self.method_spec(),
    {
        self.method
    }

    /// The deadline of the request.
    pub fn timeout(&self) -> (d: Duration)
        ensures
            d == self.timeout_spec(),
    {
        self.timeout_duration
    }

    /// The name of this kind of checker.
    pub fn name(&self) -> (n: &'static str)
        ensures
            n@ == "http"@,
    {
        "http"
    }

    /// The result of a check whose request ended as `outcome` after
    /// `elapsed`: a response is healthy if its status code is expected and
    /// unhealthy if not, either way with the code; a transport error is an
    /// error; the deadline is a timeout.
    pub fn evaluate(&self, outcome: &HttpOutcome, elapsed: Duration) -> (r: HealthCheckResult)
        ensures
            r@ == http_result(self.expected_spec(), *outcome, elapsed),
    {
        match outcome {
            HttpOutcome::Response(code) => {
                let code: u16 = *code;
                let mut expected: bool = self.expected_codes.len() == 0;
                let mut i: usize = 0;
                while i < self.expected_codes.len()
                    invariant
                        i <= self.expected_codes@.len(),
                        expected == (self.expected_codes@.len() == 0 || exists|k: int|
                            0 <= k < i && self.expected_codes@[k] == code),
                    decreases self.expected_codes@.len() - i,
                {
                    if self.expected_codes[i] == code {
                        expected = true;
                    }
                    i += 1;
                }
                assert(expected == code_expected(self.expected_codes@, code));
                if expected {
                    let mut result = HealthCheckResult::healthy(elapsed);
                    result.response_code = Some(code);
                    result
                } else {
                    let mut message: String = "Unexpected status code: ".to_owned();
                    let digits: String = decimal(code as u64);
                    message.append(digits.as_str());
                    let mut result = HealthCheckResult::unhealthy(elapsed, message.as_str());
                    result.response_code = Some(code);
                    result
                }
            },
            HttpOutcome::Failed(e) => {
                let mut message: String = "HTTP request failed: ".to_owned();
                message.append(e.as_str());
                HealthCheckResult::error(elapsed, message.as_str())
            },
            HttpOutcome::TimedOut => HealthCheckResult::timeout(elapsed),
        }
    }
}

/// A check that resolves a name.
#[derive(Debug, Clone)]
pub struct DnsChecker {
    query: String,
    expected_ips: Vec<IpAddr>,
    timeout_duration: Duration,
}

/// Whether the two lists of addresses have one in common.
pub open spec fn share_address(expected: Seq<IpAddr>, resolved: Seq<IpAddr>) -> bool {
    exists|i: int, j: int|
        0 <= i < expected.len() && 0 <= j < resolved.len() && expected[i] == resolved[j]
}

/// Whether a lookup that answered with `resolved` satisfies the check: any
/// address, if none is expected in particular, else one of those expected.
pub open spec fn dns_satisfied(expected: Seq<IpAddr>, resolved: Seq<IpAddr>) -> bool {
    if expected.len() == 0 {
        resolved.len() > 0
    } else {
        share_address(expected, resolved)
    }
}

/// What a DNS check reports for the outcome of its lookup.
pub open spec fn dns_result(expected: Seq<IpAddr>, outcome: DnsOutcome, elapsed: Duration)
    -> ResultView {
    match outcome {
        DnsOutcome::Resolved(ips) => if dns_satisfied(expected, ips@) {
            ResultView {
                status: HealthStatus::Healthy,
                duration: elapsed,
                message: None,
                response_code: None,
            }
        } else {
            ResultView {
                status: HealthStatus::Unhealthy,
                duration: elapsed,
                message: Some(
                    if expected.len() == 0 {
                        "No IPs resolved"@
                    } else {
                        "Expected IP not found in DNS results"@
                    },
                ),
                response_code: None,
            }
        },
        DnsOutcome::Failed(e) => ResultView {
            status: HealthStatus::Error,
            duration: elapsed,
            message: Some("DNS lookup failed: "@ + e@),
            response_code: None,
        },
        DnsOutcome::TimedOut => ResultView {
            status: HealthStatus::Timeout,
            duration: elapsed,
            message: Some("Health check timed out"@),
            response_code: None,
        },
    }
}

/// Whether `ip` is among `ips`.
fn contains_address(ips: &Vec<IpAddr>, ip: &IpAddr) -> (r: bool)
    ensures
        r == exists|j: int| 0 <= j < ips@.len() && ips@[j] == *ip,
{
    let mut j: usize = 0;
    while j < ips.len()
        invariant
            j <= ips@.len(),
            forall|k: int| 0 <= k < j ==> ips@[k] != *ip,
        decreases ips@.len() - j,
    {
        if ips[j].same_as(ip) {
            return true;
        }
        j += 1;
    }
    false
}

impl DnsChecker {
    /// The name to resolve.
    pub closed spec fn query_spec(&self) -> Seq<char> {
        self.query@
    }

    /// The addresses of which one must be among the answers.
    pub closed spec fn expected_spec(&self) -> Seq<IpAddr> {
        self.expected_ips@
    }

    /// The deadline of the lookup.
    pub closed spec fn timeout_spec(&self) -> Duration {
        self.timeout_duration
    }

    /// A DNS check of `query`.
    pub fn new(query: String, expected_ips: Vec<IpAddr>, timeout_duration: Duration) -> (c: Self)
        ensures
            c.query_spec() == query@,
            c.expected_spec() == expected_ips@,
            c.timeout_spec() == timeout_duration,
    {
        DnsChecker { query, expected_ips, timeout_duration }
    }

    /// The name to resolve.
    pub fn query(&self) -> (q: &str)
        ensures
            q@ == self.query_spec(),
    {
        self.query.as_str()
    }

    /// The deadline of the lookup.
    pub fn timeout(&self) -> (d: Duration)
        ensures
            d == self.timeout_spec(),
    {
        self.timeout_duration
    }

    /// The name of this kind of checker.
    pub fn name(&self) -> (n: &'static str)
        ensures
            n@ == "dns"@,
    {
        "dns"
    }

    /// The result of a check whose lookup ended as `outcome` after
    /// `elapsed`. With no expected addresses, any answer is healthy; with
    /// some, an answer is healthy if it holds one of them. A resolver error
    /// is an error; the deadline is a timeout.
    pub fn evaluate(&self, outcome: &DnsOutcome, elapsed: Duration) -> (r: HealthCheckResult)
        ensures
            r@ == dns_result(self.expected_spec(), *outcome, elapsed),
    {
        match outcome {
            DnsOutcome::Resolved(resolved) => {
                if self.expected_ips.len() == 0 {
                    if resolved.len() > 0 {
                        HealthCheckResult::healthy(elapsed)
                    } else {
                        HealthCheckResult::unhealthy(elapsed, "No IPs resolved")
                    }
                } else {
                    let mut found: bool = false;
                    let mut i: usize = 0;
                    while i < self.expected_ips.len()
                        invariant
                            i <= self.expected_ips@.len(),
                            found == share_address(
                                self.expected_ips@.take(i as int),
                                resolved@,
                            ),
                        decreases self.expected_ips@.len() - i,
                    {
                        let here: bool = contains_address(resolved, &self.expected_ips[i]);
                        proof {
                            let before = self.expected_ips@.take(i as int);
                            let after = self.expected_ips@.take(i + 1);
                            if here {
                                let j = choose|j: int|
                                    0 <= j < resolved@.len() && resolved@[j]
                                        == self.expected_ips@[i as int];
                                assert(after[i as int] == resolved@[j]);
                            }
                            if share_address(before, resolved@) {
                                let (a, b) = choose|a: int, b: int|
                                    0 <= a < before.len() && 0 <= b < resolved@.len() && before[a]
                                        == resolved@[b];
                                assert(after[a] == resolved@[b]);
                            }
                            if share_address(after, resolved@) && !here {
                                let (a, b) = choose|a: int, b: int|
                                    0 <= a < after.len() && 0 <= b < resolved@.len() && after[a]
                                        == resolved@[b];
                                assert(a < i);
                                assert(before[a] == resolved@[b]);
                            }
                        }
                        if here {
                            found = true;
                        }
                        i += 1;
                    }
                    assert(self.expected_ips@.take(i as int) =~= self.expected_ips@);
                    if found {
                        HealthCheckResult::healthy(elapsed)
                    } else {
                        HealthCheckResult::unhealthy(elapsed, "Expected IP not found in DNS results")
                    }
                }
            },
            DnsOutcome::Failed(e) => {
                let mut message: String = "DNS lookup failed: ".to_owned();
                message.append(e.as_str());
                HealthCheckResult::error(elapsed, message.as_str())
            },
            DnsOutcome::TimedOut => HealthCheckResult::timeout(elapsed),
        }
    }
}

} // verus!
