//! The plain types that foreign callers exchange with the library, and how
//! they map to the types of the library.

use crate::healthcheck::types::{HealthCheckResult, HealthStatus};
use crate::ipvs::types::{Destination, DestinationFlags, DestinationStats, IPVSVersion};
use crate::ipvs::wire::{u16_bytes, u16_value, u32_bytes, ByteOrder};
use crate::net::IpAddr;
use crate::vrrp::types::{VRRPState, VRRPStats};
use vstd::prelude::*;

verus! {

/// Kind of a health check.
#[derive(Debug, Clone, Copy, PartialEq, Eq, Structural)]
pub enum CHealthCheckType {
    Tcp,
    Http,
    Ping,
    Dns,
}

impl CHealthCheckType {
    /// The kind of check that a number stands for: 0 to 3.
    pub open spec fn of_code(code: u8) -> Option<CHealthCheckType> {
        if code == 0 {
            Some(CHealthCheckType::Tcp)
        } else if code == 1 {
            Some(CHealthCheckType::Http)
        } else if code == 2 {
            Some(CHealthCheckType::Ping)
        } else if code == 3 {
            Some(CHealthCheckType::Dns)
        } else {
            None
        }
    }

    /// The kind of check that a number stands for.
    pub fn from_code(code: u8) -> (t: Option<CHealthCheckType>)
        ensures
            t == CHealthCheckType::of_code(code),
    {
        if code == 0 {
            Some(CHealthCheckType::Tcp)
        } else if code == 1 {
            Some(CHealthCheckType::Http)
        } else if code == 2 {
            Some(CHealthCheckType::Ping)
        } else if code == 3 {
            Some(CHealthCheckType::Dns)
        } else {
            None
        }
    }
}

/// Outcome of a health check.
#[derive(Debug, Clone, Copy, PartialEq, Eq, Structural)]
pub enum CHealthStatus {
    Healthy,
    Unhealthy,
    Timeout,
    Error,
}

impl CHealthStatus {
    /// The outcome for foreign callers.
    pub open spec fn of_status(status: HealthStatus) -> CHealthStatus {
        match status {
            HealthStatus::Healthy => CHealthStatus::Healthy,
            HealthStatus::Unhealthy => CHealthStatus::Unhealthy,
            HealthStatus::Timeout => CHealthStatus::Timeout,
            HealthStatus::Error => CHealthStatus::Error,
        }
    }

    /// The number of the outcome: 0 to 3.
    pub fn code(&self) -> (c: u8)
        ensures
            c == match *self {
                CHealthStatus::Healthy => 0u8,
                CHealthStatus::Unhealthy => 1u8,
                CHealthStatus::Timeout => 2u8,
                CHealthStatus::Error => 3u8,
            },
    {
        match self {
            CHealthStatus::Healthy => 0,
            CHealthStatus::Unhealthy => 1,
            CHealthStatus::Timeout => 2,
            CHealthStatus::Error => 3,
        }
    }
}

impl From<HealthStatus> for CHealthStatus {
    fn from(status: HealthStatus) -> (c: Self) {
        match status {
            HealthStatus::Healthy => CHealthStatus::Healthy,
            HealthStatus::Unhealthy => CHealthStatus::Unhealthy,
            HealthStatus::Timeout => CHealthStatus::Timeout,
            HealthStatus::Error => CHealthStatus::Error,
        }
    }
}

impl vstd::std_specs::convert::FromSpecImpl<HealthStatus> for CHealthStatus {
    open spec fn obeys_from_spec() -> bool {
        true
    }

    open spec fn from_spec(status: HealthStatus) -> CHealthStatus {
        CHealthStatus::of_status(status)
    }
}

/// Result of one health check, for foreign callers.
#[derive(Debug, Clone, Copy, PartialEq, Eq, Structural)]
pub struct CHealthCheckResult {
    /// Outcome.
    pub status: CHealthStatus,
    /// Duration in whole milliseconds.
    pub duration_ms: u64,
    /// Status code of the response, 0 if there is none.
    pub response_code: u16,
}

impl CHealthCheckResult {
    /// The result for foreign callers: the outcome, the duration in whole
    /// milliseconds, cut to 64 bits, and the status code or 0.
    pub fn from_result(result: &HealthCheckResult) -> (c: Self)
        ensures
            c.status == CHealthStatus::of_status(result.status),
            c.duration_ms == result.duration.millis() % 0x1_0000_0000_0000_0000,
            c.response_code == match result.response_code {
                Some(code) => code,
                None => 0u16,
            },
    {
        let millis: u128 = result.duration.as_millis();
        CHealthCheckResult {
            status: match result.status {
                HealthStatus::Healthy => CHealthStatus::Healthy,
                HealthStatus::Unhealthy => CHealthStatus::Unhealthy,
                HealthStatus::Timeout => CHealthStatus::Timeout,
                HealthStatus::Error => CHealthStatus::Error,
            },
            duration_ms: (millis % 0x1_0000_0000_0000_0000) as u64,
            response_code: match result.response_code {
                Some(code) => code,
                None => 0,
            },
        }
    }
}

/// A destination, for foreign callers.
#[derive(Debug, Clone, Copy, PartialEq, Eq, Structural)]
pub struct CDestination {
    /// IPv4 address, laid out in memory in network byte order.
    pub address: u32,
    /// Port, laid out in memory in network byte order.
    pub port: u16,
    /// Weight.
    pub weight: u32,
    /// Forwarding method: 0 Masq, 1 Local, 2 Tunnel, 3 Route, 4 Bypass.
    pub fwd_method: u8,
    /// Lower connection threshold.
    pub lower_threshold: u32,
    /// Upper connection threshold.
    pub upper_threshold: u32,
}

impl CDestination {
    /// The address: the four bytes of the field as they lie in memory.
    pub open spec fn address_spec(&self, order: ByteOrder) -> IpAddr {
        let b = u32_bytes(order, self.address);
        IpAddr::V4([b[0], b[1], b[2], b[3]])
    }

    /// The port: the number that the two bytes of the field spell as they
    /// lie in memory, most significant first.
    pub open spec fn port_spec(&self, order: ByteOrder) -> u16 {
        u16_value(ByteOrder::Big, u16_bytes(order, self.port))
    }

    /// The destination on a machine of the given byte order. A forwarding
    /// method that no number names counts as direct routing.
    pub fn to_destination(&self, order: ByteOrder) -> (d: Destination)
        ensures
            d.address == self.address_spec(order),
            d.port == self.port_spec(order),
            d.weight == self.weight,
            d.flags == DestinationFlags::of_code(self.fwd_method),
            d.lower_threshold == self.lower_threshold,
            d.upper_threshold == self.upper_threshold,
            d.statistics == (DestinationStats {
                connections: 0,
                packets_in: 0,
                packets_out: 0,
                bytes_in: 0,
                bytes_out: 0,
                cps: 0,
                pps_in: 0,
                pps_out: 0,
                bps_in: 0,
                bps_out: 0,
                active_conns: 0,
                inactive_conns: 0,
                persist_conns: 0,
            }),
    {
        let mut address_bytes: Vec<u8> = Vec::new();
        crate::ipvs::wire::push_u32(&mut address_bytes, order, self.address);
        let mut port_bytes: Vec<u8> = Vec::new();
        crate::ipvs::wire::push_u16(&mut port_bytes, order, self.port);
        assert(address_bytes@ =~= u32_bytes(order, self.address));
        assert(port_bytes@ =~= u16_bytes(order, self.port));
        assert(port_bytes@.subrange(0, 2) =~= port_bytes@);
        Destination {
            address: IpAddr::V4(
                [address_bytes[0], address_bytes[1], address_bytes[2], address_bytes[3]],
            ),
            port: crate::ipvs::wire::read_u16(ByteOrder::Big, port_bytes.as_slice(), 0),
            weight: self.weight,
            flags: DestinationFlags::from_code(self.fwd_method),
            lower_threshold: self.lower_threshold,
            upper_threshold: self.upper_threshold,
            statistics: DestinationStats::default(),
        }
    }
}

/// Version of IPVS, for foreign callers.
#[derive(Debug, Clone, Copy, PartialEq, Eq, Structural)]
pub struct CVersion {
    pub major: u32,
    pub minor: u32,
    pub patch: u32,
}

impl From<IPVSVersion> for CVersion {
    fn from(version: IPVSVersion) -> (c: Self) {
        CVersion { major: version.major, minor: version.minor, patch: version.patch }
    }
}

impl vstd::std_specs::convert::FromSpecImpl<IPVSVersion> for CVersion {
    open spec fn obeys_from_spec() -> bool {
        true
    }

    open spec fn from_spec(version: IPVSVersion) -> CVersion {
        CVersion { major: version.major, minor: version.minor, patch: version.patch }
    }
}

/// Error codes for foreign callers.
#[derive(Debug, Clone, Copy, PartialEq, Eq, Structural)]
pub enum IpvsError {
    Success,
    NullPointer,
    InvalidUtf8,
    IpvsError,
    NetlinkError,
    Unknown,
}

impl IpvsError {
    /// The number of the error.
    pub open spec fn code_spec(self) -> i32 {
        match self {
            IpvsError::Success => 0i32,
            IpvsError::NullPointer => -1i32,
            IpvsError::InvalidUtf8 => -2i32,
            IpvsError::IpvsError => -3i32,
            IpvsError::NetlinkError => -4i32,
            IpvsError::Unknown => -99i32,
        }
    }

    /// The number of the error.
    pub fn code(&self) -> (c: i32)
        ensures
            c == self.code_spec(),
    {
        match self {
            IpvsError::Success => 0i32,
            IpvsError::NullPointer => -1i32,
            IpvsError::InvalidUtf8 => -2i32,
            IpvsError::IpvsError => -3i32,
            IpvsError::NetlinkError => -4i32,
            IpvsError::Unknown => -99i32,
        }
    }

    /// The text that goes with the number of an error.
    pub open spec fn text_of(code: i32) -> Seq<char> {
        if code == 0 {
            "Success"@
        } else if code == -1 {
            "Null pointer"@
        } else if code == -2 {
            "Invalid UTF-8"@
        } else if code == -3 {
            "IPVS error"@
        } else if code == -4 {
            "Netlink error"@
        } else {
            "Unknown error"@
        }
    }

    /// The text that goes with the number of an error.
    pub fn error_string(code: i32) -> (s: &'static str)
        ensures
            s@ == IpvsError::text_of(code),
    {
        if code == 0 {
            "Success"
        } else if code == -1 {
            "Null pointer"
        } else if code == -2 {
            "Invalid UTF-8"
        } else if code == -3 {
            "IPVS error"
        } else if code == -4 {
            "Netlink error"
        } else {
            "Unknown error"
        }
    }
}

/// State of a virtual router, for foreign callers.
#[derive(Debug, Clone, Copy, PartialEq, Eq, Structural)]
pub enum CVrrpState {
    Init,
    Backup,
    Master,
}

impl CVrrpState {
    /// The state for foreign callers.
    pub open spec fn of_state(state: VRRPState) -> CVrrpState {
        match state {
            VRRPState::Init => CVrrpState::Init,
            VRRPState::Backup => CVrrpState::Backup,
            VRRPState::Master => CVrrpState::Master,
        }
    }
}

impl From<VRRPState> for CVrrpState {
    fn from(state: VRRPState) -> (c: Self) {
        match state {
            VRRPState::Init => CVrrpState::Init,
            VRRPState::Backup => CVrrpState::Backup,
            VRRPState::Master => CVrrpState::Master,
        }
    }
}

impl vstd::std_specs::convert::FromSpecImpl<VRRPState> for CVrrpState {
    open spec fn obeys_from_spec() -> bool {
        true
    }

    open spec fn from_spec(state: VRRPState) -> CVrrpState {
        CVrrpState::of_state(state)
    }
}

/// Counters of a virtual router, for foreign callers.
#[derive(Debug, Clone, Copy, PartialEq, Eq, Structural)]
pub struct CVrrpStats {
    pub master_transitions: u64,
    pub backup_transitions: u64,
    pub adverts_sent: u64,
    pub adverts_received: u64,
    pub invalid_adverts: u64,
    pub priority_zero_received: u64,
    pub checksum_errors: u64,
}

impl CVrrpStats {
    /// The counters for foreign callers.
    pub open spec fn of_stats(stats: VRRPStats) -> CVrrpStats {
        CVrrpStats {
            master_transitions: stats.master_transitions,
            backup_transitions: stats.backup_transitions,
            adverts_sent: stats.adverts_sent,
            adverts_received: stats.adverts_received,
            invalid_adverts: stats.invalid_adverts,
            priority_zero_received: stats.priority_zero_received,
            checksum_errors: stats.checksum_errors,
        }
    }
}

impl From<VRRPStats> for CVrrpStats {
    fn from(stats: VRRPStats) -> (c: Self) {
        CVrrpStats {
            master_transitions: stats.master_transitions,
            backup_transitions: stats.backup_transitions,
            adverts_sent: stats.adverts_sent,
            adverts_received: stats.adverts_received,
            invalid_adverts: stats.invalid_adverts,
            priority_zero_received: stats.priority_zero_received,
            checksum_errors: stats.checksum_errors,
        }
    }
}

impl vstd::std_specs::convert::FromSpecImpl<VRRPStats> for CVrrpStats {
    open spec fn obeys_from_spec() -> bool {
        true
    }

    open spec fn from_spec(stats: VRRPStats) -> CVrrpStats {
        CVrrpStats::of_stats(stats)
    }
}

} // verus!
