//! Services and destinations of IPVS.

use crate::net::IpAddr;
use crate::text::{decimal, decimal_spec, text_equals};
use vstd::prelude::*;
use vstd::string::StringExecFns;

verus! {

/// Version of IPVS.
#[derive(Debug, Clone, Copy, PartialEq, Eq, Structural)]
pub struct IPVSVersion {
    pub major: u32,
    pub minor: u32,
    pub patch: u32,
}

impl IPVSVersion {
    /// The version that the kernel packs into one number: major, minor and
    /// patch in the three low bytes.
    pub open spec fn of_number(v: u32) -> IPVSVersion {
        IPVSVersion {
            major: ((v / 0x1_0000) % 256) as u32,
            minor: ((v / 0x100) % 256) as u32,
            patch: (v % 256) as u32,
        }
    }

    /// The version that the kernel packs into one number.
    pub fn from_number(v: u32) -> (version: IPVSVersion)
        ensures
            version == IPVSVersion::of_number(v),
    {
        IPVSVersion { major: (v / 0x1_0000) % 256, minor: (v / 0x100) % 256, patch: v % 256 }
    }

    /// The version as `major.minor.patch`.
    pub open spec fn text_spec(self) -> Seq<char> {
        decimal_spec(self.major as nat) + "."@ + decimal_spec(self.minor as nat) + "."@
            + decimal_spec(self.patch as nat)
    }

    /// The version as `major.minor.patch`.
    pub fn to_string(&self) -> (s: String)
        ensures
            s@ == self.text_spec(),
    {
        let mut s: String = decimal(self.major as u64);
        s.append(".");
        s.append(decimal(self.minor as u64).as_str());
        s.append(".");
        s.append(decimal(self.patch as u64).as_str());
        s
    }
}

/// IP protocol of a service.
#[derive(Debug, Clone, Copy, PartialEq, Eq, Structural)]
pub enum Protocol {
    TCP,
    UDP,
    SCTP,
    Other(u8),
}

impl Protocol {
    /// The number of the protocol: 6, 17, 132, or as given.
    pub open spec fn number_spec(self) -> u16 {
        match self {
            Protocol::TCP => 6,
            Protocol::UDP => 17,
            Protocol::SCTP => 132,
            Protocol::Other(n) => n as u16,
        }
    }

    /// The number of the protocol.
    pub fn number(&self) -> (n: u16)
        ensures
            n == self.number_spec(),
    {
        match self {
            Protocol::TCP => 6,
            Protocol::UDP => 17,
            Protocol::SCTP => 132,
            Protocol::Other(n) => *n as u16,
        }
    }

    /// The protocol of a number: the named one for 6, 17 and 132.
    pub open spec fn of_number(n: u8) -> Protocol {
        if n == 6 {
            Protocol::TCP
        } else if n == 17 {
            Protocol::UDP
        } else if n == 132 {
            Protocol::SCTP
        } else {
            Protocol::Other(n)
        }
    }

    /// The protocol of a number.
    pub fn from_number(n: u8) -> (p: Protocol)
        ensures
            p == Protocol::of_number(n),
            p.number_spec() == n,
    {
        if n == 6 {
            Protocol::TCP
        } else if n == 17 {
            Protocol::UDP
        } else if n == 132 {
            Protocol::SCTP
        } else {
            Protocol::Other(n)
        }
    }

    /// The name of the protocol; `IP(n)` for one without a name.
    pub open spec fn text_spec(self) -> Seq<char> {
        match self {
            Protocol::TCP => "TCP"@,
            Protocol::UDP => "UDP"@,
            Protocol::SCTP => "SCTP"@,
            Protocol::Other(n) => "IP("@ + decimal_spec(n as nat) + ")"@,
        }
    }

    /// The name of the protocol.
    pub fn to_string(&self) -> (s: String)
        ensures
            s@ == self.text_spec(),
    {
        match self {
            Protocol::TCP => "TCP".to_owned(),
            Protocol::UDP => "UDP".to_owned(),
            Protocol::SCTP => "SCTP".to_owned(),
            Protocol::Other(n) => {
                let mut s: String = "IP(".to_owned();
                s.append(decimal(*n as u64).as_str());
                s.append(")");
                s
            },
        }
    }
}

/// Scheduling algorithm of a service.
#[derive(Debug, Clone, PartialEq, Eq)]
pub enum Scheduler {
    RoundRobin,
    WeightedRoundRobin,
    LeastConnection,
    WeightedLeastConnection,
    SourceHashing,
    MaglevHashing,
    Other(String),
}

/// The scheduler that a name stands for, by the name that it goes back to.
pub enum SchedulerView {
    RoundRobin,
    WeightedRoundRobin,
    LeastConnection,
    WeightedLeastConnection,
    SourceHashing,
    MaglevHashing,
    Other(Seq<char>),
}

impl View for Scheduler {
    type V = SchedulerView;

    open spec fn view(&self) -> SchedulerView {
        match self {
            Scheduler::RoundRobin => SchedulerView::RoundRobin,
            Scheduler::WeightedRoundRobin => SchedulerView::WeightedRoundRobin,
            Scheduler::LeastConnection => SchedulerView::LeastConnection,
            Scheduler::WeightedLeastConnection => SchedulerView::WeightedLeastConnection,
            Scheduler::SourceHashing => SchedulerView::SourceHashing,
            Scheduler::MaglevHashing => SchedulerView::MaglevHashing,
            Scheduler::Other(s) => SchedulerView::Other(s@),
        }
    }
}

impl SchedulerView {
    /// The name of the scheduler as the kernel knows it.
    pub open spec fn name(self) -> Seq<char> {
        match self {
            SchedulerView::RoundRobin => "rr"@,
            SchedulerView::WeightedRoundRobin => "wrr"@,
            SchedulerView::LeastConnection => "lc"@,
            SchedulerView::WeightedLeastConnection => "wlc"@,
            SchedulerView::SourceHashing => "sh"@,
            SchedulerView::MaglevHashing => "mh"@,
            SchedulerView::Other(s) => s,
        }
    }

    /// The scheduler that a name stands for.
    pub open spec fn of_name(name: Seq<char>) -> SchedulerView {
        if name == "rr"@ {
            SchedulerView::RoundRobin
        } else if name == "wrr"@ {
            SchedulerView::WeightedRoundRobin
        } else if name == "lc"@ {
            SchedulerView::LeastConnection
        } else if name == "wlc"@ {
            SchedulerView::WeightedLeastConnection
        } else if name == "sh"@ {
            SchedulerView::SourceHashing
        } else if name == "mh"@ {
            SchedulerView::MaglevHashing
        } else {
            SchedulerView::Other(name)
        }
    }
}

impl Scheduler {
    /// The name of the scheduler as the kernel knows it.
    pub fn to_string(&self) -> (s: String)
        ensures
            s@ == self@.name(),
    {
        match self {
            Scheduler::RoundRobin => "rr".to_owned(),
            Scheduler::WeightedRoundRobin => "wrr".to_owned(),
            Scheduler::LeastConnection => "lc".to_owned(),
            Scheduler::WeightedLeastConnection => "wlc".to_owned(),
            Scheduler::SourceHashing => "sh".to_owned(),
            Scheduler::MaglevHashing => "mh".to_owned(),
            Scheduler::Other(s) => s.clone(),
        }
    }

    /// The scheduler that a name stands for.
    pub fn from_name(name: &str) -> (s: Scheduler)
        ensures
            s@ == SchedulerView::of_name(name@),
    {
        if text_equals(name, "rr") {
            Scheduler::RoundRobin
        } else if text_equals(name, "wrr") {
            Scheduler::WeightedRoundRobin
        } else if text_equals(name, "lc") {
            Scheduler::LeastConnection
        } else if text_equals(name, "wlc") {
            Scheduler::WeightedLeastConnection
        } else if text_equals(name, "sh") {
            Scheduler::SourceHashing
        } else if text_equals(name, "mh") {
            Scheduler::MaglevHashing
        } else {
            Scheduler::Other(name.to_owned())
        }
    }
}

/// Flags of a service.
#[derive(Debug, Clone, Copy, PartialEq, Eq, Structural)]
pub struct ServiceFlags(pub u32);

impl ServiceFlags {
    pub const PERSISTENT: u32 = 0x1;

    pub const HASHED: u32 = 0x2;

    pub const ONE_PACKET: u32 = 0x4;

    pub const SCHED_SH_FALLBACK: u32 = 0x8;

    pub const SCHED_SH_PORT: u32 = 0x10;

    pub const SCHED_MH_FALLBACK: u32 = 0x8;

    pub const SCHED_MH_PORT: u32 = 0x10;
}

impl Default for ServiceFlags {
    fn default() -> (f: Self)
        ensures
            f == ServiceFlags(0),
    {
        ServiceFlags(0)
    }
}

/// How packets reach a destination.
#[derive(Debug, Clone, Copy, PartialEq, Eq, Structural)]
pub enum DestinationFlags {
    /// Network address translation.
    Masq,
    /// Local delivery.
    Local,
    /// IP-in-IP tunnel.
    Tunnel,
    /// Direct routing: the destination answers the client itself.
    Route,
    /// Bypass of a cache cluster.
    Bypass,
}

impl DestinationFlags {
    /// The number of the forwarding method on the wire.
    pub open spec fn code_spec(self) -> u32 {
        match self {
            DestinationFlags::Masq => 0,
            DestinationFlags::Local => 1,
            DestinationFlags::Tunnel => 2,
            DestinationFlags::Route => 3,
            DestinationFlags::Bypass => 4,
        }
    }

    /// The number of the forwarding method on the wire.
    pub fn code(&self) -> (c: u32)
        ensures
            c == self.code_spec(),
    {
        match self {
            DestinationFlags::Masq => 0,
            DestinationFlags::Local => 1,
            DestinationFlags::Tunnel => 2,
            DestinationFlags::Route => 3,
            DestinationFlags::Bypass => 4,
        }
    }

    /// The forwarding method of a number; direct routing for a number that
    /// names none.
    pub open spec fn of_code(code: u8) -> DestinationFlags {
        if code == 0 {
            DestinationFlags::Masq
        } else if code == 1 {
            DestinationFlags::Local
        } else if code == 2 {
            DestinationFlags::Tunnel
        } else if code == 4 {
            DestinationFlags::Bypass
        } else {
            DestinationFlags::Route
        }
    }

    /// The forwarding method of a number.
    pub fn from_code(code: u8) -> (f: DestinationFlags)
        ensures
            f == DestinationFlags::of_code(code),
    {
        if code == 0 {
            DestinationFlags::Masq
        } else if code == 1 {
            DestinationFlags::Local
        } else if code == 2 {
            DestinationFlags::Tunnel
        } else if code == 4 {
            DestinationFlags::Bypass
        } else {
            DestinationFlags::Route
        }
    }
}

/// Statistics of a service.
#[derive(Debug, Clone, Copy, PartialEq, Eq, Structural)]
pub struct ServiceStats {
    pub connections: u32,
    pub packets_in: u32,
    pub packets_out: u32,
    pub bytes_in: u64,
    pub bytes_out: u64,
    pub cps: u32,
    pub pps_in: u32,
    pub pps_out: u32,
    pub bps_in: u32,
    pub bps_out: u32,
}

impl Default for ServiceStats {
    fn default() -> (s: Self)
        ensures
            s == (ServiceStats {
                connections: 0,
                packets_in: 0,
                packets_out: 0,
                bytes_in: 0,
                bytes_out: 0,
                cps: 0,
                pps_in: 0,
                pps_out: 0,
                bps_in: 0,
                bps_out: 0,
            }),
    {
        ServiceStats {
            connections: 0,
            packets_in: 0,
            packets_out: 0,
            bytes_in: 0,
            bytes_out: 0,
            cps: 0,
            pps_in: 0,
            pps_out: 0,
            bps_in: 0,
            bps_out: 0,
        }
    }
}

/// Statistics of a destination.
#[derive(Debug, Clone, Copy, PartialEq, Eq, Structural)]
pub struct DestinationStats {
    pub connections: u32,
    pub packets_in: u32,
    pub packets_out: u32,
    pub bytes_in: u64,
    pub bytes_out: u64,
    pub cps: u32,
    pub pps_in: u32,
    pub pps_out: u32,
    pub bps_in: u32,
    pub bps_out: u32,
    pub active_conns: u32,
    pub inactive_conns: u32,
    pub persist_conns: u32,
}

impl Default for DestinationStats {
    fn default() -> (s: Self)
        ensures
            s == (DestinationStats {
                connections: 0,
                packets_in: 0,
                packets_out: 0,
                bytes_in: 0,
                bytes_out: 0,
                cps: 0,
                pps_in: 0,
                pps_out: 0,
                bps_in: 0,
                bps_out: 0,
                active_conns: 0,
                inactive_conns: 0,
                persist_conns: 0,
            }),
    {
        DestinationStats {
            connections: 0,
            packets_in: 0,
            packets_out: 0,
            bytes_in: 0,
            bytes_out: 0,
            cps: 0,
            pps_in: 0,
            pps_out: 0,
            bps_in: 0,
            bps_out: 0,
            active_conns: 0,
            inactive_conns: 0,
            persist_conns: 0,
        }
    }
}

/// A virtual service.
#[derive(Debug, Clone)]
pub struct Service {
    /// Virtual address.
    pub address: IpAddr,
    /// IP protocol.
    pub protocol: Protocol,
    /// Virtual port.
    pub port: u16,
    /// Firewall mark; if not 0, it identifies the service in place of
    /// address, protocol and port.
    pub fwmark: u32,
    /// Scheduling algorithm.
    pub scheduler: Scheduler,
    /// Flags.
    pub flags: ServiceFlags,
    /// Timeout of persistent connections.
    pub timeout: u32,
    /// Name of the persistence engine.
    pub persistence_engine: Option<String>,
    /// Statistics, as read from the kernel.
    pub statistics: ServiceStats,
}

/// A destination: a real server behind a service.
#[derive(Debug, Clone)]
pub struct Destination {
    /// Address of the real server.
    pub address: IpAddr,
    /// Port of the real server.
    pub port: u16,
    /// Weight in the scheduling.
    pub weight: u32,
    /// How packets reach the destination.
    pub flags: DestinationFlags,
    /// Lower connection threshold.
    pub lower_threshold: u32,
    /// Upper connection threshold.
    pub upper_threshold: u32,
    /// Statistics, as read from the kernel.
    pub statistics: DestinationStats,
}

impl Service {
    /// The service in one line: `FWM mark (scheduler)` for a service that a
    /// firewall mark identifies, else `protocol address:port (scheduler)`.
    pub open spec fn text_spec(&self) -> Seq<char> {
        if self.fwmark > 0 {
            "FWM "@ + decimal_spec(self.fwmark as nat) + " ("@ + self.scheduler@.name() + ")"@
        } else {
            self.protocol.text_spec() + " "@ + self.address.text_spec() + ":"@ + decimal_spec(
                self.port as nat,
            ) + " ("@ + self.scheduler@.name() + ")"@
        }
    }

    /// The service in one line.
    pub fn to_string(&self) -> (s: String)
        ensures
            s@ == self.text_spec(),
    {
        if self.fwmark > 0 {
            let mut s: String = "FWM ".to_owned();
            s.append(decimal(self.fwmark as u64).as_str());
            s.append(" (");
            s.append(self.scheduler.to_string().as_str());
            s.append(")");
            s
        } else {
            let mut s: String = self.protocol.to_string();
            s.append(" ");
            s.append(self.address.to_text().as_str());
            s.append(":");
            s.append(decimal(self.port as u64).as_str());
            s.append(" (");
            s.append(self.scheduler.to_string().as_str());
            s.append(")");
            s
        }
    }

    /// Whether a destination can stand behind this service: its address is
    /// of the family of the service.
    pub fn accepts(&self, destination: &Destination) -> (r: bool)
        ensures
            r == self.address.same_family(destination.address),
    {
        self.address.is_ipv4() == destination.address.is_ipv4()
    }
}

impl Destination {
    /// The destination as `address:port`.
    pub open spec fn text_spec(&self) -> Seq<char> {
        self.address.text_spec() + ":"@ + decimal_spec(self.port as nat)
    }

    /// The destination as `address:port`.
    pub fn to_string(&self) -> (s: String)
        ensures
            s@ == self.text_spec(),
    {
        let mut s: String = self.address.to_text();
        s.append(":");
        s.append(decimal(self.port as u64).as_str());
        s
    }
}

} // verus!
