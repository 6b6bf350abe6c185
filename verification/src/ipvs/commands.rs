//! Commands and attribute numbers of the IPVS generic netlink family, as
//! the kernel defines them.

use vstd::prelude::*;

verus! {

/// Commands of the IPVS family.
#[derive(Debug, Clone, Copy, PartialEq, Eq, Structural)]
pub enum IPVSCommand {
    /// Get the version and the size of the connection table.
    GetInfo,
    /// Add a virtual service.
    NewService,
    /// Modify a virtual service.
    SetService,
    /// Delete a virtual service.
    DelService,
    /// Get one virtual service, or all of them.
    GetService,
    /// Add a destination to a service.
    NewDest,
    /// Modify a destination.
    SetDest,
    /// Delete a destination.
    DelDest,
    /// Get the destinations of a service.
    GetDest,
    /// Delete all virtual services.
    Flush,
    /// Start a sync daemon.
    NewDaemon,
    /// Stop a sync daemon.
    DelDaemon,
    /// Get the sync daemons.
    GetDaemon,
    /// Set the timeouts.
    SetTimeout,
    /// Get the timeouts.
    GetTimeout,
    /// Set the configuration.
    SetConfig,
    /// Get the configuration.
    GetConfig,
}

impl IPVSCommand {
    /// The number of the command on the wire.
    pub open spec fn code_spec(self) -> u8 {
        match self {
            IPVSCommand::GetInfo => 1,
            IPVSCommand::NewService => 2,
            IPVSCommand::SetService => 3,
            IPVSCommand::DelService => 4,
            IPVSCommand::GetService => 5,
            IPVSCommand::NewDest => 6,
            IPVSCommand::SetDest => 7,
            IPVSCommand::DelDest => 8,
            IPVSCommand::GetDest => 9,
            IPVSCommand::Flush => 10,
            IPVSCommand::NewDaemon => 11,
            IPVSCommand::DelDaemon => 12,
            IPVSCommand::GetDaemon => 13,
            IPVSCommand::SetTimeout => 14,
            IPVSCommand::GetTimeout => 15,
            IPVSCommand::SetConfig => 16,
            IPVSCommand::GetConfig => 17,
        }
    }

    /// The number of the command on the wire.
    pub fn code(self) -> (c: u8)
        ensures
            c == self.code_spec(),
    {
        match self {
            IPVSCommand::GetInfo => 1,
            IPVSCommand::NewService => 2,
            IPVSCommand::SetService => 3,
            IPVSCommand::DelService => 4,
            IPVSCommand::GetService => 5,
            IPVSCommand::NewDest => 6,
            IPVSCommand::SetDest => 7,
            IPVSCommand::DelDest => 8,
            IPVSCommand::GetDest => 9,
            IPVSCommand::Flush => 10,
            IPVSCommand::NewDaemon => 11,
            IPVSCommand::DelDaemon => 12,
            IPVSCommand::GetDaemon => 13,
            IPVSCommand::SetTimeout => 14,
            IPVSCommand::GetTimeout => 15,
            IPVSCommand::SetConfig => 16,
            IPVSCommand::GetConfig => 17,
        }
    }
}

impl From<IPVSCommand> for u8 {
    fn from(cmd: IPVSCommand) -> (c: u8) {
        cmd.code()
    }
}

impl vstd::std_specs::convert::FromSpecImpl<IPVSCommand> for u8 {
    open spec fn obeys_from_spec() -> bool {
        true
    }

    open spec fn from_spec(cmd: IPVSCommand) -> u8 {
        cmd.code_spec()
    }
}

/// Top-level attributes of a message.
#[derive(Debug, Clone, Copy, PartialEq, Eq, Structural)]
pub enum IPVSAttr {
    Unspec,
    /// A service, as nested attributes.
    Service,
    /// A destination, as nested attributes.
    Dest,
    /// A sync daemon, as nested attributes.
    Daemon,
    /// Timeout of TCP connections.
    TimeoutTCP,
    /// Timeout of TCP connections after FIN.
    TimeoutTCPFin,
    /// Timeout of UDP.
    TimeoutUDP,
    /// Connections of the sync daemon.
    DaemonSyncConnections,
}

impl IPVSAttr {
    /// The number of the attribute on the wire.
    pub open spec fn code_spec(self) -> u16 {
        match self {
            IPVSAttr::Unspec => 0,
            IPVSAttr::Service => 1,
            IPVSAttr::Dest => 2,
            IPVSAttr::Daemon => 3,
            IPVSAttr::TimeoutTCP => 4,
            IPVSAttr::TimeoutTCPFin => 5,
            IPVSAttr::TimeoutUDP => 6,
            IPVSAttr::DaemonSyncConnections => 7,
        }
    }

    /// The number of the attribute on the wire.
    pub fn code(self) -> (c: u16)
        ensures
            c == self.code_spec(),
    {
        match self {
            IPVSAttr::Unspec => 0,
            IPVSAttr::Service => 1,
            IPVSAttr::Dest => 2,
            IPVSAttr::Daemon => 3,
            IPVSAttr::TimeoutTCP => 4,
            IPVSAttr::TimeoutTCPFin => 5,
            IPVSAttr::TimeoutUDP => 6,
            IPVSAttr::DaemonSyncConnections => 7,
        }
    }
}

/// Attributes of a service, nested under [`IPVSAttr::Service`].
#[derive(Debug, Clone, Copy, PartialEq, Eq, Structural)]
pub enum IPVSServiceAttr {
    Unspec,
    /// Address family.
    AddressFamily,
    /// IP protocol.
    Protocol,
    /// Virtual address.
    Address,
    /// Virtual port.
    Port,
    /// Firewall mark.
    FirewallMark,
    /// Name of the scheduler.
    Scheduler,
    /// Flags and their mask.
    Flags,
    /// Timeout of persistent connections.
    Timeout,
    /// Netmask of persistent connections.
    Netmask,
    /// Statistics, as nested attributes.
    Stats,
    /// Name of the persistence engine.
    PersistenceEngine,
    /// IPv6 address.
    AddressV6,
}

impl IPVSServiceAttr {
    /// The number of the attribute on the wire.
    pub open spec fn code_spec(self) -> u16 {
        match self {
            IPVSServiceAttr::Unspec => 0,
            IPVSServiceAttr::AddressFamily => 1,
            IPVSServiceAttr::Protocol => 2,
            IPVSServiceAttr::Address => 3,
            IPVSServiceAttr::Port => 4,
            IPVSServiceAttr::FirewallMark => 5,
            IPVSServiceAttr::Scheduler => 6,
            IPVSServiceAttr::Flags => 7,
            IPVSServiceAttr::Timeout => 8,
            IPVSServiceAttr::Netmask => 9,
            IPVSServiceAttr::Stats => 10,
            IPVSServiceAttr::PersistenceEngine => 11,
            IPVSServiceAttr::AddressV6 => 12,
        }
    }

    /// The number of the attribute on the wire.
    pub fn code(self) -> (c: u16)
        ensures
            c == self.code_spec(),
    {
        match self {
            IPVSServiceAttr::Unspec => 0,
            IPVSServiceAttr::AddressFamily => 1,
            IPVSServiceAttr::Protocol => 2,
            IPVSServiceAttr::Address => 3,
            IPVSServiceAttr::Port => 4,
            IPVSServiceAttr::FirewallMark => 5,
            IPVSServiceAttr::Scheduler => 6,
            IPVSServiceAttr::Flags => 7,
            IPVSServiceAttr::Timeout => 8,
            IPVSServiceAttr::Netmask => 9,
            IPVSServiceAttr::Stats => 10,
            IPVSServiceAttr::PersistenceEngine => 11,
            IPVSServiceAttr::AddressV6 => 12,
        }
    }
}

/// Attributes of a destination, nested under [`IPVSAttr::Dest`].
#[derive(Debug, Clone, Copy, PartialEq, Eq, Structural)]
pub enum IPVSDestAttr {
    Unspec,
    /// Address of the destination.
    Address,
    /// Port of the destination.
    Port,
    /// Forwarding method.
    ForwardingMethod,
    /// Weight.
    Weight,
    /// Upper connection threshold.
    UpperThreshold,
    /// Lower connection threshold.
    LowerThreshold,
    /// Active connections.
    ActiveConns,
    /// Inactive connections.
    InactiveConns,
    /// Persistent connections.
    PersistConns,
    /// Statistics, as nested attributes.
    Stats,
    /// IPv6 address.
    AddressV6,
}

impl IPVSDestAttr {
    /// The number of the attribute on the wire.
    pub open spec fn code_spec(self) -> u16 {
        match self {
            IPVSDestAttr::Unspec => 0,
            IPVSDestAttr::Address => 1,
            IPVSDestAttr::Port => 2,
            IPVSDestAttr::ForwardingMethod => 3,
            IPVSDestAttr::Weight => 4,
            IPVSDestAttr::UpperThreshold => 5,
            IPVSDestAttr::LowerThreshold => 6,
            IPVSDestAttr::ActiveConns => 7,
            IPVSDestAttr::InactiveConns => 8,
            IPVSDestAttr::PersistConns => 9,
            IPVSDestAttr::Stats => 10,
            IPVSDestAttr::AddressV6 => 11,
        }
    }

    /// The number of the attribute on the wire.
    pub fn code(self) -> (c: u16)
        ensures
            c == self.code_spec(),
    {
        match self {
            IPVSDestAttr::Unspec => 0,
            IPVSDestAttr::Address => 1,
            IPVSDestAttr::Port => 2,
            IPVSDestAttr::ForwardingMethod => 3,
            IPVSDestAttr::Weight => 4,
            IPVSDestAttr::UpperThreshold => 5,
            IPVSDestAttr::LowerThreshold => 6,
            IPVSDestAttr::ActiveConns => 7,
            IPVSDestAttr::InactiveConns => 8,
            IPVSDestAttr::PersistConns => 9,
            IPVSDestAttr::Stats => 10,
            IPVSDestAttr::AddressV6 => 11,
        }
    }
}

/// Attributes of statistics.
#[derive(Debug, Clone, Copy, PartialEq, Eq, Structural)]
pub enum IPVSStatsAttr {
    Unspec,
    /// Connections scheduled.
    Connections,
    /// Packets received.
    PacketsIn,
    /// Packets sent.
    PacketsOut,
    /// Bytes received.
    BytesIn,
    /// Bytes sent.
    BytesOut,
    /// Connections per second.
    CPS,
    /// Packets received per second.
    PPSIn,
    /// Packets sent per second.
    PPSOut,
    /// Bytes received per second.
    BPSIn,
    /// Bytes sent per second.
    BPSOut,
}

impl IPVSStatsAttr {
    /// The number of the attribute on the wire.
    pub open spec fn code_spec(self) -> u16 {
        match self {
            IPVSStatsAttr::Unspec => 0,
            IPVSStatsAttr::Connections => 1,
            IPVSStatsAttr::PacketsIn => 2,
            IPVSStatsAttr::PacketsOut => 3,
            IPVSStatsAttr::BytesIn => 4,
            IPVSStatsAttr::BytesOut => 5,
            IPVSStatsAttr::CPS => 6,
            IPVSStatsAttr::PPSIn => 7,
            IPVSStatsAttr::PPSOut => 8,
            IPVSStatsAttr::BPSIn => 9,
            IPVSStatsAttr::BPSOut => 10,
        }
    }

    /// The number of the attribute on the wire.
    pub fn code(self) -> (c: u16)
        ensures
            c == self.code_spec(),
    {
        match self {
            IPVSStatsAttr::Unspec => 0,
            IPVSStatsAttr::Connections => 1,
            IPVSStatsAttr::PacketsIn => 2,
            IPVSStatsAttr::PacketsOut => 3,
            IPVSStatsAttr::BytesIn => 4,
            IPVSStatsAttr::BytesOut => 5,
            IPVSStatsAttr::CPS => 6,
            IPVSStatsAttr::PPSIn => 7,
            IPVSStatsAttr::PPSOut => 8,
            IPVSStatsAttr::BPSIn => 9,
            IPVSStatsAttr::BPSOut => 10,
        }
    }
}

/// Attributes of the answer to [`IPVSCommand::GetInfo`].
#[derive(Debug, Clone, Copy, PartialEq, Eq, Structural)]
pub enum IPVSInfoAttr {
    Unspec,
    /// Version of IPVS.
    Version,
    /// Size of the connection table.
    ConnTableSize,
}

impl IPVSInfoAttr {
    /// The number of the attribute on the wire.
    pub open spec fn code_spec(self) -> u16 {
        match self {
            IPVSInfoAttr::Unspec => 0,
            IPVSInfoAttr::Version => 1,
            IPVSInfoAttr::ConnTableSize => 2,
        }
    }

    /// The number of the attribute on the wire.
    pub fn code(self) -> (c: u16)
        ensures
            c == self.code_spec(),
    {
        match self {
            IPVSInfoAttr::Unspec => 0,
            IPVSInfoAttr::Version => 1,
            IPVSInfoAttr::ConnTableSize => 2,
        }
    }
}

} // verus!
