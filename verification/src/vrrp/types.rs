//! Configuration, state and counters of one virtual router.

use crate::net::IpAddr;
use crate::time::Duration;
use vstd::prelude::*;

verus! {

/// Protocol version carried in every advertisement.
pub const VRRP_VERSION: u8 = 3;

/// IP protocol number assigned to VRRP.
pub const VRRP_PROTOCOL: u8 = 112;

/// TTL (IPv4) and hop limit (IPv6) of every advertisement, sent or accepted.
pub const VRRP_TTL: u8 = 255;

/// Default advertisement interval: 100 centiseconds.
pub const DEFAULT_ADVERT_INTERVAL: u16 = 100;

/// The IPv4 multicast group of VRRP, 224.0.0.18.
pub fn multicast_addr_v4() -> (a: IpAddr)
    ensures
        a == IpAddr::V4([224u8, 0u8, 0u8, 18u8]),
{
    IpAddr::V4([224u8, 0u8, 0u8, 18u8])
}

/// The IPv6 multicast group of VRRP, ff02::12.
pub fn multicast_addr_v6() -> (a: IpAddr)
    ensures
        a == IpAddr::V6(
            [0xffu8, 0x02u8, 0u8, 0u8, 0u8, 0u8, 0u8, 0u8, 0u8, 0u8, 0u8, 0u8, 0u8, 0u8, 0u8, 0x12u8],
        ),
{
    IpAddr::V6(
        [0xffu8, 0x02u8, 0u8, 0u8, 0u8, 0u8, 0u8, 0u8, 0u8, 0u8, 0u8, 0u8, 0u8, 0u8, 0u8, 0x12u8],
    )
}

/// State of the virtual router.
#[derive(Debug, Clone, Copy, PartialEq, Eq, Structural)]
pub enum VRRPState {
    /// Not yet started, or shut down.
    Init,
    /// Listening for the master's advertisements.
    Backup,
    /// Owning the virtual addresses and advertising.
    Master,
}

impl VRRPState {
    /// The name of the state in capitals.
    pub open spec fn name(self) -> Seq<char> {
        match self {
            VRRPState::Init => "INIT"@,
            VRRPState::Backup => "BACKUP"@,
            VRRPState::Master => "MASTER"@,
        }
    }

    /// The name of the state in capitals, as text.
    pub fn to_string(&self) -> (s: String)
        ensures
            s@ == self.name(),
    {
        match self {
            VRRPState::Init => "INIT".to_owned(),
            VRRPState::Backup => "BACKUP".to_owned(),
            VRRPState::Master => "MASTER".to_owned(),
        }
    }
}

/// Configuration of one virtual router.
#[derive(Debug, Clone)]
pub struct VRRPConfig {
    /// Virtual router identifier, 1 to 255.
    pub vrid: u8,
    /// Priority of this router, 1 to 255; 255 marks the owner of the addresses.
    pub priority: u8,
    /// Advertisement interval in centiseconds.
    pub advert_interval: u16,
    /// Name of the network interface.
    pub interface: String,
    /// The virtual addresses, at least one, all of one family.
    pub virtual_ips: Vec<IpAddr>,
    /// Whether to take over from a master of lower priority.
    pub preempt: bool,
    /// Whether to accept packets for the virtual addresses while not master.
    pub accept_mode: bool,
}

impl Default for VRRPConfig {
    fn default() -> (c: Self)
        ensures
            c.vrid == 1,
            c.priority == 100,
            c.advert_interval == DEFAULT_ADVERT_INTERVAL,
            c.interface@ == "eth0"@,
            c.virtual_ips@ == Seq::<IpAddr>::empty(),
            c.preempt,
            !c.accept_mode,
    {
        VRRPConfig {
            vrid: 1,
            priority: 100,
            advert_interval: DEFAULT_ADVERT_INTERVAL,
            interface: "eth0".to_owned(),
            virtual_ips: Vec::new(),
            preempt: true,
            accept_mode: false,
        }
    }
}

/// Advertisement_Interval in milliseconds: ten per centisecond.
pub open spec fn advert_interval_ms_spec(advert_interval: u16) -> int {
    advert_interval * 10
}

/// Skew_Time in milliseconds: `((256 − priority) · advert_ms) / 256`.
pub open spec fn skew_time_ms_spec(priority: u8, advert_interval: u16) -> int {
    ((256 - priority) * advert_interval_ms_spec(advert_interval)) / 256
}

/// Master_Down_Interval in milliseconds: `3 · advert_ms + Skew_Time`.
pub open spec fn master_down_interval_ms_spec(priority: u8, advert_interval: u16) -> int {
    3 * advert_interval_ms_spec(advert_interval) + skew_time_ms_spec(priority, advert_interval)
}

impl VRRPConfig {
    /// The first rule that the configuration breaks, as the text that
    /// `validate` reports, or `None` if it breaks none.
    pub open spec fn validation_error(&self) -> Option<Seq<char>> {
        if self.vrid == 0 {
            Some("VRID must be between 1 and 255"@)
        } else if self.priority == 0 {
            Some("Priority must be between 1 and 255"@)
        } else if self.virtual_ips@.len() == 0 {
            Some("At least one virtual IP is required"@)
        } else if self.interface@.len() == 0 {
            Some("Interface name is required"@)
        } else {
            None
        }
    }

    /// Whether the configuration can be run.
    pub open spec fn is_valid(&self) -> bool {
        self.validation_error() is None
    }

    /// Checks the configuration: the identifier and the priority are not 0,
    /// there is a virtual address, and the interface has a name.
    pub fn validate(&self) -> (r: Result<(), String>)
        ensures
            match self.validation_error() {
                None => r is Ok,
                Some(text) => r is Err && r->Err_0@ == text,
            },
    {
        if self.vrid == 0 {
            return Err("VRID must be between 1 and 255".to_owned());
        }
        if self.priority == 0 {
            return Err("Priority must be between 1 and 255".to_owned());
        }
        if self.virtual_ips.len() == 0 {
            return Err("At least one virtual IP is required".to_owned());
        }
        if self.interface.as_str().is_empty() {
            return Err("Interface name is required".to_owned());
        }
        Ok(())
    }

    /// The Master_Down_Interval of this configuration.
    pub open spec fn master_down_spec(&self) -> Duration {
        Duration::of_millis(master_down_interval_ms_spec(self.priority, self.advert_interval) as nat)
    }

    /// Master_Down_Interval: three advertisement intervals and the skew time.
    pub fn master_down_interval(&self) -> (d: Duration)
        ensures
            d == self.master_down_spec(),
            d.millis() == master_down_interval_ms_spec(self.priority, self.advert_interval),
    {
        let advert_ms: u64 = (self.advert_interval as u64) * 10;
        let weight: u64 = 256 - self.priority as u64;
        assert(weight * advert_ms <= 256 * 655350) by (nonlinear_arith)
            requires
                0 <= weight <= 256,
                0 <= advert_ms <= 655350,
        ;
        let skew_ms: u64 = (weight * advert_ms) / 256;
        Duration::from_millis(3 * advert_ms + skew_ms)
    }

    /// Advertisement_Interval: ten milliseconds per centisecond.
    pub fn advert_interval_ms(&self) -> (d: Duration)
        ensures
            d == Duration::of_millis(advert_interval_ms_spec(self.advert_interval) as nat),
            d.millis() == advert_interval_ms_spec(self.advert_interval),
    {
        Duration::from_millis((self.advert_interval as u64) * 10)
    }
}

/// Counters of one virtual router.
#[derive(Debug, Clone, Copy, PartialEq, Eq, Structural)]
pub struct VRRPStats {
    /// Transitions to Master.
    pub master_transitions: u64,
    /// Transitions to Backup.
    pub backup_transitions: u64,
    /// Advertisements sent.
    pub adverts_sent: u64,
    /// Advertisements received and accepted.
    pub adverts_received: u64,
    /// Advertisements received and dropped as invalid.
    pub invalid_adverts: u64,
    /// Accepted advertisements that carried priority 0.
    pub priority_zero_received: u64,
    /// Advertisements whose checksum did not verify.
    pub checksum_errors: u64,
}

impl VRRPStats {
    /// Whether every counter can still be incremented.
    pub open spec fn has_room(self) -> bool {
        &&& self.master_transitions < u64::MAX
        &&& self.backup_transitions < u64::MAX
        &&& self.adverts_sent < u64::MAX
        &&& self.adverts_received < u64::MAX
        &&& self.invalid_adverts < u64::MAX
        &&& self.priority_zero_received < u64::MAX
        &&& self.checksum_errors < u64::MAX
    }
}

impl Default for VRRPStats {
    fn default() -> (s: Self)
        ensures
            s == (VRRPStats {
                master_transitions: 0,
                backup_transitions: 0,
                adverts_sent: 0,
                adverts_received: 0,
                invalid_adverts: 0,
                priority_zero_received: 0,
                checksum_errors: 0,
            }),
    {
        VRRPStats {
            master_transitions: 0,
            backup_transitions: 0,
            adverts_sent: 0,
            adverts_received: 0,
            invalid_adverts: 0,
            priority_zero_received: 0,
            checksum_errors: 0,
        }
    }
}

} // verus!
