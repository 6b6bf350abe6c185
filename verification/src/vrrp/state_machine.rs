//! The VRRP state machine of one virtual router.
//!
//! The node decides; whoever owns the socket and the clock performs. Each
//! event (start, a received advertisement, a timer) is one call that moves the
//! node to its next state and returns what is to be done.

use crate::net::IpAddr;
use crate::time::Duration;
use crate::vrrp::checksum::checksum_spec;
use crate::vrrp::packet::{PacketView, VRRPPacket, VERSION_TYPE_ADVERTISEMENT};
use crate::vrrp::socket::{multicast_group, multicast_group_spec};
use crate::vrrp::types::{advert_interval_ms_spec, VRRPConfig, VRRPState, VRRPStats};
use vstd::prelude::*;

verus! {

/// What the owner of the socket and the timers does after an event.
#[derive(Debug, Clone, Copy, PartialEq, Eq, Structural)]
pub enum Action {
    /// Nothing.
    Idle,
    /// Send one advertisement now and advertise on every interval from here.
    SendAdvertisement,
    /// Arm the Master_Down timer to expire after this span.
    ArmMasterDown(Duration),
}

/// What becomes of the Master_Down timer after an advertisement arrived in
/// Backup state.
#[derive(Debug, Clone, Copy, PartialEq, Eq, Structural)]
pub enum TimerDecision {
    /// The timer runs on as it was.
    Keep,
    /// The timer starts again, to expire after this span.
    Rearm(Duration),
    /// The timer expires now.
    Expire,
}

/// What an advertisement is found to be before its priority is looked at.
#[derive(Debug, Clone, Copy, PartialEq, Eq, Structural)]
pub enum Verdict {
    /// For another virtual router: ignored silently.
    Foreign,
    /// Its checksum does not verify: counted and dropped.
    Corrupt,
    /// For this virtual router and intact.
    Accepted,
}

/// The verdict on a packet that came from `src` for the router `vrid`. The
/// checksum is held against the multicast group of the family of `src`.
pub open spec fn verdict_spec(vrid: u8, p: PacketView, src: IpAddr) -> Verdict {
    if p.vrid != vrid {
        Verdict::Foreign
    } else if checksum_spec(p, src, multicast_group_spec(src is V6)) != p.checksum {
        Verdict::Corrupt
    } else {
        Verdict::Accepted
    }
}

/// The counters after a packet with the given verdict and priority.
pub open spec fn stats_after(stats: VRRPStats, verdict: Verdict, priority: u8) -> VRRPStats {
    match verdict {
        Verdict::Foreign => stats,
        Verdict::Corrupt => VRRPStats {
            checksum_errors: (stats.checksum_errors + 1) as u64,
            invalid_adverts: (stats.invalid_adverts + 1) as u64,
            ..stats
        },
        Verdict::Accepted => VRRPStats {
            adverts_received: (stats.adverts_received + 1) as u64,
            priority_zero_received: if priority == 0 {
                (stats.priority_zero_received + 1) as u64
            } else {
                stats.priority_zero_received
            },
            ..stats
        },
    }
}

/// What a Backup does with its timer on a packet: nothing unless the packet
/// is accepted; then priority 0 expires the timer, a priority at least its
/// own, or any priority when it does not preempt, re-arms it, and a lower
/// priority while it preempts leaves it running.
pub open spec fn backup_decision(config: VRRPConfig, p: PacketView, src: IpAddr) -> TimerDecision {
    if verdict_spec(config.vrid, p, src) != Verdict::Accepted {
        TimerDecision::Keep
    } else if p.priority == 0 {
        TimerDecision::Expire
    } else if p.priority >= config.priority || !config.preempt {
        TimerDecision::Rearm(config.master_down_spec())
    } else {
        TimerDecision::Keep
    }
}

/// Whether a Master yields to the sender of a packet: the packet is accepted
/// and carries a higher priority, or the same priority from an address of the
/// Master's family that is numerically higher than the Master's own.
pub open spec fn master_yields(
    config: VRRPConfig,
    primary_ip: IpAddr,
    p: PacketView,
    src: IpAddr,
) -> bool {
    &&& verdict_spec(config.vrid, p, src) == Verdict::Accepted
    &&& (p.priority > config.priority || (p.priority == config.priority && src.same_family(
        primary_ip,
    ) && src.numeric() > primary_ip.numeric()))
}

/// One virtual router: its configuration, its state and its counters.
pub struct VRRPNode {
    config: VRRPConfig,
    state: VRRPState,
    stats: VRRPStats,
    primary_ip: IpAddr,
}

impl VRRPNode {
    /// The configuration of the node.
    pub closed spec fn config(&self) -> VRRPConfig {
        self.config
    }

    /// The current state.
    pub closed spec fn state(&self) -> VRRPState {
        self.state
    }

    /// The counters.
    pub closed spec fn stats(&self) -> VRRPStats {
        self.stats
    }

    /// The primary address of the node.
    pub closed spec fn primary_ip(&self) -> IpAddr {
        self.primary_ip
    }

    /// Whether configuration and primary address are those of `before`.
    pub open spec fn same_identity(&self, before: &VRRPNode) -> bool {
        self.config() == before.config() && self.primary_ip() == before.primary_ip()
    }

    /// The advertisement that this node sends with the given priority.
    pub open spec fn advertisement_spec(&self, priority: u8) -> PacketView {
        PacketView {
            version_type: VERSION_TYPE_ADVERTISEMENT,
            vrid: self.config().vrid,
            priority,
            count_ip: (self.config().virtual_ips@.len() % 256) as u8,
            max_advert_int: self.config().advert_interval,
            checksum: 0,
            ip_addresses: self.config().virtual_ips@,
        }
    }

    /// A node in Init state with all counters at zero.
    pub fn new(config: VRRPConfig, primary_ip: IpAddr) -> (node: Self)
        ensures
            node.config() == config,
            node.primary_ip() == primary_ip,
            node.state() == VRRPState::Init,
            node.stats() == (VRRPStats {
                master_transitions: 0,
                backup_transitions: 0,
                adverts_sent: 0,
                adverts_received: 0,
                invalid_adverts: 0,
                priority_zero_received: 0,
                checksum_errors: 0,
            }),
    {
        VRRPNode { config, state: VRRPState::Init, stats: VRRPStats::default(), primary_ip }
    }

    /// The current state.
    pub fn get_state(&self) -> (s: VRRPState)
        ensures
            s == self.state(),
    {
        self.state
    }

    /// A snapshot of the counters.
    pub fn get_stats(&self) -> (s: VRRPStats)
        ensures
            s == self.stats(),
    {
        self.stats
    }

    /// Whether every counter can still be incremented.
    pub fn has_room(&self) -> (r: bool)
        ensures
            r == self.stats().has_room(),
    {
        self.stats.master_transitions < u64::MAX && self.stats.backup_transitions < u64::MAX
            && self.stats.adverts_sent < u64::MAX && self.stats.adverts_received < u64::MAX
            && self.stats.invalid_adverts < u64::MAX && self.stats.priority_zero_received
            < u64::MAX && self.stats.checksum_errors < u64::MAX
    }

    /// The Master_Down_Interval of this node.
    pub fn master_down_interval(&self) -> (d: Duration)
        ensures
            d == self.config().master_down_spec(),
    {
        self.config.master_down_interval()
    }

    /// The Advertisement_Interval of this node.
    pub fn advert_interval_ms(&self) -> (d: Duration)
        ensures
            d == Duration::of_millis(advert_interval_ms_spec(self.config().advert_interval) as nat),
    {
        self.config.advert_interval_ms()
    }

    /// Whether the virtual addresses are IPv6, which selects the socket.
    pub fn is_ipv6(&self) -> (r: bool)
        ensures
            r == (self.config().virtual_ips@.len() > 0 && self.config().virtual_ips@[0] is V6),
    {
        if self.config.virtual_ips.len() == 0 {
            false
        } else {
            self.config.virtual_ips[0].is_ipv6()
        }
    }

    fn packet_with_priority(&self, priority: u8) -> (p: VRRPPacket)
        ensures
            p@ == self.advertisement_spec(priority),
    {
        let n: usize = self.config.virtual_ips.len();
        let mut ips: Vec<IpAddr> = Vec::new();
        let mut i: usize = 0;
        while i < n
            invariant
                i <= n,
                n == self.config.virtual_ips@.len(),
                ips@ == self.config.virtual_ips@.take(i as int),
            decreases n - i,
        {
            ips.push(self.config.virtual_ips[i]);
            assert(ips@ =~= self.config.virtual_ips@.take(i + 1));
            i += 1;
        }
        assert(ips@ =~= self.config.virtual_ips@);
        VRRPPacket::new(self.config.vrid, priority, self.config.advert_interval, ips)
    }

    /// The advertisement that this node sends while Master: its identifier,
    /// its priority, its interval and its virtual addresses, checksum not
    /// yet set.
    pub fn advertisement(&self) -> (p: VRRPPacket)
        ensures
            p@ == self.advertisement_spec(self.config().priority),
    {
        self.packet_with_priority(self.config.priority)
    }

    fn transition_to_master(&mut self)
        requires
            old(self).stats.master_transitions < u64::MAX,
        ensures
            final(self).same_identity(old(self)),
            final(self).state() == VRRPState::Master,
            final(self).stats() == (VRRPStats {
                master_transitions: (old(self).stats().master_transitions + 1) as u64,
                ..old(self).stats()
            }),
    {
        self.state = VRRPState::Master;
        self.stats.master_transitions = self.stats.master_transitions + 1;
    }

    fn transition_to_backup(&mut self)
        requires
            old(self).stats.backup_transitions < u64::MAX,
        ensures
            final(self).same_identity(old(self)),
            final(self).state() == VRRPState::Backup,
            final(self).stats() == (VRRPStats {
                backup_transitions: (old(self).stats().backup_transitions + 1) as u64,
                ..old(self).stats()
            }),
    {
        self.state = VRRPState::Backup;
        self.stats.backup_transitions = self.stats.backup_transitions + 1;
    }

    /// Whether this node is what `before` becomes when it leaves Init, and
    /// `action` what is to be done then. The owner of the addresses
    /// (priority 255) is Master at once and advertises; every other node is
    /// Backup with the Master_Down timer to be armed.
    pub open spec fn left_init(&self, before: &VRRPNode, action: Action) -> bool {
        &&& self.same_identity(before)
        &&& before.config().priority == 255 ==> {
            &&& self.state() == VRRPState::Master
            &&& action == Action::SendAdvertisement
            &&& self.stats() == (VRRPStats {
                master_transitions: (before.stats().master_transitions + 1) as u64,
                ..before.stats()
            })
        }
        &&& before.config().priority != 255 ==> {
            &&& self.state() == VRRPState::Backup
            &&& action == Action::ArmMasterDown(before.config().master_down_spec())
            &&& self.stats() == (VRRPStats {
                backup_transitions: (before.stats().backup_transitions + 1) as u64,
                ..before.stats()
            })
        }
    }

    /// Whether this node is `before` after one more advertisement went out.
    pub open spec fn counted_advertisement(&self, before: &VRRPNode) -> bool {
        &&& self.same_identity(before)
        &&& self.state() == before.state()
        &&& self.stats() == (VRRPStats {
            adverts_sent: (before.stats().adverts_sent + 1) as u64,
            ..before.stats()
        })
    }

    /// Leaves Init. The owner of the addresses (priority 255) becomes Master
    /// at once and advertises; any other node becomes Backup with the
    /// Master_Down timer armed.
    pub fn init_transition(&mut self) -> (action: Action)
        requires
            old(self).stats().has_room(),
        ensures
            final(self).left_init(old(self), action),
    {
        if self.config.priority == 255 {
            self.transition_to_master();
            Action::SendAdvertisement
        } else {
            self.transition_to_backup();
            Action::ArmMasterDown(self.config.master_down_interval())
        }
    }

    fn judge(&mut self, packet: &VRRPPacket, src_ip: IpAddr) -> (verdict: Verdict)
        requires
            packet.fits(),
            old(self).stats.has_room(),
        ensures
            final(self).same_identity(old(self)),
            final(self).state() == old(self).state(),
            verdict == verdict_spec(old(self).config().vrid, packet@, src_ip),
            final(self).stats() == stats_after(old(self).stats(), verdict, packet.priority),
    {
        if packet.vrid != self.config.vrid {
            return Verdict::Foreign;
        }
        let dst_ip: IpAddr = multicast_group(src_ip.is_ipv6());
        if !packet.verify_checksum(src_ip, dst_ip) {
            self.stats.checksum_errors = self.stats.checksum_errors + 1;
            self.stats.invalid_adverts = self.stats.invalid_adverts + 1;
            return Verdict::Corrupt;
        }
        self.stats.adverts_received = self.stats.adverts_received + 1;
        if packet.priority == 0 {
            self.stats.priority_zero_received = self.stats.priority_zero_received + 1;
        }
        Verdict::Accepted
    }

    /// An advertisement arrived while Backup. Counts it and says what
    /// becomes of the Master_Down timer.
    pub fn handle_advertisement_backup(&mut self, packet: &VRRPPacket, src_ip: IpAddr) -> (decision:
        TimerDecision)
        requires
            packet.fits(),
            old(self).stats().has_room(),
        ensures
            final(self).same_identity(old(self)),
            final(self).state() == old(self).state(),
            final(self).stats() == stats_after(
                old(self).stats(),
                verdict_spec(old(self).config().vrid, packet@, src_ip),
                packet.priority,
            ),
            decision == backup_decision(old(self).config(), packet@, src_ip),
    {
        match self.judge(packet, src_ip) {
            Verdict::Accepted => {
                if packet.priority == 0 {
                    TimerDecision::Expire
                } else if packet.priority >= self.config.priority || !self.config.preempt {
                    TimerDecision::Rearm(self.config.master_down_interval())
                } else {
                    TimerDecision::Keep
                }
            },
            _ => TimerDecision::Keep,
        }
    }

    /// The Master_Down timer expired: a Backup becomes Master and
    /// advertises. In any other state nothing happens.
    pub fn master_down_expired(&mut self) -> (action: Action)
        requires
            old(self).stats().has_room(),
        ensures
            final(self).same_identity(old(self)),
            old(self).state() == VRRPState::Backup ==> {
                &&& final(self).state() == VRRPState::Master
                &&& action == Action::SendAdvertisement
                &&& final(self).stats() == (VRRPStats {
                    master_transitions: (old(self).stats().master_transitions + 1) as u64,
                    ..old(self).stats()
                })
            },
            old(self).state() != VRRPState::Backup ==> {
                &&& final(self).state() == old(self).state()
                &&& final(self).stats() == old(self).stats()
                &&& action == Action::Idle
            },
    {
        match self.state {
            VRRPState::Backup => {
                self.transition_to_master();
                Action::SendAdvertisement
            },
            _ => Action::Idle,
        }
    }

    /// The advertisement timer fired: a Master advertises, any other state
    /// does nothing.
    pub fn advert_timer_fired(&self) -> (action: Action)
        ensures
            action == if self.state() == VRRPState::Master {
                Action::SendAdvertisement
            } else {
                Action::Idle
            },
    {
        match self.state {
            VRRPState::Master => Action::SendAdvertisement,
            _ => Action::Idle,
        }
    }

    /// An advertisement arrived while Master. Counts it; if the sender wins
    /// (higher priority, or the same priority from a numerically higher
    /// address of the same family) the node becomes Backup and arms the
    /// Master_Down timer.
    pub fn handle_advertisement_master(&mut self, packet: &VRRPPacket, src_ip: IpAddr) -> (action:
        Action)
        requires
            packet.fits(),
            old(self).stats().has_room(),
        ensures
            final(self).same_identity(old(self)),
            master_yields(old(self).config(), old(self).primary_ip(), packet@, src_ip) ==> {
                &&& final(self).state() == VRRPState::Backup
                &&& action == Action::ArmMasterDown(old(self).config().master_down_spec())
                &&& final(self).stats() == (VRRPStats {
                    backup_transitions: (old(self).stats().backup_transitions + 1) as u64,
                    ..stats_after(old(self).stats(), Verdict::Accepted, packet.priority)
                })
            },
            !master_yields(old(self).config(), old(self).primary_ip(), packet@, src_ip) ==> {
                &&& final(self).state() == old(self).state()
                &&& action == Action::Idle
                &&& final(self).stats() == stats_after(
                    old(self).stats(),
                    verdict_spec(old(self).config().vrid, packet@, src_ip),
                    packet.priority,
                )
            },
    {
        match self.judge(packet, src_ip) {
            Verdict::Accepted => {
                let yields: bool = packet.priority > self.config.priority || (packet.priority
                    == self.config.priority && src_ip.is_above(&self.primary_ip));
                if yields {
                    self.transition_to_backup();
                    Action::ArmMasterDown(self.config.master_down_interval())
                } else {
                    Action::Idle
                }
            },
            _ => Action::Idle,
        }
    }

    /// An advertisement went out.
    pub fn advertisement_sent(&mut self)
        requires
            old(self).stats().has_room(),
        ensures
            final(self).counted_advertisement(old(self)),
    {
        self.stats.adverts_sent = self.stats.adverts_sent + 1;
    }

    /// A datagram arrived that is no advertisement: it is counted as invalid
    /// and dropped.
    pub fn datagram_rejected(&mut self)
        requires
            old(self).stats().has_room(),
        ensures
            final(self).same_identity(old(self)),
            final(self).state() == old(self).state(),
            final(self).stats() == (VRRPStats {
                invalid_adverts: (old(self).stats().invalid_adverts + 1) as u64,
                ..old(self).stats()
            }),
    {
        self.stats.invalid_adverts = self.stats.invalid_adverts + 1;
    }

    /// Shuts the node down. A Master hands back the advertisement of
    /// priority 0 that tells the backups to take over at once; the node ends
    /// in Init.
    pub fn shutdown(&mut self) -> (farewell: Option<VRRPPacket>)
        ensures
            final(self).same_identity(old(self)),
            final(self).state() == VRRPState::Init,
            final(self).stats() == old(self).stats(),
            old(self).state() == VRRPState::Master ==> farewell is Some && farewell->Some_0@
                == old(self).advertisement_spec(0),
            old(self).state() != VRRPState::Master ==> farewell is None,
    {
        let farewell = match self.state {
            VRRPState::Master => Some(self.packet_with_priority(0)),
            _ => None,
        };
        self.state = VRRPState::Init;
        farewell
    }
}

/// When the Master_Down timer expires after a decision taken at `now`, in
/// nanoseconds on the clock that `now` is read from.
pub open spec fn next_deadline_spec(decision: TimerDecision, now: Duration, deadline: Duration) -> nat {
    match decision {
        TimerDecision::Keep => deadline@,
        TimerDecision::Rearm(span) => now@ + span@,
        TimerDecision::Expire => now@,
    }
}

/// The deadline of the Master_Down timer after a decision taken at `now`.
/// Times are spans since the start of one monotonic clock.
pub fn next_deadline(decision: TimerDecision, now: Duration, deadline: Duration) -> (next: Duration)
    requires
        next_deadline_spec(decision, now, deadline) <= u128::MAX,
    ensures
        next@ == next_deadline_spec(decision, now, deadline),
{
    match decision {
        TimerDecision::Keep => deadline,
        TimerDecision::Rearm(span) => now.plus(&span),
        TimerDecision::Expire => now,
    }
}

/// Whether a timer with the given deadline has expired at `now`.
pub fn deadline_reached(now: Duration, deadline: Duration) -> (r: bool)
    ensures
        r == (now@ >= deadline@),
{
    now.at_least(&deadline)
}

/// The owner of the virtual addresses is Master before any Master_Down
/// timer could expire: leaving Init makes it Master at once, with one more
/// transition to Master and none to Backup, arms no timer and has it
/// advertise; once that advertisement has gone out, one more is counted as
/// sent.
pub proof fn lemma_owner_is_master_at_once(
    before: &VRRPNode,
    started: &VRRPNode,
    action: Action,
    sent: &VRRPNode,
)
    requires
        before.config().priority == 255,
        before.stats().has_room(),
        started.left_init(before, action),
        sent.counted_advertisement(started),
    ensures
        started.state() == VRRPState::Master,
        action == Action::SendAdvertisement,
        sent.state() == VRRPState::Master,
        sent.stats().master_transitions == before.stats().master_transitions + 1,
        sent.stats().adverts_sent == before.stats().adverts_sent + 1,
        sent.stats().backup_transitions == before.stats().backup_transitions,
{
}

} // verus!
