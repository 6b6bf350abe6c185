//! One monitor: the counters of its checks and its up/down state with
//! rise/fall hysteresis.
//!
//! The monitor decides; the task that owns the timer calls the checker on
//! every tick and hands the result in.

use crate::healthcheck::checkers::HealthChecker;
use crate::healthcheck::types::{
    ConfigView, HealthCheckConfig, HealthCheckResult, HealthCheckStats, HealthStatus,
};
use crate::time::Duration;
use vstd::prelude::*;

verus! {

/// A change of the up/down state.
#[derive(Debug, Clone, Copy, PartialEq, Eq, Structural)]
pub enum Transition {
    /// The backend came up.
    Up,
    /// The backend went down.
    Down,
}

/// The up/down state after a check: a backend that is down comes up when
/// the streak of successes has reached `rise`, a backend that is up goes
/// down when the streak of failures has reached `fall`.
pub open spec fn next_up(was_up: bool, stats: HealthCheckStats, rise: u32, fall: u32) -> bool {
    if !was_up && stats.consecutive_successes >= rise {
        true
    } else if was_up && stats.consecutive_failures >= fall {
        false
    } else {
        was_up
    }
}

/// The transition between two up/down states, if they differ.
pub open spec fn transition_between(was_up: bool, is_up: bool) -> Option<Transition> {
    if !was_up && is_up {
        Some(Transition::Up)
    } else if was_up && !is_up {
        Some(Transition::Down)
    } else {
        None
    }
}

/// Whether the counters can take a check of any duration.
pub open spec fn has_room_for_any(stats: HealthCheckStats) -> bool {
    &&& stats.total_checks < u64::MAX
    &&& stats.successful_checks < u64::MAX
    &&& stats.failed_checks < u64::MAX
    &&& stats.timeouts < u64::MAX
    &&& stats.consecutive_successes < u32::MAX
    &&& stats.consecutive_failures < u32::MAX
    &&& stats.response_time_sum_ms <= u128::MAX / 2
}

/// A monitor of one backend.
pub struct HealthCheckMonitor {
    config: HealthCheckConfig,
    stats: HealthCheckStats,
    is_up: bool,
    running: bool,
}

/// The mathematical value of a [`HealthCheckMonitor`].
pub struct MonitorView {
    /// The configuration.
    pub config: ConfigView,
    /// The counters.
    pub stats: HealthCheckStats,
    /// Whether the backend is up.
    pub up: bool,
    /// Whether the monitor has been started and not stopped since.
    pub running: bool,
}

impl MonitorView {
    /// The counters add up and at most one streak is running.
    pub open spec fn wf(self) -> bool {
        self.stats.wf()
    }

    /// A monitor of `config` that is down and has counted nothing.
    pub open spec fn fresh(config: ConfigView, running: bool) -> MonitorView {
        MonitorView {
            config,
            stats: HealthCheckStats {
                total_checks: 0,
                successful_checks: 0,
                failed_checks: 0,
                timeouts: 0,
                response_time_sum_ms: 0,
                consecutive_successes: 0,
                consecutive_failures: 0,
            },
            up: false,
            running,
        }
    }

    /// The monitor after the result of one check.
    pub open spec fn after(self, status: HealthStatus, duration: Duration) -> MonitorView {
        let stats = self.stats.after(status, duration);
        MonitorView { stats, up: next_up(self.up, stats, self.config.rise, self.config.fall), ..self }
    }
}

impl View for HealthCheckMonitor {
    type V = MonitorView;

    closed spec fn view(&self) -> MonitorView {
        MonitorView {
            config: self.config@,
            stats: self.stats,
            up: self.is_up,
            running: self.running,
        }
    }
}

impl HealthCheckMonitor {
    /// A monitor that is down, stopped, and has counted nothing.
    pub fn new(config: HealthCheckConfig) -> (m: Self)
        ensures
            m@ == MonitorView::fresh(config@, false),
            m@.wf(),
    {
        HealthCheckMonitor { config, stats: HealthCheckStats::default(), is_up: false, running: false }
    }

    /// Starts the monitor. Says whether it was stopped before, that is,
    /// whether a task has to be started for it; starting twice changes
    /// nothing.
    pub fn start(&mut self) -> (started: bool)
        ensures
            started == !old(self)@.running,
            final(self)@ == (MonitorView { running: true, ..old(self)@ }),
    {
        let started: bool = !self.running;
        self.running = true;
        started
    }

    /// Stops the monitor. Says whether it was running before, that is,
    /// whether its task has to be told; stopping twice changes nothing.
    pub fn stop(&mut self) -> (stopped: bool)
        ensures
            stopped == old(self)@.running,
            final(self)@ == (MonitorView { running: false, ..old(self)@ }),
    {
        let stopped: bool = self.running;
        self.running = false;
        stopped
    }

    /// Whether the backend is up.
    pub fn is_healthy(&self) -> (r: bool)
        ensures
            r == self@.up,
    {
        self.is_up
    }

    /// A snapshot of the counters.
    pub fn get_stats(&self) -> (s: HealthCheckStats)
        ensures
            s == self@.stats,
    {
        self.stats
    }

    /// The time between two checks.
    pub fn interval(&self) -> (d: Duration)
        ensures
            d == self@.config.interval,
    {
        self.config.interval
    }

    /// Takes in the result of one check: counts it, then applies the
    /// hysteresis. A backend that is down is up afterwards exactly when the
    /// streak of successes has reached `rise`; a backend that is up is down
    /// afterwards exactly when the streak of failures has reached `fall`.
    pub fn process_result(&mut self, result: &HealthCheckResult) -> (change: Option<Transition>)
        requires
            old(self)@.stats.has_room(result.duration),
        ensures
            final(self)@ == old(self)@.after(result.status, result.duration),
            old(self)@.wf() ==> final(self)@.wf(),
            change == transition_between(old(self)@.up, final(self)@.up),
            !old(self)@.up ==> (final(self)@.up <==> final(self)@.stats.consecutive_successes
                >= old(self)@.config.rise),
            old(self)@.up ==> (!final(self)@.up <==> final(self)@.stats.consecutive_failures
                >= old(self)@.config.fall),
    {
        self.stats.update(result);
        let was_up: bool = self.is_up;
        if !was_up && self.stats.consecutive_successes >= self.config.rise {
            self.is_up = true;
            Some(Transition::Up)
        } else if was_up && self.stats.consecutive_failures >= self.config.fall {
            self.is_up = false;
            Some(Transition::Down)
        } else {
            None
        }
    }

    /// One tick of the monitor: runs the checker once and takes in what it
    /// reports, whatever that is.
    pub fn run_check<C: HealthChecker>(&mut self, checker: &C) -> (change: Option<Transition>)
        requires
            old(self)@.wf(),
            has_room_for_any(old(self)@.stats),
        ensures
            final(self)@.wf(),
            exists|status: HealthStatus, duration: Duration|
                final(self)@ == old(self)@.after(status, duration),
            change == transition_between(old(self)@.up, final(self)@.up),
    {
        let result = checker.check();
        proof {
            crate::time::lemma_millis_bound(result.duration);
        }
        let change = self.process_result(&result);
        assert(self@ == old(self)@.after(result.status, result.duration));
        change
    }
}

} // verus!

verus! {

/// What holds of a monitor at every point, whatever it held before and
/// whatever the result of a check, as long as the check can be counted: one
/// more check is counted, counters that added up keep adding up, at most one
/// streak is running, a monitor that is down is up afterwards exactly when
/// the streak of successes has reached `rise`, and a monitor that is up is
/// down afterwards exactly when the streak of failures has reached `fall`.
pub proof fn lemma_check_keeps_invariants(m: MonitorView, status: HealthStatus, duration: Duration)
    requires
        m.stats.has_room(duration),
    ensures
        ({
            let n = m.after(status, duration);
            &&& n.stats.total_checks == m.stats.total_checks + 1
            &&& m.stats.adds_up() ==> n.stats.adds_up()
            &&& !(n.stats.consecutive_successes != 0 && n.stats.consecutive_failures != 0)
            &&& status == HealthStatus::Healthy ==> n.stats.consecutive_successes
                == m.stats.consecutive_successes + 1
            &&& status != HealthStatus::Healthy ==> n.stats.consecutive_failures
                == m.stats.consecutive_failures + 1
            &&& !m.up ==> (n.up <==> n.stats.consecutive_successes >= m.config.rise)
            &&& m.up ==> (!n.up <==> n.stats.consecutive_failures >= m.config.fall)
            &&& m.wf() ==> n.wf()
        }),
{
    crate::time::lemma_millis_bound(duration);
}

/// A monitor that has counted nothing yet counts consistently.
pub proof fn lemma_fresh_monitor_wf(config: ConfigView, running: bool)
    ensures
        MonitorView::fresh(config, running).wf(),
{
}

} // verus!
