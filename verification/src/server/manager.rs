//! The manager of the monitors: which health checks run, and what has been
//! reported of each.
//!
//! The manager owns the map of monitors. A configuration update is the full
//! set of checks that are wanted: monitors of checks that are no longer
//! wanted leave, monitors of changed checks are rebuilt, monitors of new
//! checks are created. A poll compares every monitor with what was last
//! reported of it and raises a notification for every change.

use crate::healthcheck::checkers::{method_of, DnsChecker, HttpChecker, HttpMethod, TcpChecker};
use crate::healthcheck::monitor::{transition_between, HealthCheckMonitor, MonitorView, Transition};
use crate::net::{IpAddr, SocketAddr};
use crate::healthcheck::types::{HealthCheckResult, HealthCheckStats, HealthStatus};
use crate::server::types::{
    CheckerConfig, CheckerView, HealthcheckConfig, HealthcheckConfigView, HealthcheckId, Notification, NotificationView, State,
    Status, StatusView,
};
use crate::text::{decimal, decimal_spec, uppercase_spec};
use crate::time::Duration;
use dashmap::DashMap;
use std::collections::HashSet;
use std::time::SystemTime;
use vstd::prelude::*;
use vstd::string::StringExecFns;

verus! {

/// `dashmap::DashMap`, a concurrent hash map, opaque to the verifier.
#[verifier::external_type_specification]
#[verifier::external_body]
#[verifier::reject_recursive_types(K)]
#[verifier::reject_recursive_types(V)]
#[verifier::reject_recursive_types(S)]
pub struct ExDashMap<K, V, S>(dashmap::DashMap<K, V, S>);

/// What the manager keeps of one health check.
pub struct MonitorState {
    /// The check as configured.
    pub config: HealthcheckConfig,
    /// The monitor that runs it.
    pub monitor: HealthCheckMonitor,
    /// Successful checks at the last poll.
    pub successes: u64,
    /// Failed checks at the last poll.
    pub failures: u64,
    /// The state that was last reported.
    pub last_state: State,
}

/// The mathematical value of a [`MonitorState`].
pub struct EntryView {
    pub config: HealthcheckConfigView,
    pub monitor: MonitorView,
    pub successes: u64,
    pub failures: u64,
    pub last_state: State,
}

impl View for MonitorState {
    type V = EntryView;

    open spec fn view(&self) -> EntryView {
        EntryView {
            config: self.config@,
            monitor: self.monitor@,
            successes: self.successes,
            failures: self.failures,
            last_state: self.last_state,
        }
    }
}

/// The map of monitors, by identifier.
pub type MonitorMap = DashMap<HealthcheckId, MonitorState>;

/// The entries of a map of monitors.
pub type Entries = Map<HealthcheckId, MonitorState>;

/// The values of the entries of a map of monitors.
pub type EntryViews = Map<HealthcheckId, EntryView>;

/// What the poller reads of one monitor in one go.
pub struct MonitorSnapshot {
    /// The health check.
    pub id: HealthcheckId,
    /// Whether the backend is up.
    pub is_healthy: bool,
    /// The counters of the monitor.
    pub stats: HealthCheckStats,
    /// The tag of the kind of checker.
    pub checker_type: &'static str,
    /// Successful checks at the last poll.
    pub prev_successes: u64,
    /// Failed checks at the last poll.
    pub prev_failures: u64,
    /// The state that was last reported.
    pub last_state: State,
}

impl MonitorSnapshot {
    /// Whether this is the snapshot of the entry `e` of the check `id`.
    pub open spec fn is_of(self, id: HealthcheckId, e: EntryView) -> bool {
        &&& self.id == id
        &&& self.is_healthy == e.monitor.up
        &&& self.stats == e.monitor.stats
        &&& self.checker_type@ == e.config.checker.tag()
        &&& self.prev_successes == e.successes
        &&& self.prev_failures == e.failures
        &&& self.last_state == e.last_state
    }
}

impl MonitorState {
    /// What the poller reads of this entry, kept under the identifier `id`.
    pub fn snapshot(&self, id: HealthcheckId) -> (s: MonitorSnapshot)
        ensures
            s.is_of(id, self@),
    {
        MonitorSnapshot {
            id,
            is_healthy: self.monitor.is_healthy(),
            stats: self.monitor.get_stats(),
            checker_type: self.config.checker.checker_type(),
            prev_successes: self.successes,
            prev_failures: self.failures,
            last_state: self.last_state,
        }
    }
}

/// The entries that a map of monitors holds, by identifier.
pub uninterp spec fn monitors_view(m: MonitorMap) -> Entries;

/// The values of the entries.
pub open spec fn views(entries: Entries) -> EntryViews {
    Map::new(|id: HealthcheckId| entries.dom().contains(id), |id: HealthcheckId| entries[id]@)
}

/// The identifiers of the checks that a configuration update wants.
pub open spec fn wanted_ids(configs: Seq<HealthcheckConfig>) -> Set<HealthcheckId> {
    Set::new(|id: HealthcheckId| exists|i: int| 0 <= i < configs.len() && configs[i].id == id)
}

/// Whether the set holds the identifier.
pub fn holds(ids: &HashSet<HealthcheckId>, id: HealthcheckId) -> (r: bool)
    ensures
        r == ids@.contains(id),
{
    ids.contains(&id)
}

/// The identifiers of the checks that a configuration update wants, as a
/// set.
pub fn wanted_set(configs: &Vec<HealthcheckConfig>) -> (ids: HashSet<HealthcheckId>)
    ensures
        ids@ == wanted_ids(configs@),
{
    let mut ids: HashSet<HealthcheckId> = HashSet::new();
    let mut i: usize = 0;
    while i < configs.len()
        invariant
            i <= configs@.len(),
            forall|id: HealthcheckId|
                ids@.contains(id) <==> exists|j: int| 0 <= j < i && configs@[j].id == id,
        decreases configs@.len() - i,
    {
        ids.insert(configs[i].id);
        i += 1;
    }
    assert(ids@ =~= wanted_ids(configs@));
    ids
}

/// The identifiers of a list, as a set.
fn set_of(list: &Vec<HealthcheckId>) -> (ids: HashSet<HealthcheckId>)
    ensures
        ids@ == list@.to_set(),
{
    let mut ids: HashSet<HealthcheckId> = HashSet::new();
    let mut i: usize = 0;
    while i < list.len()
        invariant
            i <= list@.len(),
            forall|id: HealthcheckId|
                ids@.contains(id) <==> exists|j: int| 0 <= j < i && list@[j] == id,
        decreases list@.len() - i,
    {
        ids.insert(list[i]);
        i += 1;
    }
    assert(ids@ =~= list@.to_set()) by {
        assert forall|id: HealthcheckId| ids@.contains(id) <==> list@.to_set().contains(id) by {
            assert(list@.to_set().contains(id) <==> list@.contains(id));
        }
    }
    ids
}

/// `DashMap::new`: a map without entries.
#[verifier::external_body]
pub(crate) fn monitors_new() -> (m: MonitorMap)
    ensures
        monitors_view(m) == Entries::empty(),
{
    DashMap::new()
}

/// `DashMap::len`: the number of entries.
#[verifier::external_body]
pub(crate) fn monitors_len(m: &MonitorMap) -> (n: usize)
    ensures
        n == monitors_view(*m).dom().len(),
{
    m.len()
}

/// `DashMap::insert`: sets the entry for the key and hands back the entry
/// that it replaces, if there was one.
#[verifier::external_body]
pub(crate) fn monitors_insert(m: &mut MonitorMap, id: HealthcheckId, state: MonitorState) -> (previous:
    Option<MonitorState>)
    ensures
        monitors_view(*final(m)) == monitors_view(*old(m)).insert(id, state),
        previous == if monitors_view(*old(m)).dom().contains(id) {
            Some(monitors_view(*old(m))[id])
        } else {
            None
        },
{
    m.insert(id, state)
}

/// `DashMap::remove`: takes the entry for the key out of the map and hands
/// it back, if there was one.
#[verifier::external_body]
pub(crate) fn monitors_remove(m: &mut MonitorMap, id: HealthcheckId) -> (removed: Option<
    MonitorState,
>)
    ensures
        monitors_view(*final(m)) == monitors_view(*old(m)).remove(id),
        removed == if monitors_view(*old(m)).dom().contains(id) {
            Some(monitors_view(*old(m))[id])
        } else {
            None
        },
{
    m.remove(&id).map(|entry| entry.1)
}

/// `DashMap::retain` with the test whether the set holds the key: the
/// entries whose key the set holds stay as they are, all others leave.
#[verifier::external_body]
pub(crate) fn monitors_retain(m: &mut MonitorMap, wanted: &HashSet<HealthcheckId>)
    ensures
        monitors_view(*final(m)) == monitors_view(*old(m)).restrict(wanted@),
{
    m.retain(|id, _| holds(wanted, *id))
}

/// `DashMap::iter`, keys only: every key of the map once, in the order in
/// which the map happens to be walked.
#[verifier::external_body]
pub(crate) fn monitors_ids(m: &MonitorMap) -> (ids: Vec<HealthcheckId>)
    ensures
        ids@.no_duplicates(),
        ids@.to_set() == monitors_view(*m).dom(),
{
    m.iter().map(|entry| *entry.key()).collect()
}

/// `DashMap::view` with the snapshot of the entry: what the poller needs of
/// the entry for the key, read in one go, if there is one.
#[verifier::external_body]
pub(crate) fn monitors_snapshot(m: &MonitorMap, id: HealthcheckId) -> (snapshot: Option<
    MonitorSnapshot,
>)
    ensures
        snapshot is Some == monitors_view(*m).dom().contains(id),
        snapshot is Some ==> snapshot->Some_0.is_of(id, monitors_view(*m)[id]@),
{
    m.view(&id, |_, entry| entry.snapshot(id))
}

/// The entry of a check that has just been added.
pub open spec fn fresh_entry(c: HealthcheckConfigView) -> EntryView {
    EntryView {
        config: c,
        monitor: MonitorView::fresh(c.monitor_config(), true),
        successes: 0,
        failures: 0,
        last_state: State::Unknown,
    }
}

/// The entry of a check whose configuration changed: a new monitor, while
/// what was last reported stays.
pub open spec fn rebuilt_entry(e: EntryView, c: HealthcheckConfigView) -> EntryView {
    EntryView { config: c, monitor: MonitorView::fresh(c.monitor_config(), true), ..e }
}

/// Whether the monitor of the entry has to be built anew for `c`.
pub open spec fn differs(e: EntryView, c: HealthcheckConfigView) -> bool {
    e.config.monitor_config() != c.monitor_config()
}

/// Whether a monitor is created for `c` on top of the entries `m`.
pub open spec fn starts(m: EntryViews, c: HealthcheckConfigView) -> bool {
    !m.dom().contains(c.id) || differs(m[c.id], c)
}

/// The entries after one wanted check has been seen to.
pub open spec fn applied(m: EntryViews, c: HealthcheckConfigView) -> EntryViews {
    if !m.dom().contains(c.id) {
        m.insert(c.id, fresh_entry(c))
    } else if differs(m[c.id], c) {
        m.insert(c.id, rebuilt_entry(m[c.id], c))
    } else {
        m
    }
}

/// The values of a list of configurations.
pub open spec fn config_views(configs: Seq<HealthcheckConfig>) -> Seq<HealthcheckConfigView> {
    Seq::new(configs.len(), |i: int| configs[i]@)
}

/// The entries after the first `k` wanted checks have been seen to, in order.
pub open spec fn applied_first(m: EntryViews, configs: Seq<HealthcheckConfig>, k: nat) -> EntryViews
    decreases k,
{
    if k == 0 {
        m
    } else {
        applied(applied_first(m, configs, (k - 1) as nat), configs[k - 1]@)
    }
}

/// The checks among the first `k` for which a monitor is created, in order.
pub open spec fn started_first(m: EntryViews, configs: Seq<HealthcheckConfig>, k: nat) -> Seq<
    HealthcheckId,
>
    decreases k,
{
    if k == 0 {
        Seq::empty()
    } else {
        let before = started_first(m, configs, (k - 1) as nat);
        if starts(applied_first(m, configs, (k - 1) as nat), configs[k - 1]@) {
            before.push(configs[k - 1].id)
        } else {
            before
        }
    }
}

/// The entries after a configuration update: the entries of checks that are
/// not wanted any more are gone, then every wanted check is seen to.
pub open spec fn reconciled(m: EntryViews, configs: Seq<HealthcheckConfig>) -> EntryViews {
    applied_first(m.restrict(wanted_ids(configs)), configs, configs.len())
}

/// The checks for which a configuration update creates a monitor, in order.
pub open spec fn restarted(m: EntryViews, configs: Seq<HealthcheckConfig>) -> Seq<HealthcheckId> {
    started_first(m.restrict(wanted_ids(configs)), configs, configs.len())
}

/// The checks among the first `k` that had a monitor before the update and
/// whose monitor is built anew, in order.
pub open spec fn rebuilt_first(m: EntryViews, configs: Seq<HealthcheckConfig>, k: nat) -> Seq<
    HealthcheckId,
>
    decreases k,
{
    if k == 0 {
        Seq::empty()
    } else {
        let before = rebuilt_first(m, configs, (k - 1) as nat);
        let c = configs[k - 1]@;
        if m.dom().contains(c.id) && differs(applied_first(m, configs, (k - 1) as nat)[c.id], c) {
            before.push(c.id)
        } else {
            before
        }
    }
}

/// The checks that had a monitor before a configuration update and whose
/// monitor the update builds anew, in order.
pub open spec fn rebuilt(m: EntryViews, configs: Seq<HealthcheckConfig>) -> Seq<HealthcheckId> {
    rebuilt_first(m.restrict(wanted_ids(configs)), configs, configs.len())
}

/// Whether a configuration update ends what ran for the check `id`: the
/// check had a monitor, and it is no longer wanted or its monitor is built
/// anew.
pub open spec fn ends(m: EntryViews, configs: Seq<HealthcheckConfig>, id: HealthcheckId) -> bool {
    m.dom().contains(id) && (!wanted_ids(configs).contains(id) || rebuilt(m, configs).contains(id))
}

/// Every monitor counts consistently, under its own identifier, and with a
/// number of retries that leaves room for the thresholds.
pub open spec fn entries_wf(m: EntryViews) -> bool {
    &&& m.dom().finite()
    &&& forall|id: HealthcheckId| #[trigger]
        m.dom().contains(id) ==> m[id].monitor.wf() && m[id].config.id == id && m[id].config.retries
            < u32::MAX
}

/// What a configuration update did.
pub struct ReconcileReport {
    /// The checks whose monitors were dropped or replaced, so that what ran
    /// for them has to be stopped: first those that are no longer wanted,
    /// then those that were built anew.
    pub stopped: Vec<HealthcheckId>,
    /// The checks whose monitors were created and have to be started.
    pub started: Vec<HealthcheckId>,
    /// The number of monitors after the update.
    pub active: usize,
}

/// The state that a poll finds the entry in.
pub open spec fn found_state(e: EntryView) -> State {
    State::of_up(e.monitor.up)
}

/// Whether a poll finds the entry in another state than was last reported.
pub open spec fn changed(e: EntryView) -> bool {
    found_state(e) != e.last_state
}

/// The entry after a poll: the counters and the state as found.
pub open spec fn polled(e: EntryView) -> EntryView {
    EntryView {
        successes: e.monitor.stats.successful_checks,
        failures: e.monitor.stats.failed_checks,
        last_state: found_state(e),
        ..e
    }
}

/// The line of text that goes with a status: successes out of checks.
pub open spec fn summary(stats: HealthCheckStats) -> Seq<char> {
    decimal_spec(stats.successful_checks as nat) + "/"@ + decimal_spec(stats.total_checks as nat)
        + " checks successful"@
}

/// The status of a monitor with the given counters, taken at `now`.
pub open spec fn status_of(stats: HealthCheckStats, state: State, now: SystemTime) -> StatusView {
    StatusView {
        last_check: Some(now),
        duration: Duration::of_millis(stats.mean_response_ms()),
        failures: stats.failed_checks,
        successes: stats.successful_checks,
        state,
        message: summary(stats),
    }
}

/// The notification that a poll at `now` raises for the entry of `id`.
pub open spec fn notification_of(id: HealthcheckId, e: EntryView, now: SystemTime)
    -> NotificationView {
    NotificationView { id, status: status_of(e.monitor.stats, found_state(e), now) }
}

/// What a poll observed of one monitor, for the metrics.
pub struct Observation {
    /// The health check.
    pub id: HealthcheckId,
    /// The tag of the kind of checker.
    pub checker_type: &'static str,
    /// Whether successes were counted since the last poll.
    pub success_recorded: bool,
    /// Whether failures were counted since the last poll.
    pub failure_recorded: bool,
    /// Whether the backend is up.
    pub is_healthy: bool,
    /// The streak of successes.
    pub consecutive_successes: u64,
    /// The streak of failures.
    pub consecutive_failures: u64,
    /// The mean response time.
    pub response_time: Duration,
    /// The state that was last reported.
    pub previous_state: State,
    /// The state as found.
    pub new_state: State,
}

impl Observation {
    /// Whether this is what a poll observes of the entry `e` of the check
    /// `id`.
    pub open spec fn is_of(self, id: HealthcheckId, e: EntryView) -> bool {
        &&& self.id == id
        &&& self.checker_type@ == e.config.checker.tag()
        &&& self.success_recorded == (e.monitor.stats.successful_checks > e.successes)
        &&& self.failure_recorded == (e.monitor.stats.failed_checks > e.failures)
        &&& self.is_healthy == e.monitor.up
        &&& self.consecutive_successes == e.monitor.stats.consecutive_successes
        &&& self.consecutive_failures == e.monitor.stats.consecutive_failures
        &&& self.response_time == Duration::of_millis(e.monitor.stats.mean_response_ms())
        &&& self.previous_state == e.last_state
        &&& self.new_state == found_state(e)
    }
}

/// The identifiers of observations, in order.
pub open spec fn observed_ids(observations: Seq<Observation>) -> Seq<HealthcheckId> {
    Seq::new(observations.len(), |i: int| observations[i].id)
}

/// The notifications that a poll at `now` raises when it walks the first `k`
/// of `ids` over the entries `m`, in order.
pub open spec fn raised(m: EntryViews, ids: Seq<HealthcheckId>, k: nat, now: SystemTime) -> Seq<
    NotificationView,
>
    decreases k,
{
    if k == 0 {
        Seq::empty()
    } else {
        let before = raised(m, ids, (k - 1) as nat, now);
        if changed(m[ids[k - 1]]) {
            before.push(notification_of(ids[k - 1], m[ids[k - 1]], now))
        } else {
            before
        }
    }
}

/// The values of a list of notifications.
pub open spec fn notification_views(notifications: Seq<Notification>) -> Seq<NotificationView> {
    Seq::new(notifications.len(), |i: int| notifications[i]@)
}

/// The entries after a poll.
pub open spec fn polled_all(m: EntryViews) -> EntryViews {
    Map::new(|id: HealthcheckId| m.dom().contains(id), |id: HealthcheckId| polled(m[id]))
}

/// What a poll found.
pub struct PollReport {
    /// One observation for every monitor, in the order of the walk.
    pub observations: Vec<Observation>,
    /// One notification for every monitor whose state changed, in the order
    /// of the walk.
    pub notifications: Vec<Notification>,
    /// The number of monitors.
    pub active: usize,
}

/// The status that goes out for a snapshot.
fn snapshot_status(snap: &MonitorSnapshot, state: State, now: SystemTime) -> (status: Status)
    requires
        snap.stats.wf(),
    ensures
        status@ == status_of(snap.stats, state, now),
{
    let mut message: String = decimal(snap.stats.successful_checks);
    message.append("/");
    message.append(decimal(snap.stats.total_checks).as_str());
    message.append(" checks successful");
    Status {
        last_check: Some(now),
        duration: snap.stats.mean_response(),
        failures: snap.stats.failed_checks,
        successes: snap.stats.successful_checks,
        state,
        message,
    }
}

/// Manages the monitors.
pub struct Manager {
    monitors: MonitorMap,
    monitor_interval: Duration,
}

impl View for Manager {
    type V = EntryViews;

    /// The entries of the monitors, by identifier.
    closed spec fn view(&self) -> EntryViews {
        views(monitors_view(self.monitors))
    }
}

impl Manager {
    /// The time between two polls.
    pub closed spec fn interval_spec(&self) -> Duration {
        self.monitor_interval
    }

    /// Every monitor of the manager counts consistently.
    pub open spec fn wf(&self) -> bool {
        entries_wf(self@)
    }

    /// A manager without monitors.
    pub fn new(monitor_interval: Duration) -> (m: Self)
        ensures
            m@ == EntryViews::empty(),
            m.interval_spec() == monitor_interval,
            m.wf(),
    {
        let m = Manager { monitors: monitors_new(), monitor_interval };
        assert(m@ =~= EntryViews::empty());
        m
    }

    /// The time between two polls.
    pub fn monitor_interval(&self) -> (d: Duration)
        ensures
            d == self.interval_spec(),
    {
        self.monitor_interval
    }

    /// The number of monitors.
    pub fn active_monitors(&self) -> (n: usize)
        ensures
            n == self@.dom().len(),
    {
        let n = monitors_len(&self.monitors);
        assert(self@.dom() =~= monitors_view(self.monitors).dom());
        n
    }

    /// The monitor of a check as the manager creates it: configured for the
    /// check, counting from zero, down, and started.
    pub fn create_monitor(config: &HealthcheckConfig) -> (monitor: HealthCheckMonitor)
        requires
            config.retries < u32::MAX,
        ensures
            monitor@ == MonitorView::fresh(config@.monitor_config(), true),
    {
        let mut monitor = HealthCheckMonitor::new(config.to_monitor_config());
        monitor.start();
        monitor
    }

    /// Takes a configuration update: the full set of checks that are wanted
    /// from now on. Monitors whose check is not in the set are dropped. A
    /// check that is in the set and has a monitor keeps it unless the
    /// configuration of the monitor would differ; then the monitor is built
    /// anew. A check without a monitor gets one. The report names the checks
    /// for which something has to be stopped, those whose monitors were
    /// created, and gives the number of monitors.
    pub fn update_configs(&mut self, configs: Vec<HealthcheckConfig>) -> (report: ReconcileReport)
        requires
            old(self).wf(),
            forall|i: int|
                0 <= i < configs@.len() ==> (#[trigger] configs@[i]).retries < u32::MAX,
        ensures
            final(self)@ == reconciled(old(self)@, configs@),
            final(self).wf(),
            final(self).interval_spec() == old(self).interval_spec(),
            forall|id: HealthcheckId|
                report.stopped@.contains(id) <==> ends(old(self)@, configs@, id),
            report.started@ == restarted(old(self)@, configs@),
            report.active == final(self)@.dom().len(),
    {
        let ghost start: EntryViews = self@.restrict(wanted_ids(configs@));
        let new_ids: HashSet<HealthcheckId> = wanted_set(&configs);
        let had: Vec<HealthcheckId> = monitors_ids(&self.monitors);
        let had_ids: HashSet<HealthcheckId> = set_of(&had);
        assert(old(self)@.dom() =~= monitors_view(self.monitors).dom());
        let mut stopped: Vec<HealthcheckId> = Vec::new();
        let mut j: usize = 0;
        while j < had.len()
            invariant
                j <= had@.len(),
                new_ids@ == wanted_ids(configs@),
                forall|id: HealthcheckId|
                    stopped@.contains(id) <==> (had@.take(j as int).contains(id) && !wanted_ids(
                        configs@,
                    ).contains(id)),
            decreases had@.len() - j,
        {
            let id: HealthcheckId = had[j];
            let ghost before = stopped@;
            let unwanted: bool = !holds(&new_ids, id);
            if unwanted {
                stopped.push(id);
            }
            proof {
                assert(had@.take(j + 1) =~= had@.take(j as int).push(id));
                assert forall|y: HealthcheckId|
                    stopped@.contains(y) <==> (had@.take(j + 1).contains(y) && !wanted_ids(
                        configs@,
                    ).contains(y)) by {
                    lemma_contains_push(had@.take(j as int), id, y);
                    if unwanted {
                        lemma_contains_push(before, id, y);
                    }
                }
            }
            j += 1;
        }
        assert(had@.take(j as int) =~= had@);
        let ghost removed = stopped@;
        monitors_retain(&mut self.monitors, &new_ids);
        assert(self@ =~= start);
        assert(start.dom() =~= old(self)@.dom().intersect(wanted_ids(configs@)));
        let mut started: Vec<HealthcheckId> = Vec::new();
        let mut again: Vec<HealthcheckId> = Vec::new();
        let mut i: usize = 0;
        while i < configs.len()
            invariant
                i <= configs@.len(),
                self@ == applied_first(start, configs@, i as nat),
                started@ == started_first(start, configs@, i as nat),
                again@ == rebuilt_first(start, configs@, i as nat),
                had_ids@ == old(self)@.dom(),
                start == old(self)@.restrict(wanted_ids(configs@)),
                entries_wf(self@),
                self.interval_spec() == old(self).interval_spec(),
                forall|j: int|
                    0 <= j < configs@.len() ==> (#[trigger] configs@[j]).retries < u32::MAX,
            decreases configs@.len() - i,
        {
            let config = &configs[i];
            let id: HealthcheckId = config.id;
            let ghost before: EntryViews = self@;
            let ghost entries: Entries = monitors_view(self.monitors);
            assert(wanted_ids(configs@).contains(id));
            match monitors_remove(&mut self.monitors, id) {
                Some(mut entry) => {
                    assert(entries.dom().contains(id));
                    assert(before.dom().contains(id));
                    assert(before[id] == entry@);
                    let current = entry.config.to_monitor_config();
                    let wanted = config.to_monitor_config();
                    if !current.same_as(&wanted) {
                        entry.monitor = Manager::create_monitor(config);
                        entry.config = config.duplicate();
                        started.push(id);
                        if holds(&had_ids, id) {
                            again.push(id);
                        }
                    }
                    let ghost after: EntryView = entry@;
                    monitors_insert(&mut self.monitors, id, entry);
                    assert(monitors_view(self.monitors) =~= entries.remove(id).insert(id, entry));
                    assert(self@ =~= before.insert(id, after));
                    assert(self@ =~= applied(before, config@));
                },
                None => {
                    let entry = MonitorState {
                        config: config.duplicate(),
                        monitor: Manager::create_monitor(config),
                        successes: 0,
                        failures: 0,
                        last_state: State::Unknown,
                    };
                    started.push(id);
                    monitors_insert(&mut self.monitors, id, entry);
                    assert(self@ =~= before.insert(id, fresh_entry(config@)));
                    proof {
                        lemma_applied_domain(start, configs@, i as nat, id);
                    }
                },
            }
            i += 1;
        }
        let active: usize = self.active_monitors();
        let ghost rebuilt_ids = again@;
        stopped.append(&mut again);
        proof {
            assert(stopped@ =~= removed + rebuilt_ids);
            assert forall|id: HealthcheckId|
                stopped@.contains(id) <==> ends(old(self)@, configs@, id) by {
                lemma_contains_add(removed, rebuilt_ids, id);
                lemma_rebuilt_had_monitor(start, configs@, configs@.len(), id);
                assert(had@.to_set().contains(id) <==> had@.contains(id));
                assert(had@.to_set() == old(self)@.dom());
            }
        }
        ReconcileReport { stopped, started, active }
    }

    /// Polls every monitor once. For each monitor it observes the counters
    /// and the state, writes them down as reported, and, if the state is
    /// not the one that was last reported, raises a notification. A monitor
    /// that has never been reported is in state Unknown, so its first poll
    /// always raises one.
    pub fn poll(&mut self, now: SystemTime) -> (report: PollReport)
        requires
            old(self).wf(),
        ensures
            final(self)@ == polled_all(old(self)@),
            final(self).wf(),
            final(self).interval_spec() == old(self).interval_spec(),
            report.active == old(self)@.dom().len(),
            observed_ids(report.observations@).no_duplicates(),
            observed_ids(report.observations@).to_set() == old(self)@.dom(),
            forall|k: int|
                0 <= k < report.observations@.len() ==> (#[trigger] report.observations@[k]).is_of(
                    report.observations@[k].id,
                    old(self)@[report.observations@[k].id],
                ),
            notification_views(report.notifications@) == raised(
                old(self)@,
                observed_ids(report.observations@),
                report.observations@.len(),
                now,
            ),
    {
        let active: usize = self.active_monitors();
        let ids: Vec<HealthcheckId> = monitors_ids(&self.monitors);
        let ghost start: EntryViews = self@;
        assert(start.dom() =~= monitors_view(self.monitors).dom());
        let mut observations: Vec<Observation> = Vec::new();
        let mut notifications: Vec<Notification> = Vec::new();
        let mut i: usize = 0;
        while i < ids.len()
            invariant
                i <= ids@.len(),
                ids@.no_duplicates(),
                ids@.to_set() == start.dom(),
                entries_wf(start),
                self.interval_spec() == old(self).interval_spec(),
                self@.dom() == start.dom(),
                forall|k: int| 0 <= k < i ==> self@[#[trigger] ids@[k]] == polled(start[ids@[k]]),
                forall|k: int| i <= k < ids@.len() ==> self@[#[trigger] ids@[k]] == start[ids@[k]],
                observations@.len() == i,
                forall|k: int|
                    0 <= k < i ==> (#[trigger] observations@[k]).id == ids@[k] && observations@[k].is_of(
                        ids@[k],
                        start[ids@[k]],
                    ),
                notification_views(notifications@) == raised(start, ids@, i as nat, now),
            decreases ids@.len() - i,
        {
            let id: HealthcheckId = ids[i];
            assert(ids@.to_set().contains(ids@[i as int]));
            assert(start.dom().contains(id));
            let ghost before: EntryViews = self@;
            let ghost entries: Entries = monitors_view(self.monitors);
            assert(before[id] == start[id]);
            match monitors_snapshot(&self.monitors, id) {
                Some(snap) => {
                    let new_state: State = if snap.is_healthy {
                        State::Healthy
                    } else {
                        State::Unhealthy
                    };
                    let observation = Observation {
                        id,
                        checker_type: snap.checker_type,
                        success_recorded: snap.stats.successful_checks > snap.prev_successes,
                        failure_recorded: snap.stats.failed_checks > snap.prev_failures,
                        is_healthy: snap.is_healthy,
                        consecutive_successes: snap.stats.consecutive_successes as u64,
                        consecutive_failures: snap.stats.consecutive_failures as u64,
                        response_time: snap.stats.mean_response(),
                        previous_state: snap.last_state,
                        new_state,
                    };
                    observations.push(observation);
                    match monitors_remove(&mut self.monitors, id) {
                        Some(mut entry) => {
                            entry.successes = snap.stats.successful_checks;
                            entry.failures = snap.stats.failed_checks;
                            entry.last_state = new_state;
                            let ghost after: EntryView = entry@;
                            monitors_insert(&mut self.monitors, id, entry);
                            assert(monitors_view(self.monitors) =~= entries.remove(id).insert(
                                id,
                                entry,
                            ));
                            assert(self@ =~= before.insert(id, after));
                            assert(after == polled(start[id]));
                        },
                        None => {},
                    }
                    let ghost earlier = notification_views(notifications@);
                    if new_state != snap.last_state {
                        let notification = Notification {
                            id,
                            status: snapshot_status(&snap, new_state, now),
                        };
                        notifications.push(notification);
                        assert(notification_views(notifications@) =~= earlier.push(
                            notification_of(id, start[id], now),
                        ));
                    }
                },
                None => {},
            }
            assert forall|k: int| 0 <= k < i + 1 implies self@[#[trigger] ids@[k]] == polled(
                start[ids@[k]],
            ) by {
                if k < i {
                    assert(ids@[k] != ids@[i as int]);
                }
            }
            assert forall|k: int| i + 1 <= k < ids@.len() implies self@[#[trigger] ids@[k]]
                == start[ids@[k]] by {
                assert(ids@[k] != ids@[i as int]);
            }
            i += 1;
        }
        assert(observed_ids(observations@) =~= ids@);
        assert(self@ =~= polled_all(start)) by {
            assert forall|id: HealthcheckId| start.dom().contains(id) implies #[trigger] self@[id]
                == polled(start[id]) by {
                assert(ids@.to_set().contains(id));
                let k = choose|k: int| 0 <= k < ids@.len() && ids@[k] == id;
                assert(self@[ids@[k]] == polled(start[ids@[k]]));
            }
        }
        PollReport { observations, notifications, active }
    }

    /// The status of every monitor, taken at `now`, in the order in which
    /// the map is walked: each check once, with the state that was last
    /// reported of it.
    pub fn get_statuses(&self, now: SystemTime) -> (statuses: Vec<(HealthcheckId, Status)>)
        requires
            self.wf(),
        ensures
            Seq::new(statuses@.len(), |k: int| statuses@[k].0).no_duplicates(),
            Seq::new(statuses@.len(), |k: int| statuses@[k].0).to_set() == self@.dom(),
            forall|k: int|
                0 <= k < statuses@.len() ==> (#[trigger] statuses@[k]).1@ == status_of(
                    self@[statuses@[k].0].monitor.stats,
                    self@[statuses@[k].0].last_state,
                    now,
                ),
    {
        let ids: Vec<HealthcheckId> = monitors_ids(&self.monitors);
        assert(self@.dom() =~= monitors_view(self.monitors).dom());
        let mut statuses: Vec<(HealthcheckId, Status)> = Vec::new();
        let mut i: usize = 0;
        while i < ids.len()
            invariant
                i <= ids@.len(),
                ids@.to_set() == self@.dom(),
                self@.dom() == monitors_view(self.monitors).dom(),
                entries_wf(self@),
                statuses@.len() == i,
                forall|k: int| 0 <= k < i ==> (#[trigger] statuses@[k]).0 == ids@[k],
                forall|k: int|
                    0 <= k < i ==> (#[trigger] statuses@[k]).1@ == status_of(
                        self@[ids@[k]].monitor.stats,
                        self@[ids@[k]].last_state,
                        now,
                    ),
            decreases ids@.len() - i,
        {
            let id: HealthcheckId = ids[i];
            assert(ids@.to_set().contains(ids@[i as int]));
            match monitors_snapshot(&self.monitors, id) {
                Some(snap) => {
                    let status = snapshot_status(&snap, snap.last_state, now);
                    statuses.push((id, status));
                },
                None => {
                    assert(false);
                },
            }
            i += 1;
        }
        assert(Seq::new(statuses@.len(), |k: int| statuses@[k].0) =~= ids@);
        statuses
    }
}

} // verus!

verus! {

/// Whether one of the first `k` configurations is for the check `id`.
pub open spec fn named_among(configs: Seq<HealthcheckConfig>, k: nat, id: HealthcheckId) -> bool {
    exists|j: int| 0 <= j < k && configs[j].id == id
}

proof fn lemma_named_step(configs: Seq<HealthcheckConfig>, k: nat, id: HealthcheckId)
    requires
        0 < k <= configs.len(),
    ensures
        named_among(configs, k, id) <==> (named_among(configs, (k - 1) as nat, id) || configs[k
            - 1].id == id),
{
    if named_among(configs, k, id) {
        let j = choose|j: int| 0 <= j < k && configs[j].id == id;
        if j < k - 1 {
            assert(named_among(configs, (k - 1) as nat, id));
        }
    }
    if named_among(configs, (k - 1) as nat, id) {
        let j = choose|j: int| 0 <= j < k - 1 && configs[j].id == id;
        assert(0 <= j < k && configs[j].id == id);
    }
    if configs[k - 1].id == id {
        assert(0 <= k - 1 < k && configs[k - 1].id == id);
    }
}

/// The checks that have an entry after the first `k` wanted checks have been
/// seen to: those that had one before, and those first `k`.
pub proof fn lemma_applied_domain(
    m: EntryViews,
    configs: Seq<HealthcheckConfig>,
    k: nat,
    id: HealthcheckId,
)
    requires
        k <= configs.len(),
    ensures
        applied_first(m, configs, k).dom().contains(id) <==> (m.dom().contains(id) || named_among(
            configs,
            k,
            id,
        )),
    decreases k,
{
    if k > 0 {
        lemma_applied_domain(m, configs, (k - 1) as nat, id);
        lemma_named_step(configs, k, id);
    }
}

/// After a configuration update the manager has a monitor for exactly the
/// checks that the update names: none is left of a check that it does not
/// name.
pub proof fn lemma_reconciled_domain(m: EntryViews, configs: Seq<HealthcheckConfig>)
    ensures
        reconciled(m, configs).dom() == wanted_ids(configs),
{
    let start = m.restrict(wanted_ids(configs));
    assert forall|id: HealthcheckId|
        reconciled(m, configs).dom().contains(id) <==> wanted_ids(configs).contains(id) by {
        lemma_applied_domain(start, configs, configs.len(), id);
        assert(named_among(configs, configs.len(), id) <==> wanted_ids(configs).contains(id));
    }
    assert(reconciled(m, configs).dom() =~= wanted_ids(configs));
}

/// A check that had a monitor and is named by the update only with a
/// configuration that leaves the monitor as it is keeps its entry untouched:
/// the counters, the state and what was last reported.
pub proof fn lemma_unchanged_entry_kept(
    m: EntryViews,
    configs: Seq<HealthcheckConfig>,
    id: HealthcheckId,
    k: nat,
)
    requires
        k <= configs.len(),
        m.dom().contains(id),
        forall|j: int| 0 <= j < k && configs[j].id == id ==> !differs(m[id], configs[j]@),
    ensures
        applied_first(m, configs, k).dom().contains(id),
        applied_first(m, configs, k)[id] == m[id],
    decreases k,
{
    if k > 0 {
        lemma_unchanged_entry_kept(m, configs, id, (k - 1) as nat);
    }
}

/// A poll leaves nothing to report: polled again before the monitor has
/// changed its state, the entry raises no notification. And a check that has
/// just been added is in state Unknown, so its first poll raises one.
pub proof fn lemma_poll_settles(e: EntryView, c: HealthcheckConfigView)
    ensures
        !changed(polled(e)),
        polled(polled(e)) == polled(e),
        changed(fresh_entry(c)),
{
}

} // verus!

verus! {

/// The checker of one health check.
pub enum Checker {
    Tcp(TcpChecker),
    Http(HttpChecker),
    Dns(DnsChecker),
}

/// The address that an HTTP check requests: scheme, address, port, path.
pub open spec fn url_spec(secure: bool, ip: IpAddr, port: u16, path: Seq<char>) -> Seq<char> {
    (if secure {
        "https"@
    } else {
        "http"@
    }) + "://"@ + (SocketAddr { ip, port }).text_spec() + path
}

/// Whether `checker` is the checker that the check `c` asks for.
pub open spec fn checker_matches(checker: Checker, c: HealthcheckConfigView) -> bool {
    match (checker, c.checker) {
        (Checker::Tcp(t), CheckerView::Tcp { ip, port }) => {
            &&& t.target_spec() == (SocketAddr { ip, port })
            &&& t.timeout_spec() == c.timeout
        },
        (
            Checker::Http(h),
            CheckerView::Http { ip, port, method, path, expected_codes, secure },
        ) => {
            &&& h.url_spec() == url_spec(secure, ip, port, path)
            &&& h.method_spec() == method_of(uppercase_spec(method))
            &&& h.expected_spec() == expected_codes
            &&& h.timeout_spec() == c.timeout
        },
        (Checker::Dns(d), CheckerView::Dns { query, expected_ips }) => {
            &&& d.query_spec() == query
            &&& d.expected_spec() == expected_ips
            &&& d.timeout_spec() == c.timeout
        },
        _ => false,
    }
}

/// The checker that a health check asks for: a TCP check of the address and
/// port, an HTTP check of `scheme://address:port` followed by the path, or a
/// DNS check of the query, each with the timeout of the check.
pub fn create_checker(config: &HealthcheckConfig) -> (checker: Checker)
    ensures
        checker_matches(checker, config@),
{
    match config.checker.duplicate() {
        CheckerConfig::Tcp { ip, port } => Checker::Tcp(
            TcpChecker::new(SocketAddr::new(ip, port), config.timeout),
        ),
        CheckerConfig::Http { ip, port, method, path, expected_codes, secure } => {
            let mut url: String = if secure {
                "https".to_owned()
            } else {
                "http".to_owned()
            };
            url.append("://");
            url.append(SocketAddr::new(ip, port).to_text().as_str());
            url.append(path.as_str());
            Checker::Http(
                HttpChecker::new(
                    url,
                    HttpMethod::from_name(method.as_str()),
                    expected_codes,
                    config.timeout,
                ),
            )
        },
        CheckerConfig::Dns { query, expected_ips } => Checker::Dns(
            DnsChecker::new(query, expected_ips, config.timeout),
        ),
    }
}

} // verus!

verus! {

/// The entry after its monitor has taken in the result of one check.
pub open spec fn checked(e: EntryView, status: HealthStatus, duration: Duration) -> EntryView {
    EntryView { monitor: e.monitor.after(status, duration), ..e }
}

impl Manager {
    /// Whether the result can be handed to the monitor of the check `id`:
    /// the counters of the monitor have room for it, or there is no such
    /// monitor, so that nothing would be counted.
    pub fn can_record(&self, id: HealthcheckId, result: &HealthCheckResult) -> (r: bool)
        ensures
            r == (self@.dom().contains(id) ==> self@[id].monitor.stats.has_room(result.duration)),
    {
        assert(self@.dom() =~= monitors_view(self.monitors).dom());
        match monitors_snapshot(&self.monitors, id) {
            Some(snap) => snap.stats.can_count(&result.duration),
            None => true,
        }
    }

    /// Hands the result of one check to the monitor of the check `id`. Says
    /// how the monitor changed its state, or `None` if the manager has no
    /// monitor for the check any more; then nothing happens.
    pub fn record_result(&mut self, id: HealthcheckId, result: &HealthCheckResult) -> (change:
        Option<Option<Transition>>)
        requires
            old(self).wf(),
            old(self)@.dom().contains(id) ==> old(self)@[id].monitor.stats.has_room(result.duration),
        ensures
            final(self).wf(),
            final(self).interval_spec() == old(self).interval_spec(),
            old(self)@.dom().contains(id) ==> {
                &&& final(self)@ == old(self)@.insert(
                    id,
                    checked(old(self)@[id], result.status, result.duration),
                )
                &&& change == Some(
                    transition_between(old(self)@[id].monitor.up, final(self)@[id].monitor.up),
                )
            },
            !old(self)@.dom().contains(id) ==> final(self)@ == old(self)@ && change is None,
    {
        let ghost before: EntryViews = self@;
        let ghost entries: Entries = monitors_view(self.monitors);
        assert(before.dom() =~= entries.dom());
        match monitors_remove(&mut self.monitors, id) {
            Some(mut entry) => {
                assert(before[id] == entry@);
                let change = entry.monitor.process_result(result);
                let ghost after: EntryView = entry@;
                monitors_insert(&mut self.monitors, id, entry);
                assert(monitors_view(self.monitors) =~= entries.remove(id).insert(id, entry));
                assert(self@ =~= before.insert(id, after));
                Some(change)
            },
            None => {
                assert(monitors_view(self.monitors) =~= entries);
                None
            },
        }
    }
}

} // verus!

verus! {

/// What a list holds after one more item: what it held, and the item.
proof fn lemma_contains_push(s: Seq<HealthcheckId>, x: HealthcheckId, y: HealthcheckId)
    ensures
        s.push(x).contains(y) <==> (s.contains(y) || x == y),
{
    let longer = s.push(x);
    if longer.contains(y) {
        let i = choose|i: int| 0 <= i < longer.len() && longer[i] == y;
        if i < s.len() {
            assert(s[i] == y);
        }
    }
    if s.contains(y) {
        let i = choose|i: int| 0 <= i < s.len() && s[i] == y;
        assert(longer[i] == y);
    }
    if x == y {
        assert(longer[s.len() as int] == y);
    }
}

/// What two lists hold one after the other: what either holds.
proof fn lemma_contains_add(a: Seq<HealthcheckId>, b: Seq<HealthcheckId>, y: HealthcheckId)
    ensures
        (a + b).contains(y) <==> (a.contains(y) || b.contains(y)),
{
    let both = a + b;
    if both.contains(y) {
        let i = choose|i: int| 0 <= i < both.len() && both[i] == y;
        if i < a.len() {
            assert(a[i] == y);
        } else {
            assert(b[i - a.len()] == y);
        }
    }
    if a.contains(y) {
        let i = choose|i: int| 0 <= i < a.len() && a[i] == y;
        assert(both[i] == y);
    }
    if b.contains(y) {
        let i = choose|i: int| 0 <= i < b.len() && b[i] == y;
        assert(both[a.len() + i] == y);
    }
}

/// A check whose monitor is built anew had a monitor before.
pub proof fn lemma_rebuilt_had_monitor(
    m: EntryViews,
    configs: Seq<HealthcheckConfig>,
    k: nat,
    id: HealthcheckId,
)
    requires
        k <= configs.len(),
    ensures
        rebuilt_first(m, configs, k).contains(id) ==> m.dom().contains(id),
    decreases k,
{
    if k > 0 {
        lemma_rebuilt_had_monitor(m, configs, (k - 1) as nat, id);
        lemma_contains_push(rebuilt_first(m, configs, (k - 1) as nat), configs[k - 1].id, id);
    }
}

} // verus!
