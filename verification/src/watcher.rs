//! The dual-mode watcher that discovers and elevates the embedded browser
//! engine's child processes.
//!
//! `OptimizerContext` owns the watcher's shared state: the lifecycle state
//! machine, the started and stop flags, the elevation tracking set and the
//! telemetry counter. The host spawns one background thread per process and
//! drives that thread's loop; every decision the loop takes — whether to
//! start at all, which mode to run in after event subscription succeeds or
//! fails, which processes to elevate, when to garbage-collect — is a
//! verified method here. The host performs the native calls (event
//! subscription, process handles, sleeps) and feeds their outcomes back in
//! as plain values.

use crate::name_match::is_engine_process;
use crate::name_match::is_engine_process_name;
use crate::process_table::ProcessRecord;
use crate::process_table::ProcessTable;
use crate::process_table::is_descendant;
use crate::process_table::is_descendant_of;
use crate::tracking::ElevationTracker;
use crate::vec_util::contains_u32;
use vstd::prelude::*;

verus! {

broadcast use vstd::seq_lib::group_seq_properties;

/// Seconds between polling passes.
pub const POLL_INTERVAL_SECS: u64 = 5;

/// Seconds to wait before the first polling pass, giving the engine's
/// child processes time to spawn.
pub const STARTUP_GRACE_SECS: u64 = 2;

/// Seconds the starting caller waits for the event subscription handshake.
pub const EVENT_INIT_TIMEOUT_SECS: u64 = 5;

/// Polling passes between two garbage-collection sweeps of the tracking
/// set (roughly once a minute at the polling cadence).
pub const SWEEP_INTERVAL_CYCLES: u32 = 12;

/// Lifecycle state of the watcher. Exactly one is active at a time.
#[derive(Debug, Clone, Copy, PartialEq, Eq, Structural)]
pub enum WatcherState {
    /// No mode chosen yet (before or during the event-subscription attempt).
    Uninitialized,
    /// Consuming pushed process-creation events.
    EventDriven,
    /// Re-scanning the process table at a fixed interval.
    Polling,
    /// The watcher has shut down (stop signal, or the event stream ended).
    Stopped,
}

/// Shared state of the process-optimization subsystem, owned by the host
/// and handed by reference to the single background watcher thread.
pub struct OptimizerContext {
    host_pid: u32,
    state: WatcherState,
    started: bool,
    stop_requested: bool,
    elevated: u32,
    cycles_since_sweep: u32,
    tracker: ElevationTracker,
}

impl OptimizerContext {
    /// The pid of the host process whose descendants are elevated.
    pub closed spec fn host_pid(&self) -> u32 {
        self.host_pid
    }

    /// Current lifecycle state.
    pub closed spec fn state(&self) -> WatcherState {
        self.state
    }

    /// Has a watcher thread been started for this context?
    pub closed spec fn started(&self) -> bool {
        self.started
    }

    /// Has a stop been requested?
    pub closed spec fn stop_requested(&self) -> bool {
        self.stop_requested
    }

    /// How many processes have been elevated so far. Never decreases.
    pub closed spec fn elevated_count(&self) -> u32 {
        self.elevated
    }

    /// Polling passes since the last garbage-collection sweep.
    pub closed spec fn cycles_since_sweep(&self) -> u32 {
        self.cycles_since_sweep
    }

    /// The pids already elevated.
    pub closed spec fn tracked_pids(&self) -> Set<u32> {
        self.tracker@
    }

    pub open spec fn well_formed(&self) -> bool {
        &&& self.tracker_well_formed()
        &&& self.cycles_since_sweep() < SWEEP_INTERVAL_CYCLES
    }

    /// The tracking set holds each pid once.
    pub closed spec fn tracker_well_formed(&self) -> bool {
        self.tracker.well_formed()
    }

    /// A fresh, not-yet-started context for a host process.
    pub fn new(host_pid: u32) -> (c: Self)
        ensures
            c.well_formed(),
            c.host_pid() == host_pid,
            c.state() == WatcherState::Uninitialized,
            !c.started(),
            !c.stop_requested(),
            c.elevated_count() == 0,
            c.cycles_since_sweep() == 0,
            c.tracked_pids() == Set::<u32>::empty(),
    {
        OptimizerContext {
            host_pid,
            state: WatcherState::Uninitialized,
            started: false,
            stop_requested: false,
            elevated: 0,
            cycles_since_sweep: 0,
            tracker: ElevationTracker::new(),
        }
    }

    /// Claim the right to start the watcher. The first call per context
    /// returns `true` and the caller spawns the single background thread;
    /// every later call returns `false` and changes nothing, so repeated
    /// initialization is a no-op.
    pub fn start_webview_optimizer(&mut self) -> (first_start: bool)
        requires
            old(self).well_formed(),
        ensures
            first_start == !old(self).started(),
            final(self).started(),
            final(self).host_pid() == old(self).host_pid(),
            final(self).state() == old(self).state(),
            final(self).stop_requested() == old(self).stop_requested(),
            final(self).elevated_count() == old(self).elevated_count(),
            final(self).cycles_since_sweep() == old(self).cycles_since_sweep(),
            final(self).tracked_pids() == old(self).tracked_pids(),
            final(self).well_formed(),
    {
        if self.started {
            false
        } else {
            self.started = true;
            true
        }
    }

    /// Record the outcome of the event-subscription handshake: success
    /// enters event-driven mode, failure (or timeout) falls back to
    /// polling.
    pub fn event_init_result(&mut self, success: bool)
        requires
            old(self).well_formed(),
            old(self).state() == WatcherState::Uninitialized,
        ensures
            final(self).state() == (if success {
                WatcherState::EventDriven
            } else {
                WatcherState::Polling
            }),
            final(self).host_pid() == old(self).host_pid(),
            final(self).started() == old(self).started(),
            final(self).stop_requested() == old(self).stop_requested(),
            final(self).elevated_count() == old(self).elevated_count(),
            final(self).cycles_since_sweep() == old(self).cycles_since_sweep(),
            final(self).tracked_pids() == old(self).tracked_pids(),
            final(self).well_formed(),
    {
        if success {
            self.state = WatcherState::EventDriven;
        } else {
            self.state = WatcherState::Polling;
        }
    }

    /// The event stream ended on its own: the watcher stops rather than
    /// silently entering an unmonitored state. There is no automatic
    /// re-subscription.
    pub fn on_event_stream_end(&mut self)
        requires
            old(self).well_formed(),
            old(self).state() == WatcherState::EventDriven,
        ensures
            final(self).state() == WatcherState::Stopped,
            final(self).host_pid() == old(self).host_pid(),
            final(self).started() == old(self).started(),
            final(self).stop_requested() == old(self).stop_requested(),
            final(self).elevated_count() == old(self).elevated_count(),
            final(self).cycles_since_sweep() == old(self).cycles_since_sweep(),
            final(self).tracked_pids() == old(self).tracked_pids(),
            final(self).well_formed(),
    {
        self.state = WatcherState::Stopped;
    }

    /// Ask the watcher to stop: best-effort and non-blocking; the loop
    /// observes the flag at the top of its next iteration.
    pub fn request_stop(&mut self)
        requires
            old(self).well_formed(),
        ensures
            final(self).stop_requested(),
            final(self).host_pid() == old(self).host_pid(),
            final(self).state() == old(self).state(),
            final(self).started() == old(self).started(),
            final(self).elevated_count() == old(self).elevated_count(),
            final(self).cycles_since_sweep() == old(self).cycles_since_sweep(),
            final(self).tracked_pids() == old(self).tracked_pids(),
            final(self).well_formed(),
    {
        self.stop_requested = true;
    }

    /// Should the watcher loop run another iteration?
    pub fn should_continue(&self) -> (r: bool)
        ensures
            r == !self.stop_requested(),
    {
        !self.stop_requested
    }

    /// The loop observed the stop flag and is exiting.
    pub fn acknowledge_stop(&mut self)
        requires
            old(self).well_formed(),
            old(self).stop_requested(),
        ensures
            final(self).state() == WatcherState::Stopped,
            final(self).host_pid() == old(self).host_pid(),
            final(self).started() == old(self).started(),
            final(self).stop_requested() == old(self).stop_requested(),
            final(self).elevated_count() == old(self).elevated_count(),
            final(self).cycles_since_sweep() == old(self).cycles_since_sweep(),
            final(self).tracked_pids() == old(self).tracked_pids(),
            final(self).well_formed(),
    {
        self.state = WatcherState::Stopped;
    }

    /// Should a sighted process be elevated? Yes exactly when its name is
    /// an engine child-process name, its ancestry leads to the host
    /// process, and it has not been elevated before.
    pub open spec fn should_elevate(
        &self,
        table: Seq<ProcessRecord>,
        pid: u32,
        parent_pid: u32,
        name: Seq<u8>,
    ) -> bool {
        &&& is_engine_process_name(name)
        &&& (parent_pid == self.host_pid() || is_descendant(table, pid, self.host_pid()))
        &&& !self.tracked_pids().contains(pid)
    }

    /// Decide whether to elevate a process sighted by the event stream.
    /// `table` is a fresh snapshot used only for the ancestry walk.
    pub fn decide_elevation(
        &self,
        table: &ProcessTable,
        pid: u32,
        parent_pid: u32,
        name: &Vec<u8>,
    ) -> (r: bool)
        ensures
            r == self.should_elevate(table@, pid, parent_pid, name@),
    {
        if !is_engine_process(name) {
            return false;
        }
        if !(parent_pid == self.host_pid || is_descendant_of(table, pid, self.host_pid)) {
            return false;
        }
        !self.tracker.contains(pid)
    }

    /// Record the outcome of one elevation attempt: the pid becomes
    /// tracked either way (so it is never attempted again), and the
    /// telemetry counter grows — without ever wrapping back — exactly when
    /// the elevation succeeded.
    pub fn record_sighting(&mut self, pid: u32, elevation_succeeded: bool)
        requires
            old(self).well_formed(),
        ensures
            final(self).tracked_pids() == old(self).tracked_pids().insert(pid),
            final(self).elevated_count() == (if elevation_succeeded && old(self).elevated_count()
                < u32::MAX {
                old(self).elevated_count() + 1
            } else {
                old(self).elevated_count() as int
            }),
            final(self).elevated_count() >= old(self).elevated_count(),
            final(self).host_pid() == old(self).host_pid(),
            final(self).state() == old(self).state(),
            final(self).started() == old(self).started(),
            final(self).stop_requested() == old(self).stop_requested(),
            final(self).cycles_since_sweep() == old(self).cycles_since_sweep(),
            final(self).well_formed(),
    {
        let _ = self.tracker.observe(pid);
        if elevation_succeeded && self.elevated < u32::MAX {
            self.elevated = self.elevated + 1;
        }
    }

    /// Does a record of the snapshot make its pid worth elevating in a
    /// polling pass?
    pub open spec fn record_is_candidate(&self, table: Seq<ProcessRecord>, i: int) -> bool {
        &&& 0 <= i < table.len()
        &&& self.should_elevate(table, table[i].pid, table[i].parent_pid, table[i].name@)
    }

    /// Is `pid` one of the pids a polling pass over `table` elevates?
    pub open spec fn is_candidate_pid(&self, table: Seq<ProcessRecord>, pid: u32) -> bool {
        exists|i: int| #[trigger] self.record_is_candidate(table, i) && table[i].pid == pid
    }

    /// One polling pass: scan a fresh snapshot and collect, once each, the
    /// pids of engine child processes that descend from the host and are
    /// not yet tracked.
    pub fn polling_candidates(&self, table: &ProcessTable) -> (v: Vec<u32>)
        ensures
            v@.no_duplicates(),
            forall|pid: u32| v@.contains(pid) <==> self.is_candidate_pid(table@, pid),
    {
        let mut v: Vec<u32> = Vec::new();
        let n = table.len();
        let mut i: usize = 0;
        while i < n
            invariant
                n == table@.len(),
                0 <= i <= n,
                v@.no_duplicates(),
                forall|pid: u32|
                    v@.contains(pid) <==> exists|k: int|
                        0 <= k < i && #[trigger] self.record_is_candidate(table@, k)
                            && table@[k].pid == pid,
            decreases n - i,
        {
            let r = table.record_at(i);
            let pid = r.pid;
            let parent_pid = r.parent_pid;
            let ghost old_v = v@;
            let is_new = self.decide_elevation(table, pid, parent_pid, &r.name)
                && !contains_u32(&v, pid);
            if is_new {
                v.push(pid);
                proof {
                    assert(self.record_is_candidate(table@, i as int));
                    assert forall|q: u32| v@.contains(q) implies exists|k: int|
                        0 <= k < i + 1 && #[trigger] self.record_is_candidate(table@, k)
                            && table@[k].pid == q by {
                        if q == pid {
                            assert(self.record_is_candidate(table@, i as int) && table@[
                                i as int
                            ].pid == q);
                        } else {
                            assert(old_v.contains(q));
                        }
                    }
                }
            } else {
                proof {
                    if self.should_elevate(table@, pid, parent_pid, table@[i as int].name@) {
                        assert(self.record_is_candidate(table@, i as int));
                        assert(v@.contains(pid));
                    }
                    assert forall|q: u32|
                        (exists|k: int|
                            0 <= k < i + 1 && #[trigger] self.record_is_candidate(table@, k)
                                && table@[k].pid == q) implies v@.contains(q) by {
                        let k = choose|k: int|
                            0 <= k < i + 1 && #[trigger] self.record_is_candidate(table@, k)
                                && table@[k].pid == q;
                        if k == i {
                            assert(v@.contains(pid));
                        }
                    }
                }
            }
            i = i + 1;
        }
        v
    }

    /// Count a completed polling pass and say whether the periodic
    /// garbage-collection sweep is due (every `SWEEP_INTERVAL_CYCLES`
    /// passes).
    pub fn sweep_due(&mut self) -> (due: bool)
        requires
            old(self).well_formed(),
        ensures
            due == (old(self).cycles_since_sweep() + 1 == SWEEP_INTERVAL_CYCLES),
            final(self).cycles_since_sweep() == (if due {
                0u32
            } else {
                (old(self).cycles_since_sweep() + 1) as u32
            }),
            final(self).host_pid() == old(self).host_pid(),
            final(self).state() == old(self).state(),
            final(self).started() == old(self).started(),
            final(self).stop_requested() == old(self).stop_requested(),
            final(self).elevated_count() == old(self).elevated_count(),
            final(self).tracked_pids() == old(self).tracked_pids(),
            final(self).well_formed(),
    {
        let next = self.cycles_since_sweep + 1;
        if next == SWEEP_INTERVAL_CYCLES {
            self.cycles_since_sweep = 0;
            true
        } else {
            self.cycles_since_sweep = next;
            false
        }
    }

    /// Garbage-collect the tracking set: keep exactly the tracked pids
    /// whose process is still openable (`live`). The telemetry counter is
    /// untouched: it never decreases, even as the tracking set shrinks.
    pub fn apply_sweep(&mut self, live: &Vec<u32>)
        requires
            old(self).well_formed(),
        ensures
            final(self).tracked_pids() == old(self).tracked_pids().intersect(live@.to_set()),
            final(self).elevated_count() == old(self).elevated_count(),
            final(self).host_pid() == old(self).host_pid(),
            final(self).state() == old(self).state(),
            final(self).started() == old(self).started(),
            final(self).stop_requested() == old(self).stop_requested(),
            final(self).cycles_since_sweep() == old(self).cycles_since_sweep(),
            final(self).well_formed(),
    {
        self.tracker.sweep(live);
    }

    /// The watcher's current lifecycle state.
    pub fn current_state(&self) -> (s: WatcherState)
        ensures
            s == self.state(),
    {
        self.state
    }

    /// The telemetry counter's current value.
    pub fn current_elevated_count(&self) -> (n: u32)
        ensures
            n == self.elevated_count(),
    {
        self.elevated
    }

    /// Has the watcher been started?
    pub fn is_started(&self) -> (r: bool)
        ensures
            r == self.started(),
    {
        self.started
    }

    /// Is `pid` currently tracked as elevated?
    pub fn is_tracked(&self, pid: u32) -> (r: bool)
        ensures
            r == self.tracked_pids().contains(pid),
    {
        self.tracker.contains(pid)
    }

    /// The tracked pids as a list, for the liveness probe of a
    /// garbage-collection pass.
    pub fn tracked_pid_list(&self) -> (v: Vec<u32>)
        requires
            self.well_formed(),
        ensures
            v@.no_duplicates(),
            v@.to_set() == self.tracked_pids(),
    {
        self.tracker.pid_list()
    }

    /// How many pids the tracking set currently holds.
    pub fn tracked_len(&self) -> (n: usize)
        requires
            self.well_formed(),
        ensures
            n == self.tracked_pids().len(),
    {
        self.tracker.len()
    }
}

/// How a watcher step may change the telemetry counter, starting from
/// `count`: a recorded sighting raises it by one — saturating, never
/// wrapping — exactly when the elevation succeeded; every other step
/// (sweeps, mode changes, stop signals) leaves it alone. These are the
/// steps `record_sighting`, `apply_sweep` and the state transitions take.
#[derive(Debug, Clone, Copy, PartialEq, Eq, Structural)]
pub enum WatcherStep {
    Sighting(bool),
    Sweep,
    ModeChange,
}

/// The telemetry counter after one step.
pub open spec fn elevated_after(count: u32, step: WatcherStep) -> u32 {
    match step {
        WatcherStep::Sighting(succeeded) => if succeeded && count < u32::MAX {
            (count + 1) as u32
        } else {
            count
        },
        WatcherStep::Sweep => count,
        WatcherStep::ModeChange => count,
    }
}

/// The telemetry counter after a run of steps.
pub open spec fn elevated_after_all(count: u32, steps: Seq<WatcherStep>) -> u32
    decreases steps.len(),
{
    if steps.len() == 0 {
        count
    } else {
        elevated_after_all(elevated_after(count, steps[0]), steps.drop_first())
    }
}

/// Telemetry monotonicity: across any run of watcher steps — elevations,
/// garbage-collection sweeps, mode changes — the elevation counter never
/// decreases.
pub proof fn lemma_elevated_count_monotonic(count: u32, steps: Seq<WatcherStep>)
    ensures
        elevated_after_all(count, steps) >= count,
    decreases steps.len(),
{
    if steps.len() == 0 {
    } else {
        lemma_elevated_count_monotonic(elevated_after(count, steps[0]), steps.drop_first());
    }
}

/// How many of `n` successive start calls on one context actually spawn a
/// watcher thread: a call spawns exactly when the context is not yet
/// started, and the context is started afterwards — the step
/// `OptimizerContext::start_webview_optimizer` takes.
pub open spec fn spawn_count(started: bool, n: nat) -> nat
    decreases n,
{
    if n == 0 {
        0
    } else {
        (if !started {
            1nat
        } else {
            0nat
        }) + spawn_count(true, (n - 1) as nat)
    }
}

/// Idempotent start: any positive number of start calls on a fresh
/// context spawns exactly one watcher thread; on an already-started
/// context, none at all.
pub proof fn lemma_start_spawns_exactly_once(n: nat)
    requires
        n >= 1,
    ensures
        spawn_count(false, n) == 1,
        spawn_count(true, n) == 0,
    decreases n,
{
    if n == 1 {
        assert(spawn_count(true, 0) == 0);
    } else {
        lemma_start_spawns_exactly_once((n - 1) as nat);
    }
}

} // verus!
