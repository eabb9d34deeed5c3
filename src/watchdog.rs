//! The watchdog: one child slot, restart with backoff, shutdown on
//! cancellation.
//!
//! The watchdog is a state machine. Its owner performs each `Action` (spawn,
//! sleep, kill, inspect) and reports what happened as the next `Event`; the
//! machine itself never touches a process.

use vstd::prelude::*;
use crate::policy::{
    next_backoff, next_backoff_spec, pause_before_spawn, pause_before_spawn_spec,
    BACKOFF_CAP_SECS, BACKOFF_FLOOR_SECS, JITTER_STEP_MS, MAX_WATCHDOGS, POLL_INTERVAL_MS,
};

verus! {

/// Where a watchdog stands at the end of an iteration.
#[derive(Clone, Copy, Debug, PartialEq, Eq, Structural)]
pub enum Phase {
    NoChild,
    Running,
    ShuttingDown,
}

/// What a non-blocking poll of the owned child reported.
#[derive(Clone, Copy, Debug, PartialEq, Eq, Structural)]
pub enum ChildStatus {
    /// No child is owned.
    Absent,
    StillRunning,
    ExitedOk,
    ExitedFailed,
    /// The status query itself failed.
    CheckFailed,
}

/// What the owner of a watchdog observed.
#[derive(Clone, Copy, Debug, PartialEq, Eq, Structural)]
pub enum Event {
    /// Start of an iteration: the cancellation flag and, while it reads
    /// "running", the child's status.
    Tick { cancelled: bool, status: ChildStatus },
    Spawned,
    SpawnFailed,
    /// Result of a health probe of a running child.
    Probed { responsive: bool },
    /// The owner's iteration failed unexpectedly; the watchdog carries on
    /// from a clean slate.
    Faulted,
}

/// What the owner of a watchdog must do next.
#[derive(Clone, Copy, Debug, PartialEq, Eq, Structural)]
pub enum Action {
    /// Kill the owned child if there is one, release it, and leave the loop.
    Shutdown,
    /// Release any handle, sleep `pause_secs`, terminate stray instances of
    /// the target if `reconcile`, then spawn and report the outcome.
    Spawn { pause_secs: u64, reconcile: bool },
    /// Inspect the child's run state and report it.
    Probe,
    /// Kill the owned child and release its handle.
    Kill,
    /// Sleep this many seconds.
    Sleep { secs: u64 },
    /// Nothing beyond the poll interval.
    Idle,
}

#[derive(Clone, Copy, Debug, PartialEq, Eq, Structural)]
pub struct WatchdogConfig {
    /// Number of this watchdog among its siblings; staggers the poll interval.
    pub instance: u64,
    /// Terminate stray instances of the target before each spawn.
    pub reconcile: bool,
    /// Probe the run state of a child that is still running.
    pub health_probe: bool,
}

#[derive(Clone, Copy, Debug, PartialEq, Eq, Structural)]
pub struct Watchdog {
    pub config: WatchdogConfig,
    pub phase: Phase,
    /// Consecutive failures (failed spawns, failed exits, failed status checks).
    pub failures: u64,
    /// Current backoff in seconds.
    pub backoff_secs: u64,
}

/// One more failure, saturating at the top of the counter's range.
pub open spec fn bumped(failures: u64) -> u64 {
    if failures < u64::MAX {
        (failures + 1) as u64
    } else {
        failures
    }
}

/// The failure counter after a poll reported `status`.
pub open spec fn failures_after(failures: u64, status: ChildStatus) -> u64 {
    match status {
        ChildStatus::ExitedOk => 0,
        ChildStatus::ExitedFailed | ChildStatus::CheckFailed => bumped(failures),
        _ => failures,
    }
}

impl WatchdogConfig {
    pub open spec fn wf(self) -> bool {
        self.instance < MAX_WATCHDOGS
    }

    /// The single watchdog of resilient mode: no reconciliation, no probe.
    pub fn resilient() -> (r: WatchdogConfig)
        ensures
            r.wf(),
            r == (WatchdogConfig { instance: 0, reconcile: false, health_probe: false }),
    {
        WatchdogConfig { instance: 0, reconcile: false, health_probe: false }
    }

    /// Watchdog number `instance` of super-resilient mode: it reconciles and
    /// probes.
    pub fn super_resilient(instance: u64) -> (r: WatchdogConfig)
        requires
            instance < MAX_WATCHDOGS,
        ensures
            r.wf(),
            r == (WatchdogConfig { instance, reconcile: true, health_probe: true }),
    {
        WatchdogConfig { instance, reconcile: true, health_probe: true }
    }
}

impl Watchdog {
    pub open spec fn wf(self) -> bool {
        &&& self.config.wf()
        &&& BACKOFF_FLOOR_SECS <= self.backoff_secs <= BACKOFF_CAP_SECS
    }

    /// A watchdog that owns no child and has seen no failure.
    pub open spec fn initial(config: WatchdogConfig) -> Watchdog {
        Watchdog { config, phase: Phase::NoChild, failures: 0, backoff_secs: BACKOFF_FLOOR_SECS }
    }

    /// The transition: the next state and the action owed for `event`.
    pub open spec fn step_spec(self, event: Event) -> (Watchdog, Action) {
        if self.phase == Phase::ShuttingDown {
            (self, Action::Shutdown)
        } else {
            match event {
                Event::Tick { cancelled, status } => {
                    if cancelled {
                        (Watchdog { phase: Phase::ShuttingDown, ..self }, Action::Shutdown)
                    } else if status == ChildStatus::StillRunning {
                        (
                            Watchdog { phase: Phase::Running, ..self },
                            if self.config.health_probe {
                                Action::Probe
                            } else {
                                Action::Idle
                            },
                        )
                    } else {
                        let failures = failures_after(self.failures, status);
                        (
                            Watchdog { phase: Phase::NoChild, failures, ..self },
                            Action::Spawn {
                                pause_secs: pause_before_spawn_spec(failures as int) as u64,
                                reconcile: self.config.reconcile,
                            },
                        )
                    }
                },
                Event::Spawned => (
                    Watchdog {
                        phase: Phase::Running,
                        failures: 0,
                        backoff_secs: BACKOFF_FLOOR_SECS,
                        ..self
                    },
                    Action::Idle,
                ),
                Event::SpawnFailed => {
                    let backoff_secs = next_backoff_spec(self.backoff_secs as int) as u64;
                    (
                        Watchdog {
                            phase: Phase::NoChild,
                            failures: bumped(self.failures),
                            backoff_secs,
                            ..self
                        },
                        Action::Sleep { secs: backoff_secs },
                    )
                },
                Event::Probed { responsive } => {
                    if responsive {
                        (Watchdog { phase: Phase::Running, ..self }, Action::Idle)
                    } else {
                        (Watchdog { phase: Phase::NoChild, ..self }, Action::Kill)
                    }
                },
                Event::Faulted => (Watchdog { phase: Phase::NoChild, ..self }, Action::Kill),
            }
        }
    }

    /// The state after a whole sequence of events.
    pub open spec fn run_spec(self, events: Seq<Event>) -> Watchdog
        decreases events.len(),
    {
        if events.len() == 0 {
            self
        } else {
            self.run_spec(events.drop_last()).step_spec(events.last()).0
        }
    }

    /// A fresh watchdog with the given configuration.
    pub fn new(config: WatchdogConfig) -> (r: Watchdog)
        requires
            config.wf(),
        ensures
            r == Watchdog::initial(config),
            r.wf(),
    {
        Watchdog { config, phase: Phase::NoChild, failures: 0, backoff_secs: BACKOFF_FLOOR_SECS }
    }

    /// Advances the watchdog by one event and returns the action owed.
    pub fn step(&mut self, event: Event) -> (a: Action)
        requires
            old(self).wf(),
        ensures
            (*final(self), a) == old(self).step_spec(event),
            final(self).wf(),
    {
        if self.phase == Phase::ShuttingDown {
            return Action::Shutdown;
        }
        match event {
            Event::Tick { cancelled, status } => {
                if cancelled {
                    self.phase = Phase::ShuttingDown;
                    Action::Shutdown
                } else if status == ChildStatus::StillRunning {
                    self.phase = Phase::Running;
                    if self.config.health_probe {
                        Action::Probe
                    } else {
                        Action::Idle
                    }
                } else {
                    self.failures = match status {
                        ChildStatus::ExitedOk => 0,
                        ChildStatus::ExitedFailed | ChildStatus::CheckFailed => {
                            self.failures.saturating_add(1)
                        },
                        _ => self.failures,
                    };
                    self.phase = Phase::NoChild;
                    Action::Spawn {
                        pause_secs: pause_before_spawn(self.failures),
                        reconcile: self.config.reconcile,
                    }
                }
            },
            Event::Spawned => {
                self.phase = Phase::Running;
                self.failures = 0;
                self.backoff_secs = BACKOFF_FLOOR_SECS;
                Action::Idle
            },
            Event::SpawnFailed => {
                self.phase = Phase::NoChild;
                self.failures = self.failures.saturating_add(1);
                self.backoff_secs = next_backoff(self.backoff_secs);
                Action::Sleep { secs: self.backoff_secs }
            },
            Event::Probed { responsive } => {
                if responsive {
                    self.phase = Phase::Running;
                    Action::Idle
                } else {
                    self.phase = Phase::NoChild;
                    Action::Kill
                }
            },
            Event::Faulted => {
                self.phase = Phase::NoChild;
                Action::Kill
            },
        }
    }

    /// Milliseconds to sleep at the end of each iteration, staggered by
    /// instance number so that sibling watchdogs do not poll in lockstep.
    pub fn poll_interval_ms(&self) -> (r: u64)
        requires
            self.wf(),
        ensures
            r == POLL_INTERVAL_MS + JITTER_STEP_MS * self.config.instance,
    {
        POLL_INTERVAL_MS + JITTER_STEP_MS * self.config.instance
    }
}

/// Whether a process-state report shows the process runnable (`R`, byte 82)
/// or sleeping (`S`, byte 83): the report is read whole, as the probe received it.
pub open spec fn shows_responsive(report: Seq<u8>) -> bool {
    exists|i: int| 0 <= i < report.len() && (report[i] == 82u8 || report[i] == 83u8)
}

/// Reads a health-probe report: `true` when it shows the process runnable or
/// sleeping, so the child may keep running.
pub fn reports_responsive(report: &[u8]) -> (r: bool)
    ensures
        r == shows_responsive(report@),
{
    let mut i: usize = 0;
    while i < report.len()
        invariant
            i <= report.len(),
            forall|j: int| 0 <= j < i ==> report@[j] != 82u8 && report@[j] != 83u8,
        decreases report.len() - i,
    {
        if report[i] == 82u8 || report[i] == 83u8 {
            return true;
        }
        i += 1;
    }
    false
}

/// Verdict of a health probe: a report is read as `reports_responsive`
/// does; a probe that could not run (`None`) leaves the child be.
pub fn probe_verdict(report: &Option<Vec<u8>>) -> (r: bool)
    ensures
        match report {
            Some(v) => r == shows_responsive(v@),
            None => r,
        },
{
    match report {
        Some(v) => reports_responsive(v.as_slice()),
        None => true,
    }
}

/// A single transition keeps a watchdog well formed and its configuration
/// unchanged.
pub proof fn lemma_step_wf(w: Watchdog, event: Event)
    requires
        w.wf(),
    ensures
        w.step_spec(event).0.wf(),
        w.step_spec(event).0.config == w.config,
{
    crate::policy::lemma_next_backoff_bounded(w.backoff_secs as int);
}

/// Whatever sequence of observations a watchdog goes through (exits with zero
/// or non-zero status, failed status checks, spawn outcomes, probes, faults,
/// cancellation), it stays well formed; and each iteration's poll leaves it in
/// the phase that the observation dictates: `ShuttingDown` once cancelled,
/// `Running` while the child runs, `NoChild` otherwise.
pub proof fn lemma_phase_always_defined(
    w: Watchdog,
    events: Seq<Event>,
    cancelled: bool,
    status: ChildStatus,
)
    requires
        w.wf(),
    ensures
        w.run_spec(events).wf(),
        ({
            let v = w.run_spec(events);
            let next = v.step_spec(Event::Tick { cancelled, status }).0;
            &&& (v.phase == Phase::ShuttingDown || cancelled) ==> next.phase == Phase::ShuttingDown
            &&& (v.phase != Phase::ShuttingDown && !cancelled && status == ChildStatus::StillRunning)
                ==> next.phase == Phase::Running
            &&& (v.phase != Phase::ShuttingDown && !cancelled && status != ChildStatus::StillRunning)
                ==> next.phase == Phase::NoChild
        }),
    decreases events.len(),
{
    if events.len() > 0 {
        lemma_phase_always_defined(w, events.drop_last(), cancelled, status);
        lemma_step_wf(w.run_spec(events.drop_last()), events.last());
    }
}

/// Across consecutive failed spawns the backoff never decreases and never
/// exceeds the cap; a successful spawn resets it to the floor.
pub proof fn lemma_backoff_law(w: Watchdog, events: Seq<Event>, k: int)
    requires
        w.wf(),
        w.phase != Phase::ShuttingDown,
        0 <= k <= events.len(),
        forall|i: int| 0 <= i < events.len() ==> events[i] == Event::SpawnFailed,
    ensures
        w.backoff_secs <= w.run_spec(events.take(k)).backoff_secs,
        w.run_spec(events.take(k)).backoff_secs <= w.run_spec(events).backoff_secs,
        w.run_spec(events).backoff_secs <= BACKOFF_CAP_SECS,
        w.run_spec(events).phase != Phase::ShuttingDown,
        w.run_spec(events).step_spec(Event::Spawned).0.backoff_secs == BACKOFF_FLOOR_SECS,
    decreases events.len(),
{
    if events.len() > 0 {
        let prefix = events.drop_last();
        if k == events.len() {
            assert(events.take(k) =~= events);
            lemma_backoff_law(w, prefix, 0);
        } else {
            assert(events.take(k) =~= prefix.take(k));
            lemma_backoff_law(w, prefix, k);
        }
        lemma_backoff_law(w, prefix, prefix.len() as int);
        assert(prefix.take(prefix.len() as int) =~= prefix);
        let v = w.run_spec(prefix);
        lemma_phase_always_defined(w, prefix, false, ChildStatus::Absent);
        crate::policy::lemma_next_backoff_bounded(v.backoff_secs as int);
    } else {
        assert(events.take(k) =~= events);
    }
}

/// Cancellation is final: once a watchdog has seen the flag read "stopping",
/// every later event, whatever it is, leaves it shutting down and asks its
/// owner to kill the child and leave the loop.
pub proof fn lemma_cancellation_final(
    w: Watchdog,
    before: Seq<Event>,
    status: ChildStatus,
    after: Seq<Event>,
    event: Event,
)
    ensures
        ({
            let stopped = w.run_spec(before.push(Event::Tick { cancelled: true, status }));
            &&& stopped.phase == Phase::ShuttingDown
            &&& stopped.run_spec(after) == stopped
            &&& stopped.step_spec(event) == (stopped, Action::Shutdown)
        }),
    decreases after.len(),
{
    let stopped = w.run_spec(before.push(Event::Tick { cancelled: true, status }));
    assert(before.push(Event::Tick { cancelled: true, status }).drop_last() =~= before);
    if after.len() > 0 {
        lemma_cancellation_final(w, before, status, after.drop_last(), after.last());
    }
}

} // verus!
