//! The orchestrator: locate and prepare the target, harden, arm
//! cancellation, start the watchdogs, wait, and join every one of them.
//!
//! Like the watchdog it is a state machine: its owner performs each
//! `SupervisorAction` and reports the outcome as a `SupervisorEvent`.

use vstd::prelude::*;
use vstd::string::to_string_from_display_ensures;
use crate::error::{prefixed, XmrError};
use crate::policy::{MAX_WATCHDOGS, SUPERVISOR_WAIT_SECS};
use crate::watchdog::{Watchdog, WatchdogConfig};

verus! {

/// How many redundant watchdogs guard the target.
#[derive(Clone, Copy, Debug, PartialEq, Eq, Structural)]
pub enum Mode {
    /// One watchdog.
    Resilient,
    /// Three watchdogs that reconcile stray instances and probe health.
    SuperResilient,
}

#[derive(Clone, Copy, Debug, PartialEq, Eq, Structural)]
pub enum Stage {
    Locating,
    Preparing,
    Hardening,
    Arming,
    Watching,
    Joining,
    Failed,
    Succeeded,
}

#[derive(Clone, Copy, Debug, PartialEq, Eq, Structural)]
pub enum SupervisorEvent {
    TargetFound,
    TargetMissing,
    PermissionsFixed,
    PermissionsUnfixable,
    /// Hardening was attempted; its failures are warnings only.
    Hardened,
    /// Installing the interrupt handler was attempted; without it the run
    /// goes on until killed from outside.
    Armed,
    FlagRead { cancelled: bool },
    /// A watchdog's thread was joined (`ok == false`: it ended abnormally,
    /// reported as a warning).
    Joined { ok: bool },
}

#[derive(Clone, Copy, Debug, PartialEq, Eq, Structural)]
pub enum SupervisorAction {
    Locate,
    FixPermissions,
    Harden,
    ArmCancellation,
    /// Start this many watchdogs, configured by `watchdogs_for`.
    StartWatchdogs { count: u64 },
    /// Sleep, then read the cancellation flag.
    Wait { secs: u64 },
    /// Join the watchdog with this index.
    Join { index: u64 },
    /// Return the fatal error just reported; no watchdog was started.
    Fail,
    /// Return success: every watchdog has been joined.
    Succeed,
}

#[derive(Clone, Copy, Debug, PartialEq, Eq, Structural)]
pub struct Supervisor {
    pub mode: Mode,
    pub stage: Stage,
    /// Watchdogs started.
    pub started: u64,
    /// Watchdogs joined.
    pub joined: u64,
    /// Joins that reported an abnormal end.
    pub join_failures: u64,
}

pub open spec fn watchdog_count_spec(mode: Mode) -> u64 {
    match mode {
        Mode::Resilient => 1,
        Mode::SuperResilient => MAX_WATCHDOGS,
    }
}

/// Configuration of watchdog `i` in `mode`.
pub open spec fn config_for(mode: Mode, i: u64) -> WatchdogConfig {
    match mode {
        Mode::Resilient => WatchdogConfig { instance: 0, reconcile: false, health_probe: false },
        Mode::SuperResilient => WatchdogConfig { instance: i, reconcile: true, health_probe: true },
    }
}

/// Number of watchdogs that `mode` runs.
pub fn watchdog_count(mode: Mode) -> (r: u64)
    ensures
        r == watchdog_count_spec(mode),
{
    match mode {
        Mode::Resilient => 1,
        Mode::SuperResilient => MAX_WATCHDOGS,
    }
}

/// The fresh watchdogs of `mode`, in instance order.
pub fn watchdogs_for(mode: Mode) -> (r: Vec<Watchdog>)
    ensures
        r@.len() == watchdog_count_spec(mode),
        forall|i: int|
            0 <= i < r@.len() ==> r@[i] == Watchdog::initial(config_for(mode, i as u64)) && r@[i].wf(),
{
    let n = watchdog_count(mode);
    let mut r: Vec<Watchdog> = Vec::new();
    let mut i: u64 = 0;
    while i < n
        invariant
            n == watchdog_count_spec(mode),
            i <= n,
            r@.len() == i,
            forall|j: int|
                0 <= j < i ==> r@[j] == Watchdog::initial(config_for(mode, j as u64)) && r@[j].wf(),
        decreases n - i,
    {
        let config = match mode {
            Mode::Resilient => WatchdogConfig::resilient(),
            Mode::SuperResilient => WatchdogConfig::super_resilient(i),
        };
        r.push(Watchdog::new(config));
        i += 1;
    }
    r
}

impl Supervisor {
    pub open spec fn initial(mode: Mode) -> Supervisor {
        Supervisor { mode, stage: Stage::Locating, started: 0, joined: 0, join_failures: 0 }
    }

    /// The bookkeeping that every reachable state keeps.
    pub open spec fn wf(self) -> bool {
        let n = watchdog_count_spec(self.mode);
        &&& self.join_failures <= self.joined <= self.started
        &&& match self.stage {
            Stage::Locating | Stage::Preparing | Stage::Hardening | Stage::Arming | Stage::Failed => self.started
                == 0,
            Stage::Watching => self.started == n && self.joined == 0,
            Stage::Joining => self.started == n && self.joined < n,
            Stage::Succeeded => self.started == n && self.joined == n,
        }
    }

    /// The action that the current stage waits on.
    pub open spec fn pending(self) -> SupervisorAction {
        match self.stage {
            Stage::Locating => SupervisorAction::Locate,
            Stage::Preparing => SupervisorAction::FixPermissions,
            Stage::Hardening => SupervisorAction::Harden,
            Stage::Arming => SupervisorAction::ArmCancellation,
            Stage::Watching => SupervisorAction::Wait { secs: SUPERVISOR_WAIT_SECS },
            Stage::Joining => SupervisorAction::Join { index: self.joined },
            Stage::Failed => SupervisorAction::Fail,
            Stage::Succeeded => SupervisorAction::Succeed,
        }
    }

    /// The transition; an event that the stage does not wait on changes
    /// nothing and repeats the pending action.
    pub open spec fn step_spec(self, event: SupervisorEvent) -> (Supervisor, SupervisorAction) {
        let n = watchdog_count_spec(self.mode);
        let next = match (self.stage, event) {
            (Stage::Locating, SupervisorEvent::TargetFound) => Supervisor { stage: Stage::Preparing, ..self },
            (Stage::Locating, SupervisorEvent::TargetMissing) => Supervisor { stage: Stage::Failed, ..self },
            (Stage::Preparing, SupervisorEvent::PermissionsFixed) => Supervisor { stage: Stage::Hardening, ..self },
            (Stage::Preparing, SupervisorEvent::PermissionsUnfixable) => Supervisor { stage: Stage::Failed, ..self },
            (Stage::Hardening, SupervisorEvent::Hardened) => Supervisor { stage: Stage::Arming, ..self },
            (Stage::Arming, SupervisorEvent::Armed) => Supervisor { stage: Stage::Watching, started: n, ..self },
            (Stage::Watching, SupervisorEvent::FlagRead { cancelled }) => if cancelled {
                Supervisor { stage: Stage::Joining, ..self }
            } else {
                self
            },
            (Stage::Joining, SupervisorEvent::Joined { ok }) => Supervisor {
                stage: if self.joined + 1 == self.started {
                    Stage::Succeeded
                } else {
                    Stage::Joining
                },
                joined: (self.joined + 1) as u64,
                join_failures: if ok {
                    self.join_failures
                } else {
                    (self.join_failures + 1) as u64
                },
                ..self
            },
            _ => self,
        };
        let action = if self.stage == Stage::Arming && next.stage == Stage::Watching {
            SupervisorAction::StartWatchdogs { count: n }
        } else {
            next.pending()
        };
        (next, action)
    }

    /// The state after a whole sequence of events.
    pub open spec fn run_spec(self, events: Seq<SupervisorEvent>) -> Supervisor
        decreases events.len(),
    {
        if events.len() == 0 {
            self
        } else {
            self.run_spec(events.drop_last()).step_spec(events.last()).0
        }
    }

    /// A supervisor for `mode`, and its first action: locate the target.
    pub fn new(mode: Mode) -> (r: (Supervisor, SupervisorAction))
        ensures
            r.0 == Supervisor::initial(mode),
            r.0.wf(),
            r.1 == SupervisorAction::Locate,
    {
        (Supervisor { mode, stage: Stage::Locating, started: 0, joined: 0, join_failures: 0 }, SupervisorAction::Locate)
    }

    /// Advances the supervisor by one event and returns the action owed.
    pub fn step(&mut self, event: SupervisorEvent) -> (a: SupervisorAction)
        requires
            old(self).wf(),
        ensures
            (*final(self), a) == old(self).step_spec(event),
            final(self).wf(),
    {
        let n = watchdog_count(self.mode);
        match (self.stage, event) {
            (Stage::Locating, SupervisorEvent::TargetFound) => {
                self.stage = Stage::Preparing;
                SupervisorAction::FixPermissions
            },
            (Stage::Locating, SupervisorEvent::TargetMissing) => {
                self.stage = Stage::Failed;
                SupervisorAction::Fail
            },
            (Stage::Preparing, SupervisorEvent::PermissionsFixed) => {
                self.stage = Stage::Hardening;
                SupervisorAction::Harden
            },
            (Stage::Preparing, SupervisorEvent::PermissionsUnfixable) => {
                self.stage = Stage::Failed;
                SupervisorAction::Fail
            },
            (Stage::Hardening, SupervisorEvent::Hardened) => {
                self.stage = Stage::Arming;
                SupervisorAction::ArmCancellation
            },
            (Stage::Arming, SupervisorEvent::Armed) => {
                self.stage = Stage::Watching;
                self.started = n;
                SupervisorAction::StartWatchdogs { count: n }
            },
            (Stage::Watching, SupervisorEvent::FlagRead { cancelled }) => {
                if cancelled {
                    self.stage = Stage::Joining;
                    SupervisorAction::Join { index: 0 }
                } else {
                    SupervisorAction::Wait { secs: SUPERVISOR_WAIT_SECS }
                }
            },
            (Stage::Joining, SupervisorEvent::Joined { ok }) => {
                self.joined = self.joined + 1;
                if !ok {
                    self.join_failures = self.join_failures + 1;
                }
                if self.joined == self.started {
                    self.stage = Stage::Succeeded;
                    SupervisorAction::Succeed
                } else {
                    SupervisorAction::Join { index: self.joined }
                }
            },
            _ => self.pending_action(),
        }
    }

    /// The action that the current stage waits on.
    pub fn pending_action(&self) -> (a: SupervisorAction)
        ensures
            a == self.pending(),
    {
        match self.stage {
            Stage::Locating => SupervisorAction::Locate,
            Stage::Preparing => SupervisorAction::FixPermissions,
            Stage::Hardening => SupervisorAction::Harden,
            Stage::Arming => SupervisorAction::ArmCancellation,
            Stage::Watching => SupervisorAction::Wait { secs: SUPERVISOR_WAIT_SECS },
            Stage::Joining => SupervisorAction::Join { index: self.joined },
            Stage::Failed => SupervisorAction::Fail,
            Stage::Succeeded => SupervisorAction::Succeed,
        }
    }
}

/// A transition keeps the supervisor's bookkeeping.
pub proof fn lemma_supervisor_step_wf(s: Supervisor, event: SupervisorEvent)
    requires
        s.wf(),
    ensures
        s.step_spec(event).0.wf(),
        s.step_spec(event).0.mode == s.mode,
{
}

/// Every state reached from the start, by any sequence of events, keeps the
/// bookkeeping.
pub proof fn lemma_supervisor_reachable_wf(mode: Mode, events: Seq<SupervisorEvent>)
    ensures
        Supervisor::initial(mode).run_spec(events).wf(),
        Supervisor::initial(mode).run_spec(events).mode == mode,
    decreases events.len(),
{
    if events.len() > 0 {
        lemma_supervisor_reachable_wf(mode, events.drop_last());
        lemma_supervisor_step_wf(Supervisor::initial(mode).run_spec(events.drop_last()), events.last());
    }
}

/// A target that is missing ends supervision at once: the supervisor fails
/// with no watchdog started, and from then on every event leaves it so and
/// asks for nothing but the failure. A failed run never started a watchdog.
pub proof fn lemma_missing_target_starts_nothing(
    mode: Mode,
    events: Seq<SupervisorEvent>,
    event: SupervisorEvent,
)
    ensures
        ({
            let (failed, action) = Supervisor::initial(mode).step_spec(SupervisorEvent::TargetMissing);
            &&& action == SupervisorAction::Fail
            &&& failed.stage == Stage::Failed
            &&& failed.started == 0
            &&& failed.step_spec(event) == (failed, SupervisorAction::Fail)
        }),
        Supervisor::initial(mode).run_spec(events).stage == Stage::Failed ==> Supervisor::initial(
            mode,
        ).run_spec(events).started == 0,
{
    lemma_supervisor_reachable_wf(mode, events);
}

/// Supervision returns success only after every watchdog it started has been
/// joined: whatever events come, a step that asks to return success leaves
/// exactly as many joins as the mode has watchdogs, and as many started.
pub proof fn lemma_success_only_after_all_joined(
    mode: Mode,
    events: Seq<SupervisorEvent>,
    event: SupervisorEvent,
)
    ensures
        ({
            let (next, action) = Supervisor::initial(mode).run_spec(events).step_spec(event);
            action == SupervisorAction::Succeed ==> {
                &&& next.stage == Stage::Succeeded
                &&& next.joined == next.started
                &&& next.started == watchdog_count_spec(mode)
            }
        }),
{
    lemma_supervisor_reachable_wf(mode, events);
    lemma_supervisor_step_wf(Supervisor::initial(mode).run_spec(events), event);
}

/// The exit code reported for a run: the process's code, or -1 where it has
/// none (killed by a signal).
pub open spec fn exit_code(code: Option<i32>) -> i32 {
    match code {
        Some(c) => c,
        None => -1i32,
    }
}

/// Outcome of a single, unsupervised run of the target: success when it
/// exited with success, else an execution error that quotes the exit code and
/// what the target wrote to its error stream.
pub fn run_result(succeeded: bool, code: Option<i32>, stderr: &str) -> (r: Result<(), XmrError>)
    ensures
        succeeded ==> r is Ok,
        !succeeded ==> (r matches Err(XmrError::ExecutionError(m)) && exists|c: String|
            to_string_from_display_ensures(&exit_code(code), c) && m@
                == "XMR execution failed with exit code "@ + c@ + ": "@ + stderr@),
{
    if succeeded {
        return Ok(());
    }
    let c: i32 = match code {
        Some(c) => c,
        None => -1,
    };
    let digits = c.to_string();
    let mut m = prefixed("XMR execution failed with exit code ", digits.as_str());
    m.append(": ");
    m.append(stderr);
    assert(c == exit_code(code));
    assert(to_string_from_display_ensures(&exit_code(code), digits));
    assert(m@ == "XMR execution failed with exit code "@ + digits@ + ": "@ + stderr@);
    Err(XmrError::ExecutionError(m))
}

} // verus!
