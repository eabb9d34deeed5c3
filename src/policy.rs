//! Timing policy of the watchdogs: poll interval, backoff after failed
//! spawns, and the long pause after repeated failures.

use vstd::prelude::*;

verus! {

/// Backoff (seconds) right after a successful spawn.
pub const BACKOFF_FLOOR_SECS: u64 = 1;

/// Backoff (seconds) never grows past this.
pub const BACKOFF_CAP_SECS: u64 = 300;

/// Consecutive failures at which a long pause precedes the next spawn.
pub const FAILURE_CEILING: u64 = 5;

/// Length (seconds) of the long pause.
pub const LONG_PAUSE_SECS: u64 = 30;

/// Base polling interval (milliseconds) of a watchdog.
pub const POLL_INTERVAL_MS: u64 = 100;

/// Extra polling delay (milliseconds) per watchdog instance number.
pub const JITTER_STEP_MS: u64 = 50;

/// Most watchdogs that supervise one target (the highest-resilience mode).
pub const MAX_WATCHDOGS: u64 = 3;

/// Interval (seconds) at which the orchestrator looks at the cancellation flag.
pub const SUPERVISOR_WAIT_SECS: u64 = 1;

/// `min(2 * previous, cap)`.
pub open spec fn next_backoff_spec(previous: int) -> int {
    if 2 * previous < BACKOFF_CAP_SECS {
        2 * previous
    } else {
        BACKOFF_CAP_SECS as int
    }
}

/// Pause (seconds) inserted before a spawn attempt after `failures`
/// consecutive failures.
pub open spec fn pause_before_spawn_spec(failures: int) -> int {
    if failures >= FAILURE_CEILING {
        LONG_PAUSE_SECS as int
    } else {
        0
    }
}

/// Backoff (seconds) after a failed spawn: twice the previous one, capped.
pub fn next_backoff(previous: u64) -> (r: u64)
    ensures
        r == next_backoff_spec(previous as int),
{
    if previous < BACKOFF_CAP_SECS / 2 {
        previous * 2
    } else {
        BACKOFF_CAP_SECS
    }
}

/// Pause (seconds) before the next spawn attempt: the long pause once the
/// failure count has reached the ceiling, none before.
pub fn pause_before_spawn(failures: u64) -> (r: u64)
    ensures
        r == pause_before_spawn_spec(failures as int),
{
    if failures >= FAILURE_CEILING {
        LONG_PAUSE_SECS
    } else {
        0
    }
}

/// Doubling never shrinks a backoff that lies within the floor and the cap,
/// and never leaves that range.
pub proof fn lemma_next_backoff_bounded(previous: int)
    requires
        BACKOFF_FLOOR_SECS <= previous <= BACKOFF_CAP_SECS,
    ensures
        previous <= next_backoff_spec(previous),
        BACKOFF_FLOOR_SECS <= next_backoff_spec(previous) <= BACKOFF_CAP_SECS,
{
}

} // verus!
