use xmr_supervisor::policy::{
    next_backoff, pause_before_spawn, BACKOFF_CAP_SECS, BACKOFF_FLOOR_SECS, LONG_PAUSE_SECS,
};
use xmr_supervisor::watchdog::{
    probe_verdict, reports_responsive, Action, ChildStatus, Event, Phase, Watchdog, WatchdogConfig,
};

fn tick(status: ChildStatus) -> Event {
    Event::Tick { cancelled: false, status }
}

fn cancel() -> Event {
    Event::Tick { cancelled: true, status: ChildStatus::Absent }
}

#[test]
fn next_backoff_doubles_then_caps() {
    assert_eq!(next_backoff(1), 2);
    assert_eq!(next_backoff(2), 4);
    assert_eq!(next_backoff(128), 256);
    assert_eq!(next_backoff(149), 298);
    assert_eq!(next_backoff(150), 300);
    assert_eq!(next_backoff(256), 300);
    assert_eq!(next_backoff(300), 300);
    assert_eq!(next_backoff(u64::MAX), 300);
}

#[test]
fn pause_only_from_the_ceiling_on() {
    assert_eq!(pause_before_spawn(0), 0);
    assert_eq!(pause_before_spawn(4), 0);
    assert_eq!(pause_before_spawn(5), 30);
    assert_eq!(pause_before_spawn(17), 30);
}

#[test]
fn poll_interval_is_staggered_by_instance() {
    assert_eq!(Watchdog::new(WatchdogConfig::resilient()).poll_interval_ms(), 100);
    assert_eq!(Watchdog::new(WatchdogConfig::super_resilient(0)).poll_interval_ms(), 100);
    assert_eq!(Watchdog::new(WatchdogConfig::super_resilient(1)).poll_interval_ms(), 150);
    assert_eq!(Watchdog::new(WatchdogConfig::super_resilient(2)).poll_interval_ms(), 200);
}

#[test]
fn every_status_sequence_ends_in_a_defined_phase() {
    let statuses = [
        ChildStatus::Absent,
        ChildStatus::StillRunning,
        ChildStatus::ExitedOk,
        ChildStatus::ExitedFailed,
        ChildStatus::CheckFailed,
    ];
    for a in statuses {
        for b in statuses {
            let mut w = Watchdog::new(WatchdogConfig::resilient());
            w.step(tick(a));
            assert!(matches!(w.phase, Phase::NoChild | Phase::Running));
            w.step(tick(b));
            let expected = if b == ChildStatus::StillRunning { Phase::Running } else { Phase::NoChild };
            assert_eq!(w.phase, expected);
            w.step(cancel());
            assert_eq!(w.phase, Phase::ShuttingDown);
        }
    }
}

#[test]
fn exit_statuses_move_the_failure_counter() {
    let mut w = Watchdog::new(WatchdogConfig::resilient());
    w.step(tick(ChildStatus::Absent));
    w.step(Event::Spawned);
    assert_eq!(w.step(tick(ChildStatus::ExitedFailed)), Action::Spawn { pause_secs: 0, reconcile: false });
    assert_eq!(w.failures, 1);
    w.step(Event::Spawned);
    assert_eq!(w.failures, 0);
    w.step(tick(ChildStatus::CheckFailed));
    assert_eq!(w.failures, 1);
    w.step(tick(ChildStatus::ExitedFailed));
    assert_eq!(w.failures, 2);
    w.step(tick(ChildStatus::ExitedOk));
    assert_eq!(w.failures, 0);
}

#[test]
fn backoff_grows_to_the_cap_and_resets_on_spawn() {
    let mut w = Watchdog::new(WatchdogConfig::super_resilient(1));
    let mut previous = w.backoff_secs;
    assert_eq!(previous, BACKOFF_FLOOR_SECS);
    let mut seen = Vec::new();
    for _ in 0..12 {
        w.step(tick(ChildStatus::Absent));
        match w.step(Event::SpawnFailed) {
            Action::Sleep { secs } => {
                assert!(secs >= previous);
                assert!(secs <= BACKOFF_CAP_SECS);
                assert_eq!(secs, w.backoff_secs);
                previous = secs;
                seen.push(secs);
            }
            other => panic!("unexpected action {:?}", other),
        }
    }
    assert_eq!(seen, vec![2, 4, 8, 16, 32, 64, 128, 256, 300, 300, 300, 300]);
    w.step(tick(ChildStatus::Absent));
    assert_eq!(w.step(Event::Spawned), Action::Idle);
    assert_eq!(w.backoff_secs, BACKOFF_FLOOR_SECS);
    assert_eq!(w.failures, 0);
    assert_eq!(w.phase, Phase::Running);
}

#[test]
fn cancellation_kills_and_stays_final() {
    let mut w = Watchdog::new(WatchdogConfig::super_resilient(0));
    w.step(tick(ChildStatus::Absent));
    w.step(Event::Spawned);
    assert_eq!(w.step(cancel()), Action::Shutdown);
    assert_eq!(w.phase, Phase::ShuttingDown);
    let after = w;
    for e in [tick(ChildStatus::Absent), Event::Spawned, Event::SpawnFailed, Event::Probed { responsive: false }] {
        assert_eq!(w.step(e), Action::Shutdown);
        assert_eq!(w, after);
    }
}

#[test]
fn child_exiting_cleanly_is_respawned_without_delay() {
    let mut w = Watchdog::new(WatchdogConfig::resilient());
    assert_eq!(w.step(tick(ChildStatus::Absent)), Action::Spawn { pause_secs: 0, reconcile: false });
    assert_eq!(w.step(Event::Spawned), Action::Idle);
    assert_eq!(w.phase, Phase::Running);
    assert_eq!(w.step(tick(ChildStatus::StillRunning)), Action::Idle);
    assert_eq!(w.phase, Phase::Running);
    assert_eq!(w.step(tick(ChildStatus::ExitedOk)), Action::Spawn { pause_secs: 0, reconcile: false });
    assert_eq!(w.phase, Phase::NoChild);
    assert_eq!(w.failures, 0);
    assert_eq!(w.step(Event::Spawned), Action::Idle);
    assert_eq!(w.phase, Phase::Running);
}

#[test]
fn five_failed_spawns_bring_the_long_pause() {
    let mut w = Watchdog::new(WatchdogConfig::resilient());
    for attempt in 0..5u64 {
        assert_eq!(w.failures, attempt);
        assert_eq!(w.step(tick(ChildStatus::Absent)), Action::Spawn { pause_secs: 0, reconcile: false });
        assert!(matches!(w.step(Event::SpawnFailed), Action::Sleep { .. }));
    }
    assert_eq!(w.failures, 5);
    assert_eq!(
        w.step(tick(ChildStatus::Absent)),
        Action::Spawn { pause_secs: LONG_PAUSE_SECS, reconcile: false }
    );
    assert_eq!(w.failures, 5);
}

#[test]
fn unresponsive_child_is_killed() {
    let mut w = Watchdog::new(WatchdogConfig::super_resilient(2));
    assert_eq!(w.step(tick(ChildStatus::Absent)), Action::Spawn { pause_secs: 0, reconcile: true });
    w.step(Event::Spawned);
    assert_eq!(w.step(tick(ChildStatus::StillRunning)), Action::Probe);
    assert_eq!(w.step(Event::Probed { responsive: true }), Action::Idle);
    assert_eq!(w.phase, Phase::Running);
    assert_eq!(w.step(tick(ChildStatus::StillRunning)), Action::Probe);
    assert_eq!(w.step(Event::Probed { responsive: false }), Action::Kill);
    assert_eq!(w.phase, Phase::NoChild);
    assert_eq!(w.step(tick(ChildStatus::Absent)), Action::Spawn { pause_secs: 0, reconcile: true });
}

#[test]
fn probe_report_reading() {
    assert!(reports_responsive(b"S\nR\n"));
    assert!(reports_responsive(b"STAT\nS\n"));
    assert!(!reports_responsive(b"Z\n"));
    assert!(!reports_responsive(b"D\nT\n"));
    assert!(!reports_responsive(b""));
}

#[test]
fn three_watchdogs_stop_while_one_sleeps() {
    let mut dogs: Vec<Watchdog> =
        (0..3).map(|i| Watchdog::new(WatchdogConfig::super_resilient(i))).collect();
    for d in dogs.iter_mut() {
        d.step(tick(ChildStatus::Absent));
    }
    dogs[0].step(Event::Spawned);
    dogs[2].step(Event::Spawned);
    // the second watchdog failed to spawn and is sleeping off its backoff
    assert_eq!(dogs[1].step(Event::SpawnFailed), Action::Sleep { secs: 2 });
    assert_eq!(dogs[0].step(cancel()), Action::Shutdown);
    assert_eq!(dogs[2].step(cancel()), Action::Shutdown);
    assert_eq!(dogs[1].phase, Phase::NoChild);
    // after its sleep it reads the flag on its next iteration
    assert_eq!(dogs[1].step(cancel()), Action::Shutdown);
    assert!(dogs.iter().all(|d| d.phase == Phase::ShuttingDown));
}

#[test]
fn fault_in_an_iteration_returns_to_no_child() {
    let mut w = Watchdog::new(WatchdogConfig::resilient());
    w.step(tick(ChildStatus::Absent));
    w.step(Event::Spawned);
    assert_eq!(w.step(Event::Faulted), Action::Kill);
    assert_eq!(w.phase, Phase::NoChild);
    assert_eq!(w.failures, 0);
    assert_eq!(w.step(tick(ChildStatus::Absent)), Action::Spawn { pause_secs: 0, reconcile: false });
    w.step(cancel());
    assert_eq!(w.step(Event::Faulted), Action::Shutdown);
}

#[test]
fn probe_verdicts() {
    assert!(probe_verdict(&None));
    assert!(probe_verdict(&Some(b"S\n".to_vec())));
    assert!(!probe_verdict(&Some(b"Z\n".to_vec())));
    assert!(!probe_verdict(&Some(Vec::new())));
}
