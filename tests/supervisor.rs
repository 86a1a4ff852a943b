use mpris_native::process::BinaryProbe;
use mpris_native::supervisor::{
    BinaryProbes, RegistrationStep, RegistrationWait, StartAction, StartEvent, StartRun,
    StopAction, StopEvent, SupervisorInner,
};
use mpris_native::termination::{TermAction, TermEvent, TermPhase, Termination, GRACE_POLLS};
use mpris_native::types::{SpotifydConfig, SpotifydStartResult, SpotifydStatus};

const LIVE_STAT: &str = "4242 (spotifyd) S 1 4242 4242 0 -1";

/// A health probe that saw a live process and the daemon's name on the bus.
fn healthy() -> StartEvent {
    StartEvent::Health {
        stat: Some(LIVE_STAT.to_string()),
        names: Some(vec!["org.mpris.MediaPlayer2.spotifyd.instance1".to_string()]),
    }
}

/// A health probe that saw a live process but not the daemon's name on the bus.
fn unregistered() -> StartEvent {
    StartEvent::Health {
        stat: Some(LIVE_STAT.to_string()),
        names: Some(vec!["org.mpris.MediaPlayer2.vlc".to_string()]),
    }
}

fn step(sup: &mut SupervisorInner, run: &mut StartRun, e: StartEvent) -> StartAction {
    assert!(run.accepts(&e));
    sup.start_or_adopt_step(run, e)
}

fn finished(a: StartAction) -> SpotifydStartResult {
    match a {
        StartAction::Finish(r) => r,
        other => panic!("expected the sequence to finish, got {:?}", other),
    }
}

fn no_probes() -> BinaryProbes {
    BinaryProbes { configured: None, from_env: None, downloaded: None }
}

/// Runs a sequence with no daemon anywhere up to the spawn request.
fn run_to_spawn(sup: &mut SupervisorInner, probes: BinaryProbes) -> (StartRun, StartAction) {
    let (mut run, a) = sup.start_or_adopt_begin();
    assert!(matches!(a, StartAction::FindOnBus));
    let a = step(sup, &mut run, StartEvent::Found(None));
    assert!(matches!(a, StartAction::FindInTable));
    let a = step(sup, &mut run, StartEvent::Found(None));
    assert!(matches!(a, StartAction::ListAll));
    let a = step(sup, &mut run, StartEvent::Listed(vec![]));
    assert!(matches!(a, StartAction::ListAll));
    let a = step(sup, &mut run, StartEvent::Listed(vec![]));
    assert!(matches!(a, StartAction::ProbeBinaries { configured: None }));
    let a = step(sup, &mut run, StartEvent::Binaries(probes));
    let path = match a {
        StartAction::CheckBinaryExists { path } => path,
        other => panic!("unexpected {:?}", other),
    };
    assert!(!path.is_empty());
    let a = step(sup, &mut run, StartEvent::BinaryExists(true));
    (run, a)
}

#[test]
fn default_config_names_the_device() {
    let c = SpotifydConfig::default();
    assert_eq!(c.device_name.as_deref(), Some("spotify-tui"));
    assert!(c.config_path.is_none() && c.username.is_none() && c.password.is_none());
}

#[test]
fn start_with_healthy_tracked_process_repeats_the_same_answer() {
    let mut sup = SupervisorInner::new(SpotifydConfig::default());
    sup.adopt(4242);
    for _ in 0..3 {
        let (mut run, a) = sup.start_or_adopt_begin();
        assert!(matches!(a, StartAction::ProbeHealth { pid: 4242 }));
        let r = finished(step(&mut sup, &mut run, healthy()));
        assert!(r.success && r.adopted);
        assert_eq!(r.pid, Some(4242));
        assert_eq!(r.message, "Spotifyd already running");
        assert!(run.is_done());
        assert_eq!(sup.get_tracked_pid(), Some(4242));
    }
}

#[test]
fn untracked_healthy_daemon_is_adopted() {
    let mut sup = SupervisorInner::new(SpotifydConfig::default());
    let (mut run, a) = sup.start_or_adopt_begin();
    assert!(matches!(a, StartAction::FindOnBus));
    let a = step(&mut sup, &mut run, StartEvent::Found(Some(77)));
    assert!(matches!(a, StartAction::ProbeHealth { pid: 77 }));
    let r = finished(step(&mut sup, &mut run, healthy()));
    assert!(r.success && r.adopted);
    assert_eq!(r.pid, Some(77));
    assert_eq!(r.message, "Adopted existing spotifyd instance (instant start!)");
    assert_eq!(sup.get_status(), SpotifydStatus { running: true, pid: Some(77), authenticated: true });
    assert_eq!(sup.get_tracked_pid(), Some(77));
}

#[test]
fn daemon_found_in_process_table_is_adopted() {
    let mut sup = SupervisorInner::new(SpotifydConfig::default());
    let (mut run, _) = sup.start_or_adopt_begin();
    step(&mut sup, &mut run, StartEvent::Found(None));
    let a = step(&mut sup, &mut run, StartEvent::Found(Some(31)));
    assert!(matches!(a, StartAction::ProbeHealth { pid: 31 }));
    let r = finished(step(&mut sup, &mut run, healthy()));
    assert!(r.adopted && r.pid == Some(31));
}

#[test]
fn no_daemon_leads_to_a_fresh_spawn() {
    let mut sup = SupervisorInner::new(SpotifydConfig::default());
    let (mut run, a) = run_to_spawn(&mut sup, no_probes());
    match a {
        StartAction::Spawn { binary, args } => {
            assert_eq!(binary, "spotifyd");
            assert_eq!(args, vec!["--no-daemon", "--device-name", "spotify-tui"]);
        },
        other => panic!("unexpected {:?}", other),
    }
    let a = step(&mut sup, &mut run, StartEvent::Spawned(Ok(900)));
    assert!(matches!(a, StartAction::SettleThenCheckAlive { pid: 900, settle_ms: 1500 }));
    assert_eq!(sup.get_tracked_pid(), Some(900));
    let a = step(&mut sup, &mut run, StartEvent::Alive(true));
    assert!(matches!(a, StartAction::AwaitRegistration));
    assert_eq!(sup.get_status(), SpotifydStatus { running: true, pid: Some(900), authenticated: true });
    let r = finished(step(&mut sup, &mut run, StartEvent::Completed));
    assert!(r.success && !r.adopted);
    assert_eq!(r.pid, Some(900));
    assert_eq!(r.message, "Started fresh spotifyd instance");
}

#[test]
fn unhealthy_daemons_are_all_killed_before_spawning() {
    let mut sup = SupervisorInner::new(SpotifydConfig::default());
    sup.adopt(5);
    let (mut run, _) = sup.start_or_adopt_begin();
    let a = step(&mut sup, &mut run, unregistered());
    assert!(matches!(a, StartAction::FindOnBus));
    assert_eq!(sup.get_tracked_pid(), None);
    let a = step(&mut sup, &mut run, StartEvent::Found(Some(6)));
    assert!(matches!(a, StartAction::ProbeHealth { pid: 6 }));
    let a = step(&mut sup, &mut run, unregistered());
    assert!(matches!(a, StartAction::ListAll));
    match step(&mut sup, &mut run, StartEvent::Listed(vec![6, 8])) {
        StartAction::TerminateAll { pids, settle_ms } => {
            assert_eq!(pids, vec![6, 8]);
            assert_eq!(settle_ms, 300);
        },
        other => panic!("unexpected {:?}", other),
    }
    let a = step(&mut sup, &mut run, StartEvent::Completed);
    assert!(matches!(a, StartAction::ListAll));
    match step(&mut sup, &mut run, StartEvent::Listed(vec![8])) {
        StartAction::TerminateAll { pids, settle_ms } => {
            assert_eq!(pids, vec![8]);
            assert_eq!(settle_ms, 500);
        },
        other => panic!("unexpected {:?}", other),
    }
    let a = step(&mut sup, &mut run, StartEvent::Completed);
    assert!(matches!(a, StartAction::ProbeBinaries { .. }));
}

#[test]
fn configured_binary_is_offered_and_used() {
    let config = SpotifydConfig {
        config_path: Some("/opt/spotifyd".to_string()),
        username: None,
        password: None,
        device_name: None,
    };
    let mut sup = SupervisorInner::new(config);
    let (mut run, _) = sup.start_or_adopt_begin();
    step(&mut sup, &mut run, StartEvent::Found(None));
    step(&mut sup, &mut run, StartEvent::Found(None));
    step(&mut sup, &mut run, StartEvent::Listed(vec![]));
    match step(&mut sup, &mut run, StartEvent::Listed(vec![])) {
        StartAction::ProbeBinaries { configured } => assert_eq!(configured.as_deref(), Some("/opt/spotifyd")),
        other => panic!("unexpected {:?}", other),
    }
    let probes = BinaryProbes {
        configured: Some(BinaryProbe { path: "/opt/spotifyd".to_string(), exists: true }),
        from_env: None,
        downloaded: None,
    };
    let a = step(&mut sup, &mut run, StartEvent::Binaries(probes));
    assert!(matches!(a, StartAction::CheckBinaryExists { ref path } if path == "/opt/spotifyd"));
    match step(&mut sup, &mut run, StartEvent::BinaryExists(true)) {
        StartAction::Spawn { binary, args } => {
            assert_eq!(binary, "/opt/spotifyd");
            assert_eq!(args, vec!["--no-daemon"]);
        },
        other => panic!("unexpected {:?}", other),
    }
}

#[test]
fn missing_binary_fails_before_spawning() {
    let mut sup = SupervisorInner::new(SpotifydConfig::default());
    let probes = BinaryProbes {
        configured: None,
        from_env: Some(BinaryProbe { path: "/x/spotifyd".to_string(), exists: true }),
        downloaded: None,
    };
    let (mut run, a) = sup.start_or_adopt_begin();
    assert!(matches!(a, StartAction::FindOnBus));
    step(&mut sup, &mut run, StartEvent::Found(None));
    step(&mut sup, &mut run, StartEvent::Found(None));
    step(&mut sup, &mut run, StartEvent::Listed(vec![]));
    step(&mut sup, &mut run, StartEvent::Listed(vec![]));
    step(&mut sup, &mut run, StartEvent::Binaries(probes));
    let r = finished(step(&mut sup, &mut run, StartEvent::BinaryExists(false)));
    assert!(!r.success && !r.adopted && r.pid.is_none());
    assert_eq!(
        r.message,
        "Failed to start spotifyd: Process spawn failed: spotifyd binary not found at /x/spotifyd"
    );
}

#[test]
fn missing_bare_name_fails_before_spawning() {
    let mut sup = SupervisorInner::new(SpotifydConfig::default());
    let (mut run, _) = sup.start_or_adopt_begin();
    step(&mut sup, &mut run, StartEvent::Found(None));
    step(&mut sup, &mut run, StartEvent::Found(None));
    step(&mut sup, &mut run, StartEvent::Listed(vec![]));
    step(&mut sup, &mut run, StartEvent::Listed(vec![]));
    let a = step(&mut sup, &mut run, StartEvent::Binaries(no_probes()));
    assert!(matches!(a, StartAction::CheckBinaryExists { ref path } if path == "spotifyd"));
    let r = finished(step(&mut sup, &mut run, StartEvent::BinaryExists(false)));
    assert!(!r.success && !r.adopted && r.pid.is_none());
    assert_eq!(
        r.message,
        "Failed to start spotifyd: Process spawn failed: spotifyd binary not found at spotifyd"
    );
    assert_eq!(sup.get_tracked_pid(), None);
    assert_eq!(sup.get_status(), SpotifydStatus::default());
}

#[test]
fn health_probe_needs_liveness_and_registration() {
    let dead = StartEvent::Health {
        stat: Some("4242 (spotifyd) Z 1".to_string()),
        names: Some(vec!["org.mpris.MediaPlayer2.spotifyd.instance1".to_string()]),
    };
    let unreadable = StartEvent::Health {
        stat: None,
        names: Some(vec!["org.mpris.MediaPlayer2.spotifyd.instance1".to_string()]),
    };
    let unlisted = StartEvent::Health { stat: Some(LIVE_STAT.to_string()), names: None };
    for probe in [dead, unreadable, unlisted, unregistered()] {
        let mut sup = SupervisorInner::new(SpotifydConfig::default());
        sup.adopt(4242);
        let (mut run, _) = sup.start_or_adopt_begin();
        let a = step(&mut sup, &mut run, probe);
        assert!(matches!(a, StartAction::FindOnBus));
        assert_eq!(sup.get_tracked_pid(), None);
    }
}

#[test]
fn spawn_failure_is_reported() {
    let mut sup = SupervisorInner::new(SpotifydConfig::default());
    let (mut run, _) = run_to_spawn(&mut sup, no_probes());
    let r = finished(step(&mut sup, &mut run, StartEvent::Spawned(Err("Fork failed".to_string()))));
    assert!(!r.success);
    assert_eq!(r.message, "Failed to start spotifyd: Process spawn failed: Fork failed");
    assert_eq!(sup.get_tracked_pid(), None);
}

#[test]
fn immediate_exit_rolls_back() {
    let mut sup = SupervisorInner::new(SpotifydConfig::default());
    let (mut run, _) = run_to_spawn(&mut sup, no_probes());
    step(&mut sup, &mut run, StartEvent::Spawned(Ok(901)));
    let r = finished(step(&mut sup, &mut run, StartEvent::Alive(false)));
    assert!(!r.success && r.pid.is_none());
    assert_eq!(
        r.message,
        "Failed to start spotifyd: Process spawn failed: spotifyd exited immediately after starting"
    );
    assert_eq!(sup.get_tracked_pid(), None);
    assert_eq!(sup.get_status(), SpotifydStatus::default());
}

#[test]
fn events_out_of_turn_are_refused() {
    let sup = SupervisorInner::new(SpotifydConfig::default());
    let (run, _) = sup.start_or_adopt_begin();
    assert!(!run.accepts(&StartEvent::Completed));
    assert!(!run.accepts(&healthy()));
    assert!(run.accepts(&StartEvent::Found(None)));
}

#[test]
fn unforced_stop_leaves_adopted_process_running() {
    let mut sup = SupervisorInner::new(SpotifydConfig::default());
    sup.adopt(55);
    let watcher = sup.subscribe_status();
    let (_, a) = sup.stop_begin(false);
    assert_eq!(a, StopAction::Finish);
    assert_eq!(sup.get_tracked_pid(), None);
    assert!(sup.status_changed(watcher));
    assert_eq!(sup.take_status(watcher), SpotifydStatus { running: false, pid: None, authenticated: false });
    assert!(!sup.status_changed(watcher));
}

#[test]
fn forced_stop_terminates_adopted_process() {
    let mut sup = SupervisorInner::new(SpotifydConfig::default());
    sup.adopt(55);
    let (mut run, a) = sup.stop_begin(true);
    assert_eq!(a, StopAction::Terminate { pid: 55 });
    assert_eq!(sup.get_tracked_pid(), Some(55));
    assert!(run.accepts(StopEvent::Completed));
    assert_eq!(sup.stop_step(&mut run, StopEvent::Completed), StopAction::Finish);
    assert_eq!(sup.get_tracked_pid(), None);
    assert!(!sup.get_status().running);
}

#[test]
fn stop_terminates_spawned_process_without_force() {
    let mut sup = SupervisorInner::new(SpotifydConfig::default());
    let (mut run, _) = run_to_spawn(&mut sup, no_probes());
    step(&mut sup, &mut run, StartEvent::Spawned(Ok(600)));
    let (_, a) = sup.stop_begin(false);
    assert_eq!(a, StopAction::Terminate { pid: 600 });
}

#[test]
fn forced_stop_with_nothing_tracked_looks_for_a_daemon() {
    let mut sup = SupervisorInner::new(SpotifydConfig::default());
    let (mut run, a) = sup.stop_begin(true);
    assert_eq!(a, StopAction::FindOnBus);
    assert_eq!(sup.stop_step(&mut run, StopEvent::Found(None)), StopAction::FindInTable);
    assert_eq!(sup.stop_step(&mut run, StopEvent::Found(Some(12))), StopAction::Terminate { pid: 12 });
    assert_eq!(sup.stop_step(&mut run, StopEvent::Completed), StopAction::Finish);
    let (mut run, _) = sup.stop_begin(true);
    sup.stop_step(&mut run, StopEvent::Found(None));
    assert_eq!(sup.stop_step(&mut run, StopEvent::Found(None)), StopAction::Finish);
    let (_, a) = sup.stop_begin(false);
    assert_eq!(a, StopAction::Finish);
}

#[test]
fn health_needs_liveness_and_bus_name() {
    let mut sup = SupervisorInner::new(SpotifydConfig::default());
    let live = Some("9 (spotifyd) S 1");
    let zombie = Some("9 (spotifyd) Z 1");
    let on_bus = vec!["org.mpris.MediaPlayer2.spotifyd.instance9".to_string()];
    let off_bus = vec!["org.mpris.MediaPlayer2.vlc".to_string()];
    assert!(!sup.is_alive(live));
    assert!(!sup.is_healthy(live, &on_bus));
    sup.adopt(9);
    assert!(sup.is_alive(live));
    assert!(sup.is_healthy(live, &on_bus));
    assert!(!sup.is_healthy(live, &off_bus));
    assert!(!sup.is_alive(zombie));
    assert!(!sup.is_healthy(zombie, &on_bus));
    assert!(!sup.is_healthy(None, &on_bus));
}

#[test]
fn registration_wait_is_bounded() {
    let on_bus = vec!["org.mpris.MediaPlayer2.spotifyd.instance1".to_string()];
    let empty: Vec<String> = Vec::new();
    let mut w = RegistrationWait::new();
    assert_eq!(w.observe(Some(&on_bus)), RegistrationStep::Registered);
    let mut w = RegistrationWait::new();
    assert_eq!(w.observe(None), RegistrationStep::TimedOut);
    let mut w = RegistrationWait::new();
    for _ in 0..29 {
        assert_eq!(w.observe(Some(&empty)), RegistrationStep::RetryAfter { ms: 100 });
    }
    assert_eq!(w.observe(Some(&empty)), RegistrationStep::TimedOut);
}

fn run_termination(pid: u32, events: &[TermEvent]) -> (Termination, Vec<TermAction>) {
    let (mut t, first) = Termination::new(pid);
    let mut actions = vec![first];
    for e in events {
        actions.push(t.step(*e));
    }
    (t, actions)
}

#[test]
fn graceful_termination_within_window() {
    let (t, actions) = run_termination(
        3,
        &[TermEvent::SignalDelivered(true), TermEvent::Probed { alive: true }, TermEvent::Probed { alive: false }],
    );
    assert_eq!(actions[0], TermAction::SendTerminate);
    assert_eq!(actions[1], TermAction::WaitThenProbe { ms: 100 });
    assert_eq!(actions[2], TermAction::WaitThenProbe { ms: 100 });
    assert_eq!(actions[3], TermAction::Report { gone: true });
    assert_eq!(t.phase, TermPhase::Finished { gone: true });
}

#[test]
fn ignored_terminate_escalates_to_kill() {
    let mut events = vec![TermEvent::SignalDelivered(true)];
    for _ in 0..GRACE_POLLS {
        events.push(TermEvent::Probed { alive: true });
    }
    let (mut t, actions) = run_termination(4, &events);
    assert_eq!(actions.len(), 22);
    assert_eq!(actions[20], TermAction::WaitThenProbe { ms: 100 });
    assert_eq!(actions[21], TermAction::SendKill);
    assert_eq!(t.step(TermEvent::SignalDelivered(true)), TermAction::WaitThenProbe { ms: 100 });
    assert_eq!(t.step(TermEvent::Probed { alive: true }), TermAction::Report { gone: false });
    let (mut t, _) = run_termination(4, &events);
    t.step(TermEvent::SignalDelivered(true));
    assert_eq!(t.step(TermEvent::Probed { alive: false }), TermAction::Report { gone: true });
}

#[test]
fn failed_signals_report_failure() {
    let (_, actions) = run_termination(5, &[TermEvent::SignalDelivered(false)]);
    assert_eq!(actions[1], TermAction::Report { gone: false });
    let mut events = vec![TermEvent::SignalDelivered(true)];
    for _ in 0..GRACE_POLLS {
        events.push(TermEvent::Probed { alive: true });
    }
    events.push(TermEvent::SignalDelivered(false));
    let (_, actions) = run_termination(5, &events);
    assert_eq!(*actions.last().unwrap(), TermAction::Report { gone: false });
}

#[test]
fn termination_ignores_events_out_of_turn() {
    let (mut t, _) = Termination::new(6);
    assert_eq!(t.step(TermEvent::Probed { alive: false }), TermAction::SendTerminate);
    assert_eq!(t.phase, TermPhase::AwaitTerminateSent);
}
