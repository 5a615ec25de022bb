use achilles_supervisor::launch::{LaunchError, LaunchStrategy};
use achilles_supervisor::service::{Notification, ServiceId};
use achilles_supervisor::supervisor::{
    default_supervisor, SpawnOutcome, StartAction, StartOutcome, StartPhase, StartSession,
    Supervisor,
};

/// Drives one start session to completion, feeding scripted probe results
/// and spawn outcomes, and collecting every emitted notification.
fn drive(
    sup: &mut Supervisor,
    service: ServiceId,
    probes: &mut Vec<bool>,
    spawns: &mut Vec<SpawnOutcome>,
    emitted: &mut Vec<Notification>,
) -> StartSession {
    let mut session = sup.start_begin(service);
    loop {
        match session.phase {
            StartPhase::InitialProbe => {
                let healthy = probes.remove(0);
                let (next, note) = sup.on_initial_probe(session, healthy);
                if let Some(n) = note {
                    emitted.push(n);
                }
                session = next;
            }
            StartPhase::Spawning { .. } => {
                let outcome = spawns.remove(0);
                let (next, note) = sup.on_spawn_result(session, outcome);
                if let Some(n) = note {
                    emitted.push(n);
                }
                session = next;
            }
            StartPhase::Polling { .. } => {
                let healthy = probes.remove(0);
                let (next, note) = sup.on_poll_probe(session, healthy);
                if let Some(n) = note {
                    emitted.push(n);
                }
                session = next;
            }
            StartPhase::Done { .. } => return session,
        }
    }
}

#[test]
fn initial_state_defaults() {
    let sup = default_supervisor();
    assert!(!sup.get_status(ServiceId::Primary));
    assert!(!sup.get_status(ServiceId::Secondary));
    assert_eq!(sup.get_base_url(ServiceId::Primary), "http://127.0.0.1:8900");
    assert_eq!(sup.get_base_url(ServiceId::Secondary), "http://127.0.0.1:8901");
    assert_eq!(sup.state.server_port, 8900);
    assert_eq!(sup.state.mcp_port, 8901);
    assert_eq!(sup.handle_token(ServiceId::Primary), None);
    assert_eq!(sup.handle_token(ServiceId::Secondary), None);
}

#[test]
fn already_healthy_secondary_skips_all_strategies() {
    // Secondary service, no process handle, health probe healthy at once:
    // no strategy invoked, status true immediately, zero spawn calls.
    let mut sup = default_supervisor();
    assert_eq!(sup.handle_token(ServiceId::Secondary), None);
    let mut probes = vec![true];
    let mut spawns = vec![];
    let mut emitted = vec![];
    let done = drive(&mut sup, ServiceId::Secondary, &mut probes, &mut spawns, &mut emitted);
    assert_eq!(
        done.phase,
        StartPhase::Done { outcome: StartOutcome::AlreadyRunning }
    );
    assert_eq!(done.spawn_attempts, 0);
    assert_eq!(done.probes_made, 1);
    assert!(sup.get_status(ServiceId::Secondary));
    assert_eq!(emitted, vec![Notification::Running]);
    assert_eq!(done.result(), Ok(()));
    assert!(spawns.is_empty());
}

#[test]
fn primary_succeeds_on_fifth_probe() {
    // Primary: poll_attempts = 15, interval 1s; the endpoint answers
    // unhealthy to the first four probes and healthy from the fifth on.
    let mut sup = default_supervisor();
    let mut probes = vec![false, false, false, false, true];
    let mut spawns = vec![SpawnOutcome::Spawned { handle: 1 }];
    let mut emitted = vec![];
    let done = drive(&mut sup, ServiceId::Primary, &mut probes, &mut spawns, &mut emitted);
    assert_eq!(done.phase, StartPhase::Done { outcome: StartOutcome::Started });
    assert_eq!(done.probes_made, 5);
    assert!(sup.get_status(ServiceId::Primary));
    let running_events = emitted
        .iter()
        .filter(|n| **n == Notification::Running)
        .count();
    assert_eq!(running_events, 1);
    assert_eq!(emitted, vec![Notification::Running]);
    assert_eq!(done.result(), Ok(()));
    assert!(probes.is_empty());
}

#[test]
fn stop_with_no_handle_is_idempotent() {
    let mut sup = default_supervisor();
    let (taken, note) = sup.stop(ServiceId::Primary);
    assert_eq!(taken, None);
    assert_eq!(note, Notification::Stopped);
    assert!(!sup.get_status(ServiceId::Primary));
    // A second stop behaves the same.
    let (taken2, note2) = sup.stop(ServiceId::Primary);
    assert_eq!(taken2, None);
    assert_eq!(note2, Notification::Stopped);
    assert!(!sup.get_status(ServiceId::Primary));
}

#[test]
fn stop_after_running_clears_state_and_returns_handle() {
    let mut sup = default_supervisor();
    let mut probes = vec![false, true];
    let mut spawns = vec![SpawnOutcome::Spawned { handle: 42 }];
    let mut emitted = vec![];
    drive(&mut sup, ServiceId::Primary, &mut probes, &mut spawns, &mut emitted);
    assert!(sup.get_status(ServiceId::Primary));
    assert_eq!(sup.handle_token(ServiceId::Primary), Some(42));
    let (taken, note) = sup.stop(ServiceId::Primary);
    assert_eq!(taken, Some(42));
    assert_eq!(note, Notification::Stopped);
    assert!(!sup.get_status(ServiceId::Primary));
    assert_eq!(sup.handle_token(ServiceId::Primary), None);
}

#[test]
fn stop_after_failed_launch_is_idempotent() {
    let mut sup = default_supervisor();
    let mut probes = vec![false];
    let mut spawns = vec![
        SpawnOutcome::NotFound,
        SpawnOutcome::NotFound,
        SpawnOutcome::NotFound,
        SpawnOutcome::NotFound,
        SpawnOutcome::NotFound,
    ];
    let mut emitted = vec![];
    drive(&mut sup, ServiceId::Primary, &mut probes, &mut spawns, &mut emitted);
    let (taken, note) = sup.stop(ServiceId::Primary);
    assert_eq!(taken, None);
    assert_eq!(note, Notification::Stopped);
    assert!(!sup.get_status(ServiceId::Primary));
}

#[test]
fn bounded_polling_primary_fails_after_fifteen_polls() {
    let mut sup = default_supervisor();
    // One idempotence probe plus exactly the fifteen polling probes of the
    // primary budget; health never becomes true.
    let mut probes = vec![false; 16];
    let mut spawns = vec![SpawnOutcome::Spawned { handle: 9 }];
    let mut emitted = vec![];
    let done = drive(&mut sup, ServiceId::Primary, &mut probes, &mut spawns, &mut emitted);
    assert_eq!(done.phase, StartPhase::Done { outcome: StartOutcome::NeverHealthy });
    assert_eq!(done.probes_made, 16);
    // No probe of the scripted budget is left over: the loop stopped by
    // itself, after exactly the configured number of probes.
    assert!(probes.is_empty());
    assert_eq!(emitted, vec![Notification::Failed]);
    assert!(!sup.get_status(ServiceId::Primary));
    // The spawned process is deliberately left registered for an explicit
    // stop.
    assert_eq!(sup.handle_token(ServiceId::Primary), Some(9));
    // An exhausted poll budget was announced by its notification; it is
    // not a launch error.
    assert_eq!(done.result(), Ok(()));
}

#[test]
fn bounded_polling_secondary_fails_after_ten_polls() {
    let mut sup = default_supervisor();
    let mut probes = vec![false; 11];
    let mut spawns = vec![SpawnOutcome::Spawned { handle: 5 }];
    let mut emitted = vec![];
    let done = drive(&mut sup, ServiceId::Secondary, &mut probes, &mut spawns, &mut emitted);
    assert_eq!(done.phase, StartPhase::Done { outcome: StartOutcome::NeverHealthy });
    assert_eq!(done.probes_made, 11);
    assert!(probes.is_empty());
    assert_eq!(emitted, vec![Notification::Failed]);
    assert!(!sup.get_status(ServiceId::Secondary));
}

#[test]
fn strategy_fallthrough_uses_second_handle() {
    let mut sup = default_supervisor();
    let mut probes = vec![false, true];
    let mut spawns = vec![SpawnOutcome::NotFound, SpawnOutcome::Spawned { handle: 7 }];
    let mut emitted = vec![];
    let done = drive(&mut sup, ServiceId::Primary, &mut probes, &mut spawns, &mut emitted);
    assert_eq!(done.phase, StartPhase::Done { outcome: StartOutcome::Started });
    assert_eq!(done.spawn_attempts, 2);
    assert_eq!(sup.handle_token(ServiceId::Primary), Some(7));
    assert_eq!(done.result(), Ok(()));
    assert_eq!(emitted, vec![Notification::Running]);
}

#[test]
fn exhausted_chain_without_candidates_reports_no_interpreter() {
    let mut sup = default_supervisor();
    let mut probes = vec![false];
    let mut spawns = vec![SpawnOutcome::NotFound; 5];
    let mut emitted = vec![];
    let done = drive(&mut sup, ServiceId::Primary, &mut probes, &mut spawns, &mut emitted);
    assert_eq!(
        done.phase,
        StartPhase::Done {
            outcome: StartOutcome::LaunchFailed { error: LaunchError::NoInterpreterFound }
        }
    );
    assert_eq!(done.spawn_attempts, 5);
    assert_eq!(done.result(), Err(LaunchError::NoInterpreterFound));
    assert_eq!(
        done.result().unwrap_err().message(),
        "Could not find python3 or python. Please install Python 3.11+."
    );
    assert_eq!(emitted, vec![Notification::Failed]);
    assert!(!sup.get_status(ServiceId::Primary));
}

#[test]
fn exhausted_chain_with_spawn_error_reports_spawn_failure() {
    let mut sup = default_supervisor();
    let mut probes = vec![false];
    let mut spawns = vec![
        SpawnOutcome::NotFound,
        SpawnOutcome::Failed,
        SpawnOutcome::NotFound,
        SpawnOutcome::NotFound,
        SpawnOutcome::NotFound,
    ];
    let mut emitted = vec![];
    let done = drive(&mut sup, ServiceId::Primary, &mut probes, &mut spawns, &mut emitted);
    assert_eq!(done.result(), Err(LaunchError::SpawnFailed));
    assert_eq!(
        done.result().unwrap_err().message(),
        "Could not spawn a process for the service."
    );
}

#[test]
fn status_always_matches_last_notification() {
    // After every completed start or stop, the status query answers
    // exactly what the last emitted notification implies.
    let mut sup = default_supervisor();
    let mut last: Option<Notification> = None;

    // A failed launch.
    let mut probes = vec![false];
    let mut spawns = vec![SpawnOutcome::NotFound; 5];
    let mut emitted = vec![];
    drive(&mut sup, ServiceId::Primary, &mut probes, &mut spawns, &mut emitted);
    if let Some(n) = emitted.last() {
        last = Some(*n);
    }
    assert_eq!(sup.get_status(ServiceId::Primary), last == Some(Notification::Running));

    // A successful start.
    let mut probes = vec![false, true];
    let mut spawns = vec![SpawnOutcome::Spawned { handle: 3 }];
    let mut emitted = vec![];
    drive(&mut sup, ServiceId::Primary, &mut probes, &mut spawns, &mut emitted);
    if let Some(n) = emitted.last() {
        last = Some(*n);
    }
    assert_eq!(sup.get_status(ServiceId::Primary), last == Some(Notification::Running));

    // A stop.
    let (_, note) = sup.stop(ServiceId::Primary);
    last = Some(note);
    assert_eq!(sup.get_status(ServiceId::Primary), last == Some(Notification::Running));

    // An idempotent start on an already healthy service.
    let mut probes = vec![true];
    let mut spawns = vec![];
    let mut emitted = vec![];
    drive(&mut sup, ServiceId::Primary, &mut probes, &mut spawns, &mut emitted);
    if let Some(n) = emitted.last() {
        last = Some(*n);
    }
    assert_eq!(sup.get_status(ServiceId::Primary), last == Some(Notification::Running));
}

#[test]
fn late_poll_after_stop_reports_running_again() {
    // The known ordering hazard: a stop issued while a start's poll loop
    // is still in flight removes the handle, but the poll loop runs to
    // completion and may commit a stale "running" afterward.
    let mut sup = default_supervisor();
    let session = sup.start_begin(ServiceId::Primary);
    let (session, _) = sup.on_initial_probe(session, false);
    let (session, _) = sup.on_spawn_result(session, SpawnOutcome::Spawned { handle: 8 });
    let (taken, _) = sup.stop(ServiceId::Primary);
    assert_eq!(taken, Some(8));
    assert!(!sup.get_status(ServiceId::Primary));
    // The in-flight poll loop sees a healthy probe afterward.
    let (session, note) = sup.on_poll_probe(session, true);
    assert_eq!(session.phase, StartPhase::Done { outcome: StartOutcome::Started });
    assert_eq!(note, Some(Notification::Running));
    assert!(sup.get_status(ServiceId::Primary));
}

#[test]
fn action_protocol_follows_the_phases() {
    let mut sup = default_supervisor();
    let session = sup.start_begin(ServiceId::Primary);
    assert!(matches!(sup.start_action(&session), StartAction::Probe));
    let (session, _) = sup.on_initial_probe(session, false);
    // The first strategy offered is the bundled companion.
    match sup.start_action(&session) {
        StartAction::Attempt { strategy } => match strategy {
            LaunchStrategy::BundledCompanion { program } => {
                assert_eq!(program, "achilles-server")
            }
            _ => panic!("the chain must begin with the bundled companion"),
        },
        _ => panic!("a spawning session must be told to attempt a strategy"),
    }
    let (session, _) = sup.on_spawn_result(session, SpawnOutcome::Spawned { handle: 2 });
    match sup.start_action(&session) {
        StartAction::WaitThenProbe { seconds } => assert_eq!(seconds, 1),
        _ => panic!("a polling session must be told to wait and probe"),
    }
    let (session, _) = sup.on_poll_probe(session, true);
    assert!(matches!(sup.start_action(&session), StartAction::Finished));
}

#[test]
fn services_are_isolated() {
    let mut sup = default_supervisor();
    let mut probes = vec![true];
    let mut spawns = vec![];
    let mut emitted = vec![];
    drive(&mut sup, ServiceId::Secondary, &mut probes, &mut spawns, &mut emitted);
    assert!(sup.get_status(ServiceId::Secondary));
    assert!(!sup.get_status(ServiceId::Primary));
    assert_eq!(sup.get_base_url(ServiceId::Primary), "http://127.0.0.1:8900");
    let _ = sup.stop(ServiceId::Secondary);
    assert!(!sup.get_status(ServiceId::Secondary));
    assert_eq!(sup.handle_token(ServiceId::Primary), None);
}
