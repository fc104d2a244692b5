use figcli::{FigError, Phase, Supervisor, SupervisorAction, SupervisorEvent};

/// Feeds `events` to a run and returns every action, the first included.
fn run(has_tunnel: bool, events: Vec<SupervisorEvent>) -> (Vec<SupervisorAction>, Supervisor) {
    let (mut s, first) = Supervisor::start(has_tunnel, false, 5000, 200);
    let mut actions = vec![first];
    for e in events {
        assert!(s.accepts(&e), "{:?} in {:?}", e, s.phase);
        let (next, action) = s.step(e);
        s = next;
        actions.push(action);
    }
    (actions, s)
}

#[test]
fn primary_success_without_tunnel() {
    let (actions, s) = run(
        false,
        vec![
            SupervisorEvent::PrimarySpawned,
            SupervisorEvent::PrimaryRunning,
            SupervisorEvent::SleepElapsed,
            SupervisorEvent::PrimaryExited(Some(0)),
        ],
    );
    assert_eq!(
        actions,
        vec![
            SupervisorAction::SpawnPrimary { suppress_output: false },
            SupervisorAction::PollPrimary,
            SupervisorAction::Sleep { millis: 200 },
            SupervisorAction::PollPrimary,
            SupervisorAction::Finish { result: Ok(()), teardown_error: None },
        ]
    );
    assert!(!actions.iter().any(|a| matches!(a, SupervisorAction::PollTunnel | SupervisorAction::KillTunnel)));
    assert!(s.is_completed());
}

#[test]
fn tunnel_is_killed_when_primary_fails() {
    let (actions, s) = run(
        true,
        vec![
            SupervisorEvent::TunnelSpawned,
            SupervisorEvent::SleepElapsed,
            SupervisorEvent::PrimarySpawned,
            SupervisorEvent::PrimaryExited(Some(1)),
            SupervisorEvent::TunnelRunning,
            SupervisorEvent::TunnelKilled,
        ],
    );
    assert_eq!(
        actions,
        vec![
            SupervisorAction::SpawnTunnel { suppress_output: false },
            SupervisorAction::Sleep { millis: 5000 },
            SupervisorAction::SpawnPrimary { suppress_output: false },
            SupervisorAction::PollPrimary,
            SupervisorAction::PollTunnel,
            SupervisorAction::KillTunnel,
            SupervisorAction::Finish {
                result: Err(FigError::ChildFailed(Some(1))),
                teardown_error: None
            },
        ]
    );
    assert_eq!(s.phase, Phase::Completed);
}

#[test]
fn tunnel_that_already_exited_is_not_killed() {
    let (actions, _) = run(
        true,
        vec![
            SupervisorEvent::TunnelSpawned,
            SupervisorEvent::SleepElapsed,
            SupervisorEvent::PrimarySpawned,
            SupervisorEvent::PrimaryExited(Some(0)),
            SupervisorEvent::TunnelExited,
        ],
    );
    assert!(!actions.contains(&SupervisorAction::KillTunnel));
    assert_eq!(
        actions.last().unwrap(),
        &SupervisorAction::Finish { result: Ok(()), teardown_error: None }
    );
}

#[test]
fn missing_primary_binary_tears_down_without_sleeping() {
    let (actions, _) = run(
        true,
        vec![
            SupervisorEvent::TunnelSpawned,
            SupervisorEvent::SleepElapsed,
            SupervisorEvent::PrimarySpawnFailed("No such file or directory".to_string()),
            SupervisorEvent::TunnelRunning,
            SupervisorEvent::TunnelKilled,
        ],
    );
    let after_spawn = &actions[3..];
    assert!(!after_spawn.iter().any(|a| matches!(a, SupervisorAction::Sleep { .. })));
    assert_eq!(after_spawn[0], SupervisorAction::PollTunnel);
    assert_eq!(after_spawn[1], SupervisorAction::KillTunnel);
    assert_eq!(
        after_spawn[2],
        SupervisorAction::Finish {
            result: Err(FigError::ExecError("No such file or directory".to_string())),
            teardown_error: None
        }
    );
}

#[test]
fn missing_primary_binary_without_tunnel_fails_at_once() {
    let (actions, s) = run(false, vec![SupervisorEvent::PrimarySpawnFailed("nope".to_string())]);
    assert_eq!(
        actions[1],
        SupervisorAction::Finish { result: Err(FigError::ExecError("nope".to_string())), teardown_error: None }
    );
    assert!(s.is_completed());
}

#[test]
fn tunnel_spawn_failure_is_fatal() {
    let (actions, s) = run(true, vec![SupervisorEvent::TunnelSpawnFailed("no kubectl".to_string())]);
    assert_eq!(
        actions[1],
        SupervisorAction::Finish { result: Err(FigError::ExecError("no kubectl".to_string())), teardown_error: None }
    );
    assert!(s.is_completed());
}

#[test]
fn kill_failure_does_not_override_success() {
    let (actions, _) = run(
        true,
        vec![
            SupervisorEvent::TunnelSpawned,
            SupervisorEvent::SleepElapsed,
            SupervisorEvent::PrimarySpawned,
            SupervisorEvent::PrimaryExited(Some(0)),
            SupervisorEvent::TunnelRunning,
            SupervisorEvent::TunnelKillFailed("EPERM".to_string()),
        ],
    );
    assert_eq!(
        actions.last().unwrap(),
        &SupervisorAction::Finish { result: Ok(()), teardown_error: Some("EPERM".to_string()) }
    );
}

#[test]
fn signal_termination_is_a_failure() {
    let (actions, _) = run(
        false,
        vec![SupervisorEvent::PrimarySpawned, SupervisorEvent::PrimaryExited(None)],
    );
    assert_eq!(
        actions[2],
        SupervisorAction::Finish { result: Err(FigError::ChildFailed(None)), teardown_error: None }
    );
}

#[test]
fn interrupt_tears_down_the_tunnel() {
    let (actions, _) = run(
        true,
        vec![
            SupervisorEvent::TunnelSpawned,
            SupervisorEvent::SleepElapsed,
            SupervisorEvent::PrimarySpawned,
            SupervisorEvent::PrimaryRunning,
            SupervisorEvent::Interrupted,
            SupervisorEvent::TunnelRunning,
            SupervisorEvent::TunnelKilled,
        ],
    );
    assert_eq!(actions[5], SupervisorAction::PollTunnel);
    assert_eq!(actions[6], SupervisorAction::KillTunnel);
    assert_eq!(
        actions[7],
        SupervisorAction::Finish { result: Err(FigError::Interrupted), teardown_error: None }
    );
}

#[test]
fn output_suppression_is_passed_to_both_spawns() {
    let (s, first) = Supervisor::start(true, true, 10, 20);
    assert_eq!(first, SupervisorAction::SpawnTunnel { suppress_output: true });
    let (s, a) = s.step(SupervisorEvent::TunnelSpawned);
    assert_eq!(a, SupervisorAction::Sleep { millis: 10 });
    let (_, a) = s.step(SupervisorEvent::SleepElapsed);
    assert_eq!(a, SupervisorAction::SpawnPrimary { suppress_output: true });
}

#[test]
fn unexpected_events_are_not_accepted() {
    let (s, _) = Supervisor::start(false, false, 10, 20);
    assert!(!s.accepts(&SupervisorEvent::TunnelSpawned));
    assert!(!s.accepts(&SupervisorEvent::SleepElapsed));
    assert!(s.accepts(&SupervisorEvent::PrimarySpawned));
}
