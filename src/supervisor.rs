//! Decisions of the process supervisor. The caller owns the processes: it
//! performs each action that `step` returns and reports what happened as the
//! next event. The tunnel, when there is one, starts first; after a grace
//! period the primary command starts and is polled until it exits; then the
//! tunnel is torn down if it still runs, and the primary's exit decides the
//! result.
use vstd::prelude::*;

use crate::error::FigError;

verus! {

/// Where a supervised run stands.
#[derive(Debug, Clone, Copy, PartialEq, Eq, Structural)]
pub enum Phase {
    /// Waiting for the tunnel to be spawned.
    TunnelStarting,
    /// Waiting out the grace period after the tunnel started.
    GracePeriod,
    /// Waiting for the primary command to be spawned.
    PrimaryStarting,
    /// Waiting for a poll of the primary process.
    Polling,
    /// Sleeping between two polls of the primary process.
    Waiting,
    /// Waiting for a poll of the tunnel process, to tear it down.
    TunnelCheck,
    /// Waiting for the tunnel process to be killed.
    TunnelKill,
    /// The run is over.
    Completed,
}

/// What the caller reports after performing an action.
#[derive(Debug, Clone, PartialEq, Eq)]
pub enum SupervisorEvent {
    TunnelSpawned,
    TunnelSpawnFailed(String),
    /// A requested sleep is over.
    SleepElapsed,
    PrimarySpawned,
    PrimarySpawnFailed(String),
    /// A poll found the primary process still running.
    PrimaryRunning,
    /// A poll found the primary process ended, with its exit code, or
    /// `None` when a signal ended it.
    PrimaryExited(Option<i32>),
    /// Polling a process failed.
    PollFailed(String),
    /// A poll found the tunnel process still running.
    TunnelRunning,
    /// A poll found the tunnel process already ended.
    TunnelExited,
    TunnelKilled,
    TunnelKillFailed(String),
    /// The operator interrupted the run.
    Interrupted,
}

/// What the caller must do next.
#[derive(Debug, PartialEq, Eq)]
pub enum SupervisorAction {
    /// Start the tunnel command, with its output streams discarded when
    /// `suppress_output` holds.
    SpawnTunnel { suppress_output: bool },
    /// Sleep, then report `SleepElapsed` (or `Interrupted`).
    Sleep { millis: u64 },
    /// Start the primary command, with its output streams discarded when
    /// `suppress_output` holds.
    SpawnPrimary { suppress_output: bool },
    /// Ask whether the primary process has exited, without blocking.
    PollPrimary,
    /// Ask whether the tunnel process has exited, without blocking.
    PollTunnel,
    /// Kill the tunnel process.
    KillTunnel,
    /// The run is over: `result` is its outcome; `teardown_error` reports a
    /// failure to kill the tunnel, which does not change the outcome.
    Finish { result: Result<(), FigError>, teardown_error: Option<String> },
}

/// The state of one supervised run.
#[derive(Debug)]
pub struct Supervisor {
    pub phase: Phase,
    /// Whether a tunnel process was started.
    pub tunnel_started: bool,
    pub suppress_output: bool,
    /// The grace period between the tunnel's start and the primary's.
    pub grace_millis: u64,
    /// The interval between two polls of the primary process.
    pub poll_millis: u64,
    /// The outcome of the primary, once known, kept through the teardown.
    pub outcome: Result<(), FigError>,
}

/// The grace period of the tunnel, in milliseconds.
pub const DEFAULT_GRACE_MILLIS: u64 = 5000;

/// The interval between two polls of the primary process, in milliseconds.
pub const DEFAULT_POLL_MILLIS: u64 = 200;

/// The outcome of a primary process that exited with `code`: success exactly
/// for exit code 0.
pub open spec fn exit_outcome(code: Option<i32>) -> Result<(), FigError> {
    if code == Some(0i32) {
        Ok(())
    } else {
        Err(FigError::ChildFailed(code))
    }
}

/// The first step of a run.
pub open spec fn start_of(
    has_tunnel: bool,
    suppress_output: bool,
    grace_millis: u64,
    poll_millis: u64,
) -> (Supervisor, SupervisorAction) {
    let s = Supervisor {
        phase: if has_tunnel {
            Phase::TunnelStarting
        } else {
            Phase::PrimaryStarting
        },
        tunnel_started: false,
        suppress_output,
        grace_millis,
        poll_millis,
        outcome: Ok(()),
    };
    if has_tunnel {
        (s, SupervisorAction::SpawnTunnel { suppress_output })
    } else {
        (s, SupervisorAction::SpawnPrimary { suppress_output })
    }
}

/// The primary is done with `outcome`: tear the tunnel down if one was
/// started, else finish.
pub open spec fn conclude(s: Supervisor, outcome: Result<(), FigError>) -> (
    Supervisor,
    SupervisorAction,
) {
    if s.tunnel_started {
        (Supervisor { phase: Phase::TunnelCheck, outcome, ..s }, SupervisorAction::PollTunnel)
    } else {
        (
            Supervisor { phase: Phase::Completed, outcome: Ok(()), ..s },
            SupervisorAction::Finish { result: outcome, teardown_error: None },
        )
    }
}

/// The end of a run after the teardown.
pub open spec fn finish(s: Supervisor, teardown_error: Option<String>) -> (
    Supervisor,
    SupervisorAction,
) {
    (
        Supervisor { phase: Phase::Completed, outcome: Ok(()), ..s },
        SupervisorAction::Finish { result: s.outcome, teardown_error },
    )
}

/// The states that a run can reach: a tunnel exists in the phases that wait
/// on it or tear it down, and none before its spawn.
pub open spec fn well_formed(s: Supervisor) -> bool {
    &&& (s.phase == Phase::GracePeriod || s.phase == Phase::TunnelCheck || s.phase
        == Phase::TunnelKill) ==> s.tunnel_started
    &&& s.phase == Phase::TunnelStarting ==> !s.tunnel_started
}

/// The events that each phase expects.
pub open spec fn expects(s: Supervisor, e: SupervisorEvent) -> bool {
    match s.phase {
        Phase::TunnelStarting => e is TunnelSpawned || e is TunnelSpawnFailed,
        Phase::GracePeriod => e is SleepElapsed || e is Interrupted,
        Phase::PrimaryStarting => e is PrimarySpawned || e is PrimarySpawnFailed,
        Phase::Polling => e is PrimaryRunning || e is PrimaryExited || e is PollFailed,
        Phase::Waiting => e is SleepElapsed || e is Interrupted,
        Phase::TunnelCheck => e is TunnelRunning || e is TunnelExited || e is PollFailed,
        Phase::TunnelKill => e is TunnelKilled || e is TunnelKillFailed,
        Phase::Completed => false,
    }
}

/// The transition of the supervisor on an expected event.
pub open spec fn next(s: Supervisor, e: SupervisorEvent) -> (Supervisor, SupervisorAction) {
    match e {
        SupervisorEvent::TunnelSpawned => (
            Supervisor { phase: Phase::GracePeriod, tunnel_started: true, ..s },
            SupervisorAction::Sleep { millis: s.grace_millis },
        ),
        SupervisorEvent::TunnelSpawnFailed(m) => (
            Supervisor { phase: Phase::Completed, ..s },
            SupervisorAction::Finish { result: Err(FigError::ExecError(m)), teardown_error: None },
        ),
        SupervisorEvent::SleepElapsed => if s.phase == Phase::GracePeriod {
            (
                Supervisor { phase: Phase::PrimaryStarting, ..s },
                SupervisorAction::SpawnPrimary { suppress_output: s.suppress_output },
            )
        } else {
            (Supervisor { phase: Phase::Polling, ..s }, SupervisorAction::PollPrimary)
        },
        SupervisorEvent::PrimarySpawned => (
            Supervisor { phase: Phase::Polling, ..s },
            SupervisorAction::PollPrimary,
        ),
        SupervisorEvent::PrimarySpawnFailed(m) => conclude(s, Err(FigError::ExecError(m))),
        SupervisorEvent::PrimaryRunning => (
            Supervisor { phase: Phase::Waiting, ..s },
            SupervisorAction::Sleep { millis: s.poll_millis },
        ),
        SupervisorEvent::PrimaryExited(code) => conclude(s, exit_outcome(code)),
        SupervisorEvent::PollFailed(m) => if s.phase == Phase::Polling {
            conclude(s, Err(FigError::ExecError(m)))
        } else {
            (Supervisor { phase: Phase::TunnelKill, ..s }, SupervisorAction::KillTunnel)
        },
        SupervisorEvent::TunnelRunning => (
            Supervisor { phase: Phase::TunnelKill, ..s },
            SupervisorAction::KillTunnel,
        ),
        SupervisorEvent::TunnelExited => finish(s, None),
        SupervisorEvent::TunnelKilled => finish(s, None),
        SupervisorEvent::TunnelKillFailed(m) => finish(s, Some(m)),
        SupervisorEvent::Interrupted => conclude(s, Err(FigError::Interrupted)),
    }
}

/// Whatever ends the primary (its exit, a failed spawn or poll, an
/// interrupt), a started tunnel is checked next, and killed if it still
/// runs; without a tunnel the run finishes at once with the primary's
/// outcome and no teardown.
pub proof fn law_primary_end_tears_down_tunnel(s: Supervisor, e: SupervisorEvent)
    requires
        expects(s, e),
        e is PrimaryExited || e is PrimarySpawnFailed || e is Interrupted || (e is PollFailed
            && s.phase == Phase::Polling),
    ensures
        s.tunnel_started ==> next(s, e).1 == SupervisorAction::PollTunnel && next(s, e).0.phase
            == Phase::TunnelCheck && next(
            next(s, e).0,
            SupervisorEvent::TunnelRunning,
        ).1 == SupervisorAction::KillTunnel,
        !s.tunnel_started ==> (next(s, e).0.phase == Phase::Completed && next(s, e).1 matches
            SupervisorAction::Finish { teardown_error: None, .. }),
{
}

/// The primary's exit status alone decides the outcome, and the teardown
/// of the tunnel keeps it: success exactly for exit code 0, else a
/// `ChildFailed` that carries the exit code.
pub proof fn law_exit_status_decides(s: Supervisor, code: Option<i32>, teardown: SupervisorEvent)
    requires
        expects(s, SupervisorEvent::PrimaryExited(code)),
        teardown is TunnelExited || teardown is TunnelKilled || teardown is TunnelKillFailed,
    ensures
        exit_outcome(code) is Ok <==> code == Some(0i32),
        exit_outcome(code) is Err ==> exit_outcome(code) == Err::<(), FigError>(
            FigError::ChildFailed(code),
        ),
        !s.tunnel_started ==> (next(s, SupervisorEvent::PrimaryExited(code)).1 matches
            SupervisorAction::Finish { result, .. } && result == exit_outcome(code)),
        ({
            let after = next(s, SupervisorEvent::PrimaryExited(code)).0;
            let end = next(Supervisor { phase: Phase::TunnelKill, ..after }, teardown).1;
            s.tunnel_started ==> (end matches SupervisorAction::Finish { result, .. } && result
                == exit_outcome(code))
        }),
{
}

/// A primary that cannot be spawned ends the run without any further sleep:
/// the next action tears down a started tunnel, or finishes with the spawn
/// error.
pub proof fn law_spawn_failure_ends_run(s: Supervisor, m: String)
    requires
        expects(s, SupervisorEvent::PrimarySpawnFailed(m)),
    ensures
        !(next(s, SupervisorEvent::PrimarySpawnFailed(m)).1 is Sleep),
        s.tunnel_started ==> next(s, SupervisorEvent::PrimarySpawnFailed(m)).1
            == SupervisorAction::PollTunnel,
        !s.tunnel_started ==> next(s, SupervisorEvent::PrimarySpawnFailed(m)).1 == (
        SupervisorAction::Finish {
            result: Err(FigError::ExecError(m)),
            teardown_error: None,
        }),
{
}

impl Supervisor {
    /// Starts a run: with a tunnel, its spawn comes first.
    pub fn start(has_tunnel: bool, suppress_output: bool, grace_millis: u64, poll_millis: u64) -> (r: (
        Supervisor,
        SupervisorAction,
    ))
        ensures
            r == start_of(has_tunnel, suppress_output, grace_millis, poll_millis),
            well_formed(r.0),
    {
        let s = Supervisor {
            phase: if has_tunnel {
                Phase::TunnelStarting
            } else {
                Phase::PrimaryStarting
            },
            tunnel_started: false,
            suppress_output,
            grace_millis,
            poll_millis,
            outcome: Ok(()),
        };
        if has_tunnel {
            (s, SupervisorAction::SpawnTunnel { suppress_output })
        } else {
            (s, SupervisorAction::SpawnPrimary { suppress_output })
        }
    }

    /// Whether the state is one that a run can reach and its phase expects
    /// `event`: exactly when `step` may take it.
    pub fn accepts(&self, event: &SupervisorEvent) -> (r: bool)
        ensures
            r == (well_formed(*self) && expects(*self, *event)),
    {
        let reachable = match self.phase {
            Phase::GracePeriod | Phase::TunnelCheck | Phase::TunnelKill => self.tunnel_started,
            Phase::TunnelStarting => !self.tunnel_started,
            _ => true,
        };
        if !reachable {
            return false;
        }
        match self.phase {
            Phase::TunnelStarting => match event {
                SupervisorEvent::TunnelSpawned | SupervisorEvent::TunnelSpawnFailed(_) => true,
                _ => false,
            },
            Phase::GracePeriod | Phase::Waiting => match event {
                SupervisorEvent::SleepElapsed | SupervisorEvent::Interrupted => true,
                _ => false,
            },
            Phase::PrimaryStarting => match event {
                SupervisorEvent::PrimarySpawned | SupervisorEvent::PrimarySpawnFailed(_) => true,
                _ => false,
            },
            Phase::Polling => match event {
                SupervisorEvent::PrimaryRunning
                | SupervisorEvent::PrimaryExited(_)
                | SupervisorEvent::PollFailed(_) => true,
                _ => false,
            },
            Phase::TunnelCheck => match event {
                SupervisorEvent::TunnelRunning
                | SupervisorEvent::TunnelExited
                | SupervisorEvent::PollFailed(_) => true,
                _ => false,
            },
            Phase::TunnelKill => match event {
                SupervisorEvent::TunnelKilled | SupervisorEvent::TunnelKillFailed(_) => true,
                _ => false,
            },
            Phase::Completed => false,
        }
    }

    /// Whether the run is over.
    pub fn is_completed(&self) -> (r: bool)
        ensures
            r == (self.phase == Phase::Completed),
    {
        self.phase == Phase::Completed
    }

    /// Moves the run on by one event; returns the new state and the next
    /// action.
    pub fn step(self, event: SupervisorEvent) -> (r: (Supervisor, SupervisorAction))
        requires
            well_formed(self),
            expects(self, event),
        ensures
            r == next(self, event),
            well_formed(r.0),
    {
        let s = self;
        match event {
            SupervisorEvent::TunnelSpawned => {
                let millis = s.grace_millis;
                (
                    Supervisor { phase: Phase::GracePeriod, tunnel_started: true, ..s },
                    SupervisorAction::Sleep { millis },
                )
            },
            SupervisorEvent::TunnelSpawnFailed(m) => (
                Supervisor { phase: Phase::Completed, ..s },
                SupervisorAction::Finish {
                    result: Err(FigError::ExecError(m)),
                    teardown_error: None,
                },
            ),
            SupervisorEvent::SleepElapsed => {
                if s.phase == Phase::GracePeriod {
                    let suppress_output = s.suppress_output;
                    (
                        Supervisor { phase: Phase::PrimaryStarting, ..s },
                        SupervisorAction::SpawnPrimary { suppress_output },
                    )
                } else {
                    (Supervisor { phase: Phase::Polling, ..s }, SupervisorAction::PollPrimary)
                }
            },
            SupervisorEvent::PrimarySpawned => (
                Supervisor { phase: Phase::Polling, ..s },
                SupervisorAction::PollPrimary,
            ),
            SupervisorEvent::PrimarySpawnFailed(m) => s.conclude(Err(FigError::ExecError(m))),
            SupervisorEvent::PrimaryRunning => {
                let millis = s.poll_millis;
                (Supervisor { phase: Phase::Waiting, ..s }, SupervisorAction::Sleep { millis })
            },
            SupervisorEvent::PrimaryExited(code) => {
                let outcome = match code {
                    Some(0) => Ok(()),
                    _ => Err(FigError::ChildFailed(code)),
                };
                s.conclude(outcome)
            },
            SupervisorEvent::PollFailed(m) => {
                if s.phase == Phase::Polling {
                    s.conclude(Err(FigError::ExecError(m)))
                } else {
                    (Supervisor { phase: Phase::TunnelKill, ..s }, SupervisorAction::KillTunnel)
                }
            },
            SupervisorEvent::TunnelRunning => (
                Supervisor { phase: Phase::TunnelKill, ..s },
                SupervisorAction::KillTunnel,
            ),
            SupervisorEvent::TunnelExited => s.finish(None),
            SupervisorEvent::TunnelKilled => s.finish(None),
            SupervisorEvent::TunnelKillFailed(m) => s.finish(Some(m)),
            SupervisorEvent::Interrupted => s.conclude(Err(FigError::Interrupted)),
        }
    }

    fn conclude(self, outcome: Result<(), FigError>) -> (r: (Supervisor, SupervisorAction))
        ensures
            r == conclude(self, outcome),
    {
        if self.tunnel_started {
            (Supervisor { phase: Phase::TunnelCheck, outcome, ..self }, SupervisorAction::PollTunnel)
        } else {
            (
                Supervisor { phase: Phase::Completed, outcome: Ok(()), ..self },
                SupervisorAction::Finish { result: outcome, teardown_error: None },
            )
        }
    }

    fn finish(self, teardown_error: Option<String>) -> (r: (Supervisor, SupervisorAction))
        ensures
            r == finish(self, teardown_error),
    {
        let result = self.outcome;
        (
            Supervisor {
                phase: Phase::Completed,
                outcome: Ok(()),
                tunnel_started: self.tunnel_started,
                suppress_output: self.suppress_output,
                grace_millis: self.grace_millis,
                poll_millis: self.poll_millis,
            },
            SupervisorAction::Finish { result, teardown_error },
        )
    }
}

} // verus!
