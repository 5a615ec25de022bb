//! The supervisor: authoritative per-service state, and the event-driven
//! start and stop logic.
//!
//! Spawning, probing, sleeping and delivering notifications are outside
//! effects; the embedding program performs them. A `start` operation is a
//! session: the supervisor names the next action (`start_action`), the
//! embedder performs it and hands the outcome back (`on_initial_probe`,
//! `on_spawn_result`, `on_poll_probe`), until the session is done. Every
//! transition is the one `step_spec` describes.

use vstd::prelude::*;

use crate::launch::{strategy_at, strategy_at_spec, LaunchError, LaunchStrategy, CHAIN_LENGTH};
use crate::service::{
    primary_descriptor, primary_descriptor_spec, secondary_descriptor, secondary_descriptor_spec,
    Notification, ServiceDescriptor, ServiceId,
};

verus! {

/// Process-wide snapshot of both services' liveness and base URLs: the
/// only mutator is the supervisor; collaborators read it through the
/// status queries.
#[verifier::ext_equal]
pub struct AppState {
    pub server_running: bool,
    pub server_port: u16,
    pub api_url: String,
    pub mcp_running: bool,
    pub mcp_port: u16,
    pub mcp_url: String,
}

/// The supervisor: shared service state, the per-service process handle
/// registry, the per-service launch configuration, and the last
/// notification recorded for each service.
///
/// A process handle is represented by the token the embedder assigned to
/// the live child process it owns; the registry holds at most one per
/// service.
#[verifier::ext_equal]
pub struct Supervisor {
    pub state: AppState,
    pub primary_desc: ServiceDescriptor,
    pub secondary_desc: ServiceDescriptor,
    pub primary_handle: Option<u64>,
    pub secondary_handle: Option<u64>,
    pub primary_note: Option<Notification>,
    pub secondary_note: Option<Notification>,
}

/// How far a start session has come.
#[derive(Clone, Copy, PartialEq, Eq, Structural, Debug)]
pub enum StartPhase {
    /// The one idempotence probe before anything is spawned.
    InitialProbe,
    /// Strategy `next` of the chain is the one to attempt.
    Spawning { next: usize },
    /// A handle is committed; `polls_done` health probes have failed so
    /// far.
    Polling { polls_done: u32 },
    /// The session is complete.
    Done { outcome: StartOutcome },
}

/// How a completed start session ended.
#[derive(Clone, Copy, PartialEq, Eq, Structural, Debug)]
pub enum StartOutcome {
    /// The initial probe found the service already healthy; nothing was
    /// spawned.
    AlreadyRunning,
    /// A spawned process answered a health probe within the budget.
    Started,
    /// Every strategy of the chain failed to spawn.
    LaunchFailed { error: LaunchError },
    /// The poll budget was exhausted without a healthy probe. The spawned
    /// process is deliberately left running and its handle stays in the
    /// registry, available to an explicit stop.
    NeverHealthy,
}

/// One in-flight start operation for one service.
#[derive(Clone, Copy, PartialEq, Eq, Structural, Debug)]
pub struct StartSession {
    pub service: ServiceId,
    pub phase: StartPhase,
    /// Health probes issued so far in this session, the initial
    /// idempotence probe included.
    pub probes_made: u64,
    /// Launch strategies attempted so far.
    pub spawn_attempts: u64,
    /// Attempts that failed in the spawn mechanism itself rather than for
    /// want of an executable.
    pub spawn_errors: u64,
}

/// What one spawn attempt came to.
#[derive(Clone, Copy, PartialEq, Eq, Structural, Debug)]
pub enum SpawnOutcome {
    /// A live child exists; `handle` is the embedder's token for it.
    Spawned { handle: u64 },
    /// The strategy's executable could not be located.
    NotFound,
    /// The spawn mechanism itself failed.
    Failed,
}

/// The outcome of one performed action, handed back to the supervisor.
#[derive(Clone, Copy, PartialEq, Eq, Structural, Debug)]
pub enum StartEvent {
    ProbeResult { healthy: bool },
    SpawnResult { outcome: SpawnOutcome },
}

/// What the embedder must do next for a start session.
pub enum StartAction {
    /// Issue one bounded-timeout HTTP GET against the service's health
    /// URL and reduce it to a boolean.
    Probe,
    /// Attempt to spawn this strategy.
    Attempt { strategy: LaunchStrategy },
    /// Sleep `seconds`, then probe the health URL once.
    WaitThenProbe { seconds: u32 },
    /// The session is done; nothing is left to perform.
    Finished,
}

impl Supervisor {
    /// The launch configuration of one service.
    pub open spec fn desc_of(&self, service: ServiceId) -> ServiceDescriptor {
        match service {
            ServiceId::Primary => self.primary_desc,
            ServiceId::Secondary => self.secondary_desc,
        }
    }

    /// The committed running flag of one service.
    pub open spec fn running_of(&self, service: ServiceId) -> bool {
        match service {
            ServiceId::Primary => self.state.server_running,
            ServiceId::Secondary => self.state.mcp_running,
        }
    }

    /// The registry entry of one service.
    pub open spec fn handle_of(&self, service: ServiceId) -> Option<u64> {
        match service {
            ServiceId::Primary => self.primary_handle,
            ServiceId::Secondary => self.secondary_handle,
        }
    }

    /// The last notification recorded for one service, if any was emitted
    /// yet.
    pub open spec fn note_of(&self, service: ServiceId) -> Option<Notification> {
        match service {
            ServiceId::Primary => self.primary_note,
            ServiceId::Secondary => self.secondary_note,
        }
    }

    /// The committed base URL of one service.
    pub open spec fn base_url_of(&self, service: ServiceId) -> Seq<char> {
        match service {
            ServiceId::Primary => self.state.api_url@,
            ServiceId::Secondary => self.state.mcp_url@,
        }
    }

    /// Well-formedness: the configurations are usable, the snapshot agrees
    /// with them, and each running flag agrees with the last notification
    /// recorded for its service — a flag is set exactly when the last
    /// notification said "running".
    pub open spec fn wf(&self) -> bool {
        &&& self.primary_desc.wf()
        &&& self.secondary_desc.wf()
        &&& self.state.server_port == self.primary_desc.port
        &&& self.state.mcp_port == self.secondary_desc.port
        &&& self.state.api_url@ == self.primary_desc.base_url_view()
        &&& self.state.mcp_url@ == self.secondary_desc.base_url_view()
        &&& (self.state.server_running <==> self.primary_note == Some(Notification::Running))
        &&& (self.state.mcp_running <==> self.secondary_note == Some(Notification::Running))
    }
}

/// `sup` with one service's running flag and last notification replaced.
/// The state update and the notification are one logical step: nothing
/// changes one without the other.
pub open spec fn with_running(
    sup: Supervisor,
    service: ServiceId,
    running: bool,
    note: Notification,
) -> Supervisor {
    match service {
        ServiceId::Primary => Supervisor {
            state: AppState { server_running: running, ..sup.state },
            primary_note: Some(note),
            ..sup
        },
        ServiceId::Secondary => Supervisor {
            state: AppState { mcp_running: running, ..sup.state },
            secondary_note: Some(note),
            ..sup
        },
    }
}

/// `sup` with one service's registry entry replaced.
pub open spec fn with_handle(sup: Supervisor, service: ServiceId, handle: Option<u64>) -> Supervisor {
    match service {
        ServiceId::Primary => Supervisor { primary_handle: handle, ..sup },
        ServiceId::Secondary => Supervisor { secondary_handle: handle, ..sup },
    }
}

/// The session every start operation begins with.
pub open spec fn begin_spec(service: ServiceId) -> StartSession {
    StartSession {
        service,
        phase: StartPhase::InitialProbe,
        probes_made: 0,
        spawn_attempts: 0,
        spawn_errors: 0,
    }
}

/// The session bookkeeping invariant, relative to the supervisor whose
/// configuration the session runs under.
pub open spec fn session_inv(sup: &Supervisor, s: StartSession) -> bool {
    let d = sup.desc_of(s.service);
    &&& s.spawn_errors <= s.spawn_attempts
    &&& s.spawn_attempts <= CHAIN_LENGTH
    &&& match s.phase {
        StartPhase::InitialProbe => s.probes_made == 0 && s.spawn_attempts == 0,
        StartPhase::Spawning { next } => {
            &&& s.probes_made == 1
            &&& s.spawn_attempts == next
            &&& next < CHAIN_LENGTH
        },
        StartPhase::Polling { polls_done } => {
            &&& s.probes_made == 1 + polls_done
            &&& polls_done < d.poll_attempts
            &&& 1 <= s.spawn_attempts
        },
        StartPhase::Done { outcome } => match outcome {
            StartOutcome::AlreadyRunning => s.probes_made == 1 && s.spawn_attempts == 0,
            StartOutcome::Started => 2 <= s.probes_made <= 1 + d.poll_attempts,
            StartOutcome::LaunchFailed { .. } => s.probes_made == 1 && s.spawn_attempts
                == CHAIN_LENGTH,
            StartOutcome::NeverHealthy => s.probes_made == 1 + d.poll_attempts && 1
                <= s.spawn_attempts,
        },
    }
}

/// The whole start logic, one event at a time: what the supervisor
/// becomes, what the session becomes, and which notification (if any) is
/// emitted at this step. An event that does not belong to the session's
/// phase changes nothing.
pub open spec fn step_spec(pre: Supervisor, s: StartSession, ev: StartEvent) -> (
    Supervisor,
    StartSession,
    Option<Notification>,
) {
    let d = pre.desc_of(s.service);
    match (s.phase, ev) {
        (StartPhase::InitialProbe, StartEvent::ProbeResult { healthy }) => {
            if healthy {
                (
                    with_running(pre, s.service, true, Notification::Running),
                    StartSession {
                        phase: StartPhase::Done { outcome: StartOutcome::AlreadyRunning },
                        probes_made: (s.probes_made + 1) as u64,
                        ..s
                    },
                    Some(Notification::Running),
                )
            } else {
                (
                    pre,
                    StartSession {
                        phase: StartPhase::Spawning { next: 0 },
                        probes_made: (s.probes_made + 1) as u64,
                        ..s
                    },
                    None,
                )
            }
        },
        (StartPhase::Spawning { next }, StartEvent::SpawnResult { outcome }) => {
            match outcome {
                SpawnOutcome::Spawned { handle } => (
                    with_handle(pre, s.service, Some(handle)),
                    StartSession {
                        phase: StartPhase::Polling { polls_done: 0 },
                        spawn_attempts: (s.spawn_attempts + 1) as u64,
                        ..s
                    },
                    None,
                ),
                _ => {
                    let errors = if outcome is Failed {
                        (s.spawn_errors + 1) as u64
                    } else {
                        s.spawn_errors
                    };
                    if next + 1 < CHAIN_LENGTH {
                        (
                            pre,
                            StartSession {
                                phase: StartPhase::Spawning { next: (next + 1) as usize },
                                spawn_attempts: (s.spawn_attempts + 1) as u64,
                                spawn_errors: errors,
                                ..s
                            },
                            None,
                        )
                    } else {
                        let error = if errors > 0 {
                            LaunchError::SpawnFailed
                        } else {
                            LaunchError::NoInterpreterFound
                        };
                        (
                            with_running(pre, s.service, false, Notification::Failed),
                            StartSession {
                                phase: StartPhase::Done {
                                    outcome: StartOutcome::LaunchFailed { error },
                                },
                                spawn_attempts: (s.spawn_attempts + 1) as u64,
                                spawn_errors: errors,
                                ..s
                            },
                            Some(Notification::Failed),
                        )
                    }
                },
            }
        },
        (StartPhase::Polling { polls_done }, StartEvent::ProbeResult { healthy }) => {
            if healthy {
                (
                    with_running(pre, s.service, true, Notification::Running),
                    StartSession {
                        phase: StartPhase::Done { outcome: StartOutcome::Started },
                        probes_made: (s.probes_made + 1) as u64,
                        ..s
                    },
                    Some(Notification::Running),
                )
            } else if polls_done + 1 < d.poll_attempts {
                (
                    pre,
                    StartSession {
                        phase: StartPhase::Polling { polls_done: (polls_done + 1) as u32 },
                        probes_made: (s.probes_made + 1) as u64,
                        ..s
                    },
                    None,
                )
            } else {
                (
                    with_running(pre, s.service, false, Notification::Failed),
                    StartSession {
                        phase: StartPhase::Done { outcome: StartOutcome::NeverHealthy },
                        probes_made: (s.probes_made + 1) as u64,
                        ..s
                    },
                    Some(Notification::Failed),
                )
            }
        },
        _ => (pre, s, None),
    }
}

/// What `stop` does: the handle (if any) leaves the registry, the flag
/// goes to false and "stopped" is recorded — whatever the prior state.
pub open spec fn stop_spec(pre: Supervisor, service: ServiceId) -> (
    Supervisor,
    Option<u64>,
    Notification,
) {
    (
        with_handle(with_running(pre, service, false, Notification::Stopped), service, None),
        pre.handle_of(service),
        Notification::Stopped,
    )
}

impl Supervisor {
    /// Builds a supervisor over the two given service configurations, with
    /// neither service running, an empty registry, and no notification
    /// recorded yet.
    pub fn new(primary: ServiceDescriptor, secondary: ServiceDescriptor) -> (r: Supervisor)
        requires
            primary.wf(),
            secondary.wf(),
        ensures
            r.wf(),
            r.primary_desc == primary,
            r.secondary_desc == secondary,
            !r.state.server_running,
            !r.state.mcp_running,
            r.primary_handle is None,
            r.secondary_handle is None,
            r.primary_note is None,
            r.secondary_note is None,
    {
        let api_url = primary.base_url();
        let mcp_url = secondary.base_url();
        let server_port = primary.port;
        let mcp_port = secondary.port;
        Supervisor {
            state: AppState {
                server_running: false,
                server_port,
                api_url,
                mcp_running: false,
                mcp_port,
                mcp_url,
            },
            primary_desc: primary,
            secondary_desc: secondary,
            primary_handle: None,
            secondary_handle: None,
            primary_note: None,
            secondary_note: None,
        }
    }

    /// The launch configuration of one service.
    pub fn descriptor(&self, service: ServiceId) -> (r: &ServiceDescriptor)
        ensures
            *r == self.desc_of(service),
    {
        match service {
            ServiceId::Primary => &self.primary_desc,
            ServiceId::Secondary => &self.secondary_desc,
        }
    }

    /// Pure read of the committed running flag: answers from the last
    /// value the supervisor committed, never probes, never blocks.
    pub fn get_status(&self, service: ServiceId) -> (r: bool)
        ensures
            r == self.running_of(service),
    {
        match service {
            ServiceId::Primary => self.state.server_running,
            ServiceId::Secondary => self.state.mcp_running,
        }
    }

    /// Pure read of the committed base URL.
    pub fn get_base_url(&self, service: ServiceId) -> (r: String)
        ensures
            r@ == self.base_url_of(service),
    {
        match service {
            ServiceId::Primary => self.state.api_url.clone(),
            ServiceId::Secondary => self.state.mcp_url.clone(),
        }
    }

    /// The embedder's token for the service's live child, if one is
    /// registered.
    pub fn handle_token(&self, service: ServiceId) -> (r: Option<u64>)
        ensures
            r == self.handle_of(service),
    {
        match service {
            ServiceId::Primary => self.primary_handle,
            ServiceId::Secondary => self.secondary_handle,
        }
    }

    /// Commits one service's running flag together with the notification
    /// that announces it.
    fn commit_running(&mut self, service: ServiceId, running: bool, note: Notification)
        ensures
            *final(self) == with_running(*old(self), service, running, note),
    {
        match service {
            ServiceId::Primary => {
                self.state.server_running = running;
                self.primary_note = Some(note);
            },
            ServiceId::Secondary => {
                self.state.mcp_running = running;
                self.secondary_note = Some(note);
            },
        }
    }

    /// Replaces one service's registry entry.
    fn set_handle(&mut self, service: ServiceId, handle: Option<u64>)
        ensures
            *final(self) == with_handle(*old(self), service, handle),
    {
        match service {
            ServiceId::Primary => {
                self.primary_handle = handle;
            },
            ServiceId::Secondary => {
                self.secondary_handle = handle;
            },
        }
    }

    /// Opens a start session for one service. The first action is the
    /// idempotence probe: nothing is spawned before the service was seen
    /// unhealthy once.
    pub fn start_begin(&self, service: ServiceId) -> (s: StartSession)
        ensures
            s == begin_spec(service),
            session_inv(self, s),
    {
        StartSession {
            service,
            phase: StartPhase::InitialProbe,
            probes_made: 0,
            spawn_attempts: 0,
            spawn_errors: 0,
        }
    }

    /// The next action the embedder must perform for this session.
    pub fn start_action(&self, s: &StartSession) -> (a: StartAction)
        requires
            self.wf(),
            session_inv(self, *s),
        ensures
            (match s.phase {
                StartPhase::InitialProbe => a is Probe,
                StartPhase::Spawning { next } => a matches StartAction::Attempt { strategy }
                    && strategy_at_spec(&self.desc_of(s.service), next as int, strategy),
                StartPhase::Polling { .. } => a matches StartAction::WaitThenProbe { seconds }
                    && seconds == self.desc_of(s.service).poll_interval_seconds,
                StartPhase::Done { .. } => a is Finished,
            }),
    {
        match s.phase {
            StartPhase::InitialProbe => StartAction::Probe,
            StartPhase::Spawning { next } => StartAction::Attempt {
                strategy: strategy_at(self.descriptor(s.service), next),
            },
            StartPhase::Polling { .. } => StartAction::WaitThenProbe {
                seconds: self.descriptor(s.service).poll_interval_seconds,
            },
            StartPhase::Done { .. } => StartAction::Finished,
        }
    }

    /// Consumes the result of the idempotence probe. Healthy: the service
    /// is committed running, "running" is emitted, and the session is done
    /// without one strategy having been invoked. Unhealthy: nothing is
    /// committed and the chain's first strategy is up next.
    pub fn on_initial_probe(&mut self, s: StartSession, healthy: bool) -> (r: (
        StartSession,
        Option<Notification>,
    ))
        requires
            old(self).wf(),
            session_inv(old(self), s),
            s.phase is InitialProbe,
        ensures
            final(self).wf(),
            session_inv(final(self), r.0),
            r.0.service == s.service,
            (*final(self), r.0, r.1) == step_spec(
                *old(self),
                s,
                StartEvent::ProbeResult { healthy },
            ),
            healthy ==> r.0.phase == (StartPhase::Done {
                outcome: StartOutcome::AlreadyRunning,
            }) && r.0.spawn_attempts == 0 && final(self).running_of(s.service),
            !healthy ==> *final(self) == *old(self) && r.0.phase == (StartPhase::Spawning {
                next: 0,
            }),
    {
        if healthy {
            self.commit_running(s.service, true, Notification::Running);
            (
                StartSession {
                    phase: StartPhase::Done { outcome: StartOutcome::AlreadyRunning },
                    probes_made: s.probes_made + 1,
                    ..s
                },
                Some(Notification::Running),
            )
        } else {
            (
                StartSession {
                    phase: StartPhase::Spawning { next: 0 },
                    probes_made: s.probes_made + 1,
                    ..s
                },
                None,
            )
        }
    }

    /// Consumes one spawn attempt's outcome. A live handle is committed to
    /// the registry (replacing any stale entry, which is not killed here)
    /// and polling begins. A failed attempt falls through to the next
    /// strategy; once the chain is exhausted the session is done, "failed"
    /// is emitted, and the error says whether anything was found to spawn.
    pub fn on_spawn_result(&mut self, s: StartSession, outcome: SpawnOutcome) -> (r: (
        StartSession,
        Option<Notification>,
    ))
        requires
            old(self).wf(),
            session_inv(old(self), s),
            s.phase is Spawning,
        ensures
            final(self).wf(),
            session_inv(final(self), r.0),
            r.0.service == s.service,
            (*final(self), r.0, r.1) == step_spec(
                *old(self),
                s,
                StartEvent::SpawnResult { outcome },
            ),
            outcome matches SpawnOutcome::Spawned { handle } ==> final(self).handle_of(s.service)
                == Some(handle) && r.0.phase == (StartPhase::Polling { polls_done: 0 }),
    {
        match s.phase {
            StartPhase::Spawning { next } => {
                match outcome {
                    SpawnOutcome::Spawned { handle } => {
                        self.set_handle(s.service, Some(handle));
                        (
                            StartSession {
                                phase: StartPhase::Polling { polls_done: 0 },
                                spawn_attempts: s.spawn_attempts + 1,
                                ..s
                            },
                            None,
                        )
                    },
                    _ => {
                        let errors = if let SpawnOutcome::Failed = outcome {
                            s.spawn_errors + 1
                        } else {
                            s.spawn_errors
                        };
                        if next + 1 < CHAIN_LENGTH {
                            (
                                StartSession {
                                    phase: StartPhase::Spawning { next: next + 1 },
                                    spawn_attempts: s.spawn_attempts + 1,
                                    spawn_errors: errors,
                                    ..s
                                },
                                None,
                            )
                        } else {
                            let error = if errors > 0 {
                                LaunchError::SpawnFailed
                            } else {
                                LaunchError::NoInterpreterFound
                            };
                            self.commit_running(s.service, false, Notification::Failed);
                            (
                                StartSession {
                                    phase: StartPhase::Done {
                                        outcome: StartOutcome::LaunchFailed { error },
                                    },
                                    spawn_attempts: s.spawn_attempts + 1,
                                    spawn_errors: errors,
                                    ..s
                                },
                                Some(Notification::Failed),
                            )
                        }
                    },
                }
            },
            _ => {
                proof {
                    assert(false);
                }
                (s, None)
            },
        }
    }

    /// Consumes one polling probe's result. The first healthy probe ends
    /// the loop, commits the service running and emits "running".
    /// Exhausting the budget emits "failed" and leaves the flag false; the
    /// spawned process is deliberately left running.
    pub fn on_poll_probe(&mut self, s: StartSession, healthy: bool) -> (r: (
        StartSession,
        Option<Notification>,
    ))
        requires
            old(self).wf(),
            session_inv(old(self), s),
            s.phase is Polling,
        ensures
            final(self).wf(),
            session_inv(final(self), r.0),
            r.0.service == s.service,
            (*final(self), r.0, r.1) == step_spec(
                *old(self),
                s,
                StartEvent::ProbeResult { healthy },
            ),
            healthy ==> final(self).running_of(s.service) && r.0.phase == (StartPhase::Done {
                outcome: StartOutcome::Started,
            }),
    {
        match s.phase {
            StartPhase::Polling { polls_done } => {
                if healthy {
                    self.commit_running(s.service, true, Notification::Running);
                    (
                        StartSession {
                            phase: StartPhase::Done { outcome: StartOutcome::Started },
                            probes_made: s.probes_made + 1,
                            ..s
                        },
                        Some(Notification::Running),
                    )
                } else if polls_done + 1 < self.descriptor(s.service).poll_attempts {
                    (
                        StartSession {
                            phase: StartPhase::Polling { polls_done: polls_done + 1 },
                            probes_made: s.probes_made + 1,
                            ..s
                        },
                        None,
                    )
                } else {
                    self.commit_running(s.service, false, Notification::Failed);
                    (
                        StartSession {
                            phase: StartPhase::Done { outcome: StartOutcome::NeverHealthy },
                            probes_made: s.probes_made + 1,
                            ..s
                        },
                        Some(Notification::Failed),
                    )
                }
            },
            _ => {
                proof {
                    assert(false);
                }
                (s, None)
            },
        }
    }

    /// Stops one service: takes its handle (if any) out of the registry so
    /// the embedder can terminate the child, drives the running flag to
    /// false and emits "stopped" — succeeding whatever the prior state.
    /// Termination failure is the embedder's to surface; it cannot undo
    /// this state update.
    pub fn stop(&mut self, service: ServiceId) -> (r: (Option<u64>, Notification))
        requires
            old(self).wf(),
        ensures
            final(self).wf(),
            (*final(self), r.0, r.1) == stop_spec(*old(self), service),
            !final(self).running_of(service),
            final(self).handle_of(service) is None,
            final(self).note_of(service) == Some(Notification::Stopped),
            r.0 == old(self).handle_of(service),
            r.1 == Notification::Stopped,
    {
        let taken = self.handle_token(service);
        self.commit_running(service, false, Notification::Stopped);
        self.set_handle(service, None);
        (taken, Notification::Stopped)
    }
}

/// Builds the supervisor over both services' default configurations —
/// the primary API backend on port 8900 and the secondary protocol server
/// on port 8901 — with neither service running.
pub fn default_supervisor() -> (r: Supervisor)
    ensures
        r.wf(),
        primary_descriptor_spec(&r.primary_desc),
        secondary_descriptor_spec(&r.secondary_desc),
        !r.state.server_running,
        !r.state.mcp_running,
        r.primary_handle is None,
        r.secondary_handle is None,
        r.primary_note is None,
        r.secondary_note is None,
{
    Supervisor::new(primary_descriptor(), secondary_descriptor())
}

impl StartSession {
    /// Whether the session is complete.
    pub fn is_done(&self) -> (r: bool)
        ensures
            r == (self.phase is Done),
    {
        match self.phase {
            StartPhase::Done { .. } => true,
            _ => false,
        }
    }

    /// The result a completed start reports to its direct caller: a launch
    /// failure is an error; every other completion — including an
    /// exhausted poll budget, which was already announced by its "failed"
    /// notification — is not.
    pub fn result(&self) -> (r: Result<(), LaunchError>)
        requires
            self.phase is Done,
        ensures
            (match self.phase {
                StartPhase::Done { outcome } => match outcome {
                    StartOutcome::LaunchFailed { error } => r == Err::<(), LaunchError>(error),
                    _ => r == Ok::<(), LaunchError>(()),
                },
                _ => false,
            }),
    {
        match self.phase {
            StartPhase::Done { outcome } => match outcome {
                StartOutcome::LaunchFailed { error } => Err(error),
                _ => Ok(()),
            },
            _ => {
                proof {
                    assert(false);
                }
                Ok(())
            },
        }
    }
}

} // verus!
