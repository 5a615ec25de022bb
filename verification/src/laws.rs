//! The supervisor's laws: properties of whole start and stop operations,
//! proved over the step relation that every executable transition is held
//! to.

use vstd::prelude::*;

use crate::launch::CHAIN_LENGTH;
use crate::service::{Notification, ServiceId};
use crate::supervisor::{
    begin_spec, session_inv, step_spec, stop_spec, SpawnOutcome, StartEvent, StartOutcome,
    StartPhase, StartSession, Supervisor,
};

verus! {

/// Folds the step relation over a sequence of events, collecting every
/// notification the run emits, in order.
pub open spec fn run_spec(pre: Supervisor, s: StartSession, events: Seq<StartEvent>) -> (
    Supervisor,
    StartSession,
    Seq<Notification>,
)
    decreases events.len(),
{
    if events.len() == 0 {
        (pre, s, Seq::empty())
    } else {
        let (mid, s1, emitted) = step_spec(pre, s, events[0]);
        let (post, s2, rest) = run_spec(mid, s1, events.drop_first());
        let head = match emitted {
            Some(n) => seq![n],
            None => Seq::<Notification>::empty(),
        };
        (post, s2, head + rest)
    }
}

/// Law (idempotent stop): stopping a service succeeds from every prior
/// state — the running flag goes to false, the registry entry is gone, the
/// notification is "stopped", and what was in the registry is handed back
/// for termination. Well-formedness survives.
pub proof fn lemma_stop_idempotent(pre: Supervisor, service: ServiceId)
    ensures
        ({
            let (post, taken, note) = stop_spec(pre, service);
            &&& !post.running_of(service)
            &&& post.handle_of(service) is None
            &&& post.note_of(service) == Some(Notification::Stopped)
            &&& note == Notification::Stopped
            &&& taken == pre.handle_of(service)
            &&& pre.wf() ==> post.wf()
        }),
{
}

/// Law (no duplicate spawn): if the idempotence probe finds the service
/// already healthy, the session completes successfully at once — zero
/// strategies invoked, no registry change, the service committed running,
/// and one "running" notification emitted.
pub proof fn lemma_no_duplicate_spawn(pre: Supervisor, service: ServiceId)
    ensures
        ({
            let s0 = begin_spec(service);
            let (post, s1, emitted) = step_spec(
                pre,
                s0,
                StartEvent::ProbeResult { healthy: true },
            );
            &&& s1.phase == (StartPhase::Done { outcome: StartOutcome::AlreadyRunning })
            &&& s1.spawn_attempts == 0
            &&& post.running_of(service)
            &&& post.handle_of(service) == pre.handle_of(service)
            &&& emitted == Some(Notification::Running)
        }),
{
}

/// Law (strategy fallthrough): a strategy that fails to spawn reports no
/// overall failure; the session moves on, and the handle the next strategy
/// produces is the one committed to the registry, after which polling
/// begins.
pub proof fn lemma_strategy_fallthrough(
    pre: Supervisor,
    s: StartSession,
    failure: SpawnOutcome,
    handle: u64,
)
    requires
        session_inv(&pre, s),
        s.phase matches StartPhase::Spawning { next } && next + 1 < CHAIN_LENGTH,
        !(failure is Spawned),
    ensures
        ({
            let (mid, s1, e1) = step_spec(pre, s, StartEvent::SpawnResult { outcome: failure });
            let (post, s2, e2) = step_spec(
                mid,
                s1,
                StartEvent::SpawnResult { outcome: SpawnOutcome::Spawned { handle } },
            );
            &&& mid == pre
            &&& e1 is None
            &&& s1.phase !is Done
            &&& s2.phase == (StartPhase::Polling { polls_done: 0 })
            &&& post.handle_of(s.service) == Some(handle)
            &&& e2 is None
        }),
{
}

/// Law (bounded polling): from a polling session, if health never becomes
/// true, the run performs exactly the remaining poll budget of probes and
/// stops: the session ends with the budget-exhausted outcome after exactly
/// `1 + poll_attempts` probes in all (the idempotence probe, then
/// `poll_attempts` polling probes), exactly one "failed" notification is
/// emitted, the service is not reported running, and the spawned handle is
/// left in the registry for an explicit stop.
pub proof fn lemma_bounded_polling(pre: Supervisor, s: StartSession, events: Seq<StartEvent>)
    requires
        session_inv(&pre, s),
        s.phase matches StartPhase::Polling { polls_done } && events.len() == pre.desc_of(
            s.service,
        ).poll_attempts - polls_done,
        forall|i: int|
            0 <= i < events.len() ==> events[i] == (StartEvent::ProbeResult { healthy: false }),
    ensures
        ({
            let (post, s2, emitted) = run_spec(pre, s, events);
            &&& s2.phase == (StartPhase::Done { outcome: StartOutcome::NeverHealthy })
            &&& s2.probes_made == 1 + pre.desc_of(s.service).poll_attempts
            &&& emitted == seq![Notification::Failed]
            &&& !post.running_of(s.service)
            &&& post.handle_of(s.service) == pre.handle_of(s.service)
            &&& pre.wf() ==> post.wf()
        }),
    decreases events.len(),
{
    let (mid, s1, e1) = step_spec(pre, s, events[0]);
    if events.len() == 1 {
        let (post, s2, emitted) = run_spec(pre, s, events);
        assert(emitted =~= seq![Notification::Failed]);
    } else {
        assert(forall|i: int|
            0 <= i < events.drop_first().len() ==> events.drop_first()[i] == (
            StartEvent::ProbeResult { healthy: false }));
        lemma_bounded_polling(mid, s1, events.drop_first());
        let (post, s2, emitted) = run_spec(pre, s, events);
        assert(emitted =~= seq![Notification::Failed]);
    }
}

/// Law (state/notification consistency): at every step, what the status
/// query will answer agrees with the notifications. A step that emits
/// records that notification as the service's last, and the committed
/// running flag is exactly what the notification implies — true for
/// "running", false for "stopped" and "failed". A step that emits nothing
/// changes neither the flag nor the recorded notification.
pub proof fn lemma_state_matches_notification(pre: Supervisor, s: StartSession, ev: StartEvent)
    requires
        pre.wf(),
    ensures
        ({
            let (post, s2, emitted) = step_spec(pre, s, ev);
            &&& post.wf()
            &&& emitted matches Some(n) ==> post.note_of(s.service) == Some(n) && (
            post.running_of(s.service) <==> n == Notification::Running)
            &&& emitted is None ==> post.note_of(s.service) == pre.note_of(s.service)
                && post.running_of(s.service) == pre.running_of(s.service)
        }),
{
}

/// Law (state/notification consistency, stop path): after a stop, the
/// status query answers false, which is what the emitted "stopped"
/// notification implies.
pub proof fn lemma_stop_state_matches_notification(pre: Supervisor, service: ServiceId)
    requires
        pre.wf(),
    ensures
        ({
            let (post, taken, note) = stop_spec(pre, service);
            &&& post.wf()
            &&& post.note_of(service) == Some(note)
            &&& !post.running_of(service)
            &&& note != Notification::Running
        }),
{
}

/// A step of one service's session touches nothing of the other service:
/// not its flag, not its registry entry, not its notification, not its
/// configuration.
pub proof fn lemma_step_isolated(
    pre: Supervisor,
    s: StartSession,
    ev: StartEvent,
    other: ServiceId,
)
    requires
        other != s.service,
    ensures
        ({
            let (post, s2, emitted) = step_spec(pre, s, ev);
            &&& post.running_of(other) == pre.running_of(other)
            &&& post.handle_of(other) == pre.handle_of(other)
            &&& post.note_of(other) == pre.note_of(other)
            &&& post.desc_of(other) == pre.desc_of(other)
            &&& post.base_url_of(other) == pre.base_url_of(other)
        }),
{
}

/// A stop of one service touches nothing of the other service.
pub proof fn lemma_stop_isolated(pre: Supervisor, service: ServiceId, other: ServiceId)
    requires
        other != service,
    ensures
        ({
            let (post, taken, note) = stop_spec(pre, service);
            &&& post.running_of(other) == pre.running_of(other)
            &&& post.handle_of(other) == pre.handle_of(other)
            &&& post.note_of(other) == pre.note_of(other)
            &&& post.desc_of(other) == pre.desc_of(other)
            &&& post.base_url_of(other) == pre.base_url_of(other)
        }),
{
}

} // verus!
