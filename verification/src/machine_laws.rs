//! What holds of the tunnel machine across all events and all reachable states.
use vstd::prelude::*;

use crate::state::{
    event_name, event_session, idle_machine, is_at_rest, is_under_way, local_url_of, step,
    EventModel, MachineModel, TransitionOutcome, TunnelPhase,
};

verus! {

/// What every state reachable from the idle machine satisfies.
pub open spec fn machine_inv(m: MachineModel) -> bool {
    let s = m.snapshot;
    &&& (s.phase == TunnelPhase::Idle ==> m == idle_machine())
    &&& (s.session_id is None <==> s.phase == TunnelPhase::Idle)
    &&& (s.phase != TunnelPhase::Idle ==> s.port is Some && s.local_url == Some(
        local_url_of(s.port->0),
    ))
    &&& (s.phase == TunnelPhase::VerifyingPublicUrl ==> m.candidate is Some)
    &&& (s.public_url is Some ==> (s.phase == TunnelPhase::Connected || s.phase
        == TunnelPhase::Reconnecting || s.phase == TunnelPhase::Stopping || s.phase
        == TunnelPhase::Error))
    &&& (s.phase == TunnelPhase::Connected ==> s.public_url is Some && s.tunnel_connected)
    &&& (s.phase == TunnelPhase::Reconnecting ==> s.public_url is Some && !s.tunnel_connected)
    &&& (s.tunnel_connected ==> (s.phase == TunnelPhase::Connected || s.phase == TunnelPhase::Error))
    &&& ((s.phase == TunnelPhase::Error || s.phase == TunnelPhase::Exited) ==> s.error is Some)
}

/// The machine with no session satisfies the invariant.
pub proof fn law_idle_machine_satisfies_invariant()
    ensures
        machine_inv(idle_machine()),
{
}

/// Every event keeps the invariant: it holds of every state that a sequence of
/// events can reach from the idle machine.
pub proof fn law_step_preserves_invariant(m: MachineModel, e: EventModel)
    requires
        machine_inv(m),
    ensures
        machine_inv(step(m, e).0),
{
}

/// The machine after a sequence of events, applied in order.
pub open spec fn after_events(m: MachineModel, events: Seq<EventModel>) -> MachineModel
    decreases events.len(),
{
    if events.len() == 0 {
        m
    } else {
        after_events(step(m, events[0]).0, events.drop_first())
    }
}

/// Whether every event of a sequence, applied in order, is accepted and applied.
pub open spec fn all_applied(m: MachineModel, events: Seq<EventModel>) -> bool
    decreases events.len(),
{
    events.len() == 0 || (step(m, events[0]).1 == Ok::<TransitionOutcome, (TunnelPhase, Seq<char>)>(
        TransitionOutcome::Applied,
    ) && all_applied(step(m, events[0]).0, events.drop_first()))
}

/// Applying two sequences of events one after the other is applying their
/// concatenation.
pub proof fn lemma_after_events_concat(m: MachineModel, a: Seq<EventModel>, b: Seq<EventModel>)
    ensures
        after_events(m, a + b) == after_events(after_events(m, a), b),
        all_applied(m, a + b) == (all_applied(m, a) && all_applied(after_events(m, a), b)),
    decreases a.len(),
{
    if a.len() == 0 {
        assert(a + b =~= b);
    } else {
        assert((a + b).drop_first() =~= a.drop_first() + b);
        assert((a + b)[0] == a[0]);
        lemma_after_events_concat(step(m, a[0]).0, a.drop_first(), b);
    }
}

/// Applying one event.
pub proof fn lemma_after_one_event(m: MachineModel, e: EventModel)
    ensures
        after_events(m, seq![e]) == step(m, e).0,
        all_applied(m, seq![e]) == (step(m, e).1 == Ok::<TransitionOutcome, (TunnelPhase, Seq<char>)>(
            TransitionOutcome::Applied,
        )),
{
    assert(seq![e].drop_first() =~= Seq::<EventModel>::empty());
    assert(seq![e][0] == e);
    assert(after_events(step(m, e).0, Seq::<EventModel>::empty()) == step(m, e).0);
    assert(all_applied(step(m, e).0, Seq::<EventModel>::empty()));
}

/// Every state reached from the idle machine by any sequence of events satisfies the
/// invariant.
pub proof fn law_reachable_states_satisfy_invariant(events: Seq<EventModel>)
    ensures
        machine_inv(after_events(idle_machine(), events)),
{
    lemma_invariant_after_events(idle_machine(), events);
}

proof fn lemma_invariant_after_events(m: MachineModel, events: Seq<EventModel>)
    requires
        machine_inv(m),
    ensures
        machine_inv(after_events(m, events)),
    decreases events.len(),
{
    if events.len() > 0 {
        law_step_preserves_invariant(m, events[0]);
        lemma_invariant_after_events(step(m, events[0]).0, events.drop_first());
    }
}

/// An event of another session than the active one is ignored and changes nothing.
pub proof fn law_stale_events_are_ignored(m: MachineModel, e: EventModel)
    requires
        !(e is Begin || e is Reset),
        event_session(e) != m.snapshot.session_id,
    ensures
        step(m, e) == (m, Ok::<TransitionOutcome, (TunnelPhase, Seq<char>)>(
            TransitionOutcome::IgnoredStale,
        )),
{
}

/// A rejected event changes nothing, and the rejection names the phase and the event.
pub proof fn law_rejected_events_change_nothing(m: MachineModel, e: EventModel)
    requires
        step(m, e).1 is Err,
    ensures
        step(m, e).0 == m,
        step(m, e).1 == Err::<TransitionOutcome, (TunnelPhase, Seq<char>)>(
            (m.snapshot.phase, event_name(e)),
        ),
{
}

/// A public URL becomes visible only by verification of the candidate that was found.
pub proof fn law_public_url_appears_only_on_verification(m: MachineModel, e: EventModel)
    requires
        m.snapshot.public_url is None,
        step(m, e).0.snapshot.public_url is Some,
    ensures
        e is PublicUrlVerified,
        m.snapshot.phase == TunnelPhase::VerifyingPublicUrl,
        step(m, e).0.snapshot.public_url == m.candidate,
{
}

/// No public URL is shown before the candidate is verified.
pub proof fn law_no_public_url_before_verification(m: MachineModel)
    requires
        machine_inv(m),
        m.snapshot.phase == TunnelPhase::Idle || m.snapshot.phase == TunnelPhase::CheckingOrigin
            || m.snapshot.phase == TunnelPhase::Starting || m.snapshot.phase
            == TunnelPhase::VerifyingPublicUrl || m.snapshot.phase == TunnelPhase::Exited,
    ensures
        m.snapshot.public_url is None,
{
}

/// A second session cannot begin while one is under way or stopping.
pub proof fn law_begin_is_rejected_while_active(m: MachineModel, e: EventModel)
    requires
        e is Begin,
        !is_at_rest(m.snapshot.phase),
    ensures
        step(m, e).0 == m,
        step(m, e).1 == Err::<TransitionOutcome, (TunnelPhase, Seq<char>)>(
            (m.snapshot.phase, "begin"@),
        ),
{
}

/// A session may begin whenever the machine is at rest; it starts by checking the origin.
pub proof fn law_begin_from_rest(m: MachineModel, e: EventModel)
    requires
        e is Begin,
        is_at_rest(m.snapshot.phase),
    ensures
        step(m, e).1 == Ok::<TransitionOutcome, (TunnelPhase, Seq<char>)>(
            TransitionOutcome::Applied,
        ),
        step(m, e).0.snapshot.phase == TunnelPhase::CheckingOrigin,
        step(m, e).0.snapshot.session_id == event_session(e),
        step(m, e).0.snapshot.public_url is None,
        step(m, e).0.candidate is None,
        step(m, e).0.snapshot.local_url == Some(local_url_of(e->Begin_port)),
{
}

/// Asking again to stop a stopping session changes nothing.
pub proof fn law_repeated_stop_is_idempotent(m: MachineModel, session_id: Seq<char>)
    requires
        m.snapshot.phase == TunnelPhase::Stopping,
        m.snapshot.session_id == Some(session_id),
    ensures
        step(m, EventModel::RequestStop { session_id }) == (m, Ok::<
            TransitionOutcome,
            (TunnelPhase, Seq<char>),
        >(TransitionOutcome::Unchanged)),
{
}

/// A request to stop, then the confirmation, bring any session under way back to rest.
pub proof fn law_stop_then_stopped_returns_to_idle(m: MachineModel, session_id: Seq<char>)
    requires
        m.snapshot.session_id == Some(session_id),
        is_under_way(m.snapshot.phase) || m.snapshot.phase == TunnelPhase::Error,
    ensures
        step(step(m, EventModel::RequestStop { session_id }).0, EventModel::Stopped { session_id })
            == (idle_machine(), Ok::<TransitionOutcome, (TunnelPhase, Seq<char>)>(
            TransitionOutcome::Applied,
        )),
{
}

/// An unexpected exit of the tunnel process withdraws the public URL.
pub proof fn law_child_exit_clears_public_exposure(m: MachineModel, e: EventModel)
    requires
        e is ChildExited,
        step(m, e).1 == Ok::<TransitionOutcome, (TunnelPhase, Seq<char>)>(
            TransitionOutcome::Applied,
        ),
    ensures
        step(m, e).0.snapshot.phase == TunnelPhase::Exited,
        step(m, e).0.snapshot.public_url is None,
        !step(m, e).0.snapshot.tunnel_connected,
        step(m, e).0.candidate is None,
{
}

/// A failure that reports no active exposure withdraws the public URL and the candidate.
pub proof fn law_failure_without_exposure_clears_public_url(m: MachineModel, e: EventModel)
    requires
        e is Failed,
        !e->Failed_error.exposure_active,
        step(m, e).1 == Ok::<TransitionOutcome, (TunnelPhase, Seq<char>)>(
            TransitionOutcome::Applied,
        ),
    ensures
        step(m, e).0.snapshot.phase == TunnelPhase::Error,
        step(m, e).0.snapshot.public_url is None,
        !step(m, e).0.snapshot.tunnel_connected,
        step(m, e).0.candidate is None,
        step(m, e).0.snapshot.error == Some(e->Failed_error),
{
}

/// Resetting twice is the same as resetting once: the second reset changes nothing.
pub proof fn law_reset_is_idempotent(m: MachineModel)
    requires
        machine_inv(m),
        is_at_rest(m.snapshot.phase),
    ensures
        step(m, EventModel::Reset).0 == idle_machine(),
        step(idle_machine(), EventModel::Reset) == (idle_machine(), Ok::<
            TransitionOutcome,
            (TunnelPhase, Seq<char>),
        >(TransitionOutcome::Unchanged)),
{
}

/// An exit of the tunnel process of the active session, while a public URL is
/// shown (connected, or reconnecting after a lost connection), is accepted: the
/// machine moves to `Exited`, withdraws the URL and the connection, and records the
/// exit's error.
pub proof fn law_child_exit_is_accepted_while_exposed(m: MachineModel, e: EventModel)
    requires
        e is ChildExited,
        m.snapshot.session_id == Some(e->ChildExited_session_id),
        m.snapshot.phase == TunnelPhase::Connected || m.snapshot.phase == TunnelPhase::Reconnecting,
    ensures
        step(m, e).1 == Ok::<TransitionOutcome, (TunnelPhase, Seq<char>)>(
            TransitionOutcome::Applied,
        ),
        step(m, e).0.snapshot.phase == TunnelPhase::Exited,
        step(m, e).0.snapshot.public_url is None,
        !step(m, e).0.snapshot.tunnel_connected,
        step(m, e).0.snapshot.error == Some(e->ChildExited_error),
        step(m, e).0.snapshot.session_id == m.snapshot.session_id,
{
}

/// A stop confirmed while the machine is stopping for that session returns the
/// machine to rest with no session.
pub proof fn law_confirmed_stop_returns_to_idle(m: MachineModel, session_id: Seq<char>)
    requires
        m.snapshot.phase == TunnelPhase::Stopping,
        m.snapshot.session_id == Some(session_id),
    ensures
        step(m, EventModel::Stopped { session_id }) == (idle_machine(), Ok::<
            TransitionOutcome,
            (TunnelPhase, Seq<char>),
        >(TransitionOutcome::Applied)),
        step(m, EventModel::Stopped { session_id }).0.snapshot.phase == TunnelPhase::Idle,
        step(m, EventModel::Stopped { session_id }).0.snapshot.session_id is None,
{
}

/// Applying a sequence of events and then one more.
pub proof fn lemma_after_events_push(m: MachineModel, events: Seq<EventModel>, e: EventModel)
    ensures
        after_events(m, events.push(e)) == step(after_events(m, events), e).0,
        all_applied(m, events.push(e)) == (all_applied(m, events) && step(after_events(m, events), e).1
            == Ok::<TransitionOutcome, (TunnelPhase, Seq<char>)>(TransitionOutcome::Applied)),
{
    assert(events.push(e) =~= events + seq![e]);
    lemma_after_events_concat(m, events, seq![e]);
    lemma_after_one_event(after_events(m, events), e);
}

/// A session begun at rest that finds its origin, then a candidate URL, then
/// verifies it, is connected under exactly that URL, for its own session and port.
/// Losing the connection keeps the URL shown while reconnecting; restoring the
/// connection connects again under the same URL.
pub proof fn law_connection_lifecycle(
    m: MachineModel,
    session_id: Seq<char>,
    port: u16,
    started_at: Seq<char>,
    stop_at: Option<Seq<char>>,
    public_url: Seq<char>,
)
    requires
        is_at_rest(m.snapshot.phase),
    ensures
        ({
            let start = seq![
                EventModel::Begin { session_id, port, started_at, stop_at },
                EventModel::OriginAvailable { session_id },
                EventModel::CandidateFound { session_id, public_url },
                EventModel::PublicUrlVerified { session_id },
            ];
            let connected = after_events(m, start);
            let lost = after_events(m, start.push(EventModel::ConnectionLost { session_id }));
            let restored = after_events(
                m,
                start.push(EventModel::ConnectionLost { session_id }).push(
                    EventModel::ConnectionRestored { session_id },
                ),
            );
            &&& all_applied(m, start)
            &&& connected.snapshot.phase == TunnelPhase::Connected
            &&& connected.snapshot.session_id == Some(session_id)
            &&& connected.snapshot.public_url == Some(public_url)
            &&& connected.snapshot.tunnel_connected
            &&& connected.snapshot.local_url == Some(local_url_of(port))
            &&& all_applied(m, start.push(EventModel::ConnectionLost { session_id }))
            &&& lost.snapshot.phase == TunnelPhase::Reconnecting
            &&& lost.snapshot.public_url == Some(public_url)
            &&& !lost.snapshot.tunnel_connected
            &&& all_applied(
                m,
                start.push(EventModel::ConnectionLost { session_id }).push(
                    EventModel::ConnectionRestored { session_id },
                ),
            )
            &&& restored.snapshot.phase == TunnelPhase::Connected
            &&& restored.snapshot.public_url == Some(public_url)
            &&& restored.snapshot.tunnel_connected
        }),
{
    let b = EventModel::Begin { session_id, port, started_at, stop_at };
    let o = EventModel::OriginAvailable { session_id };
    let c = EventModel::CandidateFound { session_id, public_url };
    let v = EventModel::PublicUrlVerified { session_id };
    let l = EventModel::ConnectionLost { session_id };
    let r = EventModel::ConnectionRestored { session_id };
    let e0 = Seq::<EventModel>::empty();
    assert(after_events(m, e0) == m);
    assert(all_applied(m, e0));
    lemma_after_events_push(m, e0, b);
    assert(e0.push(b) =~= seq![b]);
    lemma_after_events_push(m, seq![b], o);
    assert(seq![b].push(o) =~= seq![b, o]);
    lemma_after_events_push(m, seq![b, o], c);
    assert(seq![b, o].push(c) =~= seq![b, o, c]);
    lemma_after_events_push(m, seq![b, o, c], v);
    assert(seq![b, o, c].push(v) =~= seq![b, o, c, v]);
    lemma_after_events_push(m, seq![b, o, c, v], l);
    lemma_after_events_push(m, seq![b, o, c, v].push(l), r);
}

/// The transition table: for an event of the active session (or a `Begin` or
/// `Reset`), the phases in which the machine accepts it, and the phase it then moves
/// to. Every other pair is refused.
pub proof fn law_transition_table(m: MachineModel, e: EventModel)
    requires
        e is Begin || e is Reset || event_session(e) == m.snapshot.session_id,
    ensures
        ({
            let p = m.snapshot.phase;
            let under_way_or = |q: TunnelPhase| p == TunnelPhase::CheckingOrigin || p
                == TunnelPhase::Starting || p == TunnelPhase::VerifyingPublicUrl || p
                == TunnelPhase::Connected || p == TunnelPhase::Reconnecting || p == q;
            let rest = p == TunnelPhase::Idle || p == TunnelPhase::Error || p == TunnelPhase::Exited;
            (step(m, e).1 is Ok) <==> match e {
                EventModel::Begin { .. } => rest,
                EventModel::Reset => rest,
                EventModel::OriginAvailable { .. } => p == TunnelPhase::CheckingOrigin,
                EventModel::SidecarStarted { .. } => p == TunnelPhase::Starting,
                EventModel::CandidateFound { .. } => p == TunnelPhase::Starting,
                EventModel::PublicUrlVerified { .. } => p == TunnelPhase::VerifyingPublicUrl,
                EventModel::ConnectionLost { .. } => p == TunnelPhase::Connected,
                EventModel::ConnectionRestored { .. } => p == TunnelPhase::Reconnecting,
                EventModel::RequestStop { .. } => under_way_or(TunnelPhase::Error) || p
                    == TunnelPhase::Stopping,
                EventModel::Stopped { .. } => p == TunnelPhase::Stopping,
                EventModel::Failed { .. } => under_way_or(TunnelPhase::Stopping),
                EventModel::ChildExited { .. } => p == TunnelPhase::Connected || p
                    == TunnelPhase::Reconnecting,
            }
        }),
        step(m, e).1 is Ok ==> step(m, e).0.snapshot.phase == match e {
            EventModel::Begin { .. } => TunnelPhase::CheckingOrigin,
            EventModel::Reset => TunnelPhase::Idle,
            EventModel::OriginAvailable { .. } => TunnelPhase::Starting,
            EventModel::SidecarStarted { .. } => TunnelPhase::Starting,
            EventModel::CandidateFound { .. } => TunnelPhase::VerifyingPublicUrl,
            EventModel::PublicUrlVerified { .. } => TunnelPhase::Connected,
            EventModel::ConnectionLost { .. } => TunnelPhase::Reconnecting,
            EventModel::ConnectionRestored { .. } => TunnelPhase::Connected,
            EventModel::RequestStop { .. } => TunnelPhase::Stopping,
            EventModel::Stopped { .. } => TunnelPhase::Idle,
            EventModel::Failed { .. } => TunnelPhase::Error,
            EventModel::ChildExited { .. } => TunnelPhase::Exited,
        },
        step(m, e).1 == Ok::<TransitionOutcome, (TunnelPhase, Seq<char>)>(
            TransitionOutcome::Unchanged,
        ) <==> ((e is SidecarStarted && m.snapshot.phase == TunnelPhase::Starting) || (
        e is RequestStop && m.snapshot.phase == TunnelPhase::Stopping) || (e is Reset
            && m.snapshot == crate::state::idle_snapshot())),
{
}

} // verus!
