use locaray::state::{
    TransitionError, TransitionEvent, TransitionOutcome, TunnelError, TunnelErrorCode,
    TunnelMachine, TunnelPhase, TunnelSnapshot,
};

fn begin(machine: &mut TunnelMachine, session_id: &str) {
    let outcome = machine
        .apply(TransitionEvent::Begin {
            session_id: session_id.to_owned(),
            port: 3_000,
            started_at: "2026-08-30T00:00:00Z".to_owned(),
            stop_at: None,
        })
        .unwrap_or_else(|error| panic!("begin should succeed: {error:?}"));
    assert_eq!(outcome, TransitionOutcome::Applied);
}

fn connected_machine(session_id: &str) -> TunnelMachine {
    let mut machine = TunnelMachine::default();
    begin(&mut machine, session_id);
    machine
        .apply(TransitionEvent::OriginAvailable {
            session_id: session_id.to_owned(),
        })
        .unwrap_or_else(|error| panic!("origin transition should succeed: {error:?}"));
    machine
        .apply(TransitionEvent::CandidateFound {
            session_id: session_id.to_owned(),
            public_url: "https://session.trycloudflare.com".to_owned(),
        })
        .unwrap_or_else(|error| panic!("candidate transition should succeed: {error:?}"));
    machine
        .apply(TransitionEvent::PublicUrlVerified {
            session_id: session_id.to_owned(),
        })
        .unwrap_or_else(|error| panic!("verification transition should succeed: {error:?}"));
    machine
}

fn error(code: TunnelErrorCode, exposure_active: bool) -> TunnelError {
    TunnelError {
        code,
        cause: "cause".to_owned(),
        exposure_active,
        recovery: "recovery".to_owned(),
    }
}

#[test]
fn completes_the_happy_path() {
    let machine = connected_machine("session-a");
    let snapshot = machine.snapshot();

    assert_eq!(snapshot.phase, TunnelPhase::Connected);
    assert_eq!(
        snapshot.public_url.as_deref(),
        Some("https://session.trycloudflare.com")
    );
    assert!(snapshot.tunnel_connected);
}

#[test]
fn does_not_publish_a_candidate_before_verification() {
    let mut machine = TunnelMachine::default();
    begin(&mut machine, "session-a");
    machine
        .apply(TransitionEvent::OriginAvailable {
            session_id: "session-a".to_owned(),
        })
        .unwrap_or_else(|error| panic!("origin transition should succeed: {error:?}"));
    machine
        .apply(TransitionEvent::CandidateFound {
            session_id: "session-a".to_owned(),
            public_url: "https://candidate.trycloudflare.com".to_owned(),
        })
        .unwrap_or_else(|error| panic!("candidate transition should succeed: {error:?}"));

    assert_eq!(machine.snapshot().phase, TunnelPhase::VerifyingPublicUrl);
    assert!(machine.snapshot().public_url.is_none());
}

#[test]
fn ignores_events_from_a_stale_session() {
    let mut machine = connected_machine("current");
    let before = machine.snapshot().clone();
    let outcome = machine
        .apply(TransitionEvent::ConnectionLost {
            session_id: "stale".to_owned(),
        })
        .unwrap_or_else(|error| panic!("stale event should not fail: {error:?}"));

    assert_eq!(outcome, TransitionOutcome::IgnoredStale);
    assert_eq!(machine.snapshot(), &before);
}

#[test]
fn rejects_a_second_start_while_active() {
    let mut machine = TunnelMachine::default();
    begin(&mut machine, "session-a");
    let error = machine
        .apply(TransitionEvent::Begin {
            session_id: "session-b".to_owned(),
            port: 5_173,
            started_at: "2026-08-30T00:00:01Z".to_owned(),
            stop_at: None,
        })
        .expect_err("a second start must be rejected");

    assert_eq!(
        error,
        TransitionError::Illegal {
            phase: TunnelPhase::CheckingOrigin,
            event: "begin",
        }
    );
}

#[test]
fn repeated_stop_requests_are_idempotent() {
    let mut machine = connected_machine("session-a");
    let first = machine
        .apply(TransitionEvent::RequestStop {
            session_id: "session-a".to_owned(),
        })
        .unwrap_or_else(|error| panic!("first stop should succeed: {error:?}"));
    let second = machine
        .apply(TransitionEvent::RequestStop {
            session_id: "session-a".to_owned(),
        })
        .unwrap_or_else(|error| panic!("second stop should succeed: {error:?}"));

    assert_eq!(first, TransitionOutcome::Applied);
    assert_eq!(second, TransitionOutcome::Unchanged);
    assert_eq!(machine.snapshot().phase, TunnelPhase::Stopping);
}

#[test]
fn unexpected_child_exit_clears_public_exposure() {
    let mut machine = connected_machine("session-a");
    machine
        .apply(TransitionEvent::ChildExited {
            session_id: "session-a".to_owned(),
            error: TunnelError {
                code: TunnelErrorCode::ChildExited,
                cause: "The tunnel process ended unexpectedly.".to_owned(),
                exposure_active: false,
                recovery: "Retry the tunnel.".to_owned(),
            },
        })
        .unwrap_or_else(|error| panic!("child exit should succeed: {error:?}"));

    assert_eq!(machine.snapshot().phase, TunnelPhase::Exited);
    assert!(machine.snapshot().public_url.is_none());
    assert!(!machine.snapshot().tunnel_connected);
}

#[test]
fn begin_records_the_local_origin_and_session() {
    let mut machine = TunnelMachine::new();
    begin(&mut machine, "session-a");
    let snapshot = machine.snapshot();
    assert_eq!(snapshot.session_id.as_deref(), Some("session-a"));
    assert_eq!(snapshot.port, Some(3_000));
    assert_eq!(snapshot.local_url.as_deref(), Some("http://127.0.0.1:3000"));
    assert_eq!(snapshot.started_at.as_deref(), Some("2026-08-30T00:00:00Z"));
    assert_eq!(snapshot.phase, TunnelPhase::CheckingOrigin);
    assert_eq!(snapshot.origin_reachable, None);
}

#[test]
fn rejected_events_leave_the_snapshot_unchanged() {
    let mut machine = TunnelMachine::default();
    begin(&mut machine, "s");
    let before = machine.snapshot().clone();
    let error = machine
        .apply(TransitionEvent::PublicUrlVerified {
            session_id: "s".to_owned(),
        })
        .expect_err("verification before a candidate is illegal");
    assert_eq!(
        error,
        TransitionError::Illegal {
            phase: TunnelPhase::CheckingOrigin,
            event: "public_url_verified",
        }
    );
    assert_eq!(machine.snapshot(), &before);
}

#[test]
fn events_without_a_session_are_stale() {
    let mut machine = TunnelMachine::default();
    let outcome = machine.apply(TransitionEvent::RequestStop {
        session_id: "none".to_owned(),
    });
    assert_eq!(outcome, Ok(TransitionOutcome::IgnoredStale));
    assert_eq!(machine.snapshot(), &TunnelSnapshot::default());
}

#[test]
fn stop_then_stopped_returns_to_idle() {
    let mut machine = connected_machine("s");
    assert_eq!(
        machine.apply(TransitionEvent::RequestStop { session_id: "s".to_owned() }),
        Ok(TransitionOutcome::Applied)
    );
    assert!(!machine.snapshot().tunnel_connected);
    assert_eq!(
        machine.apply(TransitionEvent::Stopped { session_id: "s".to_owned() }),
        Ok(TransitionOutcome::Applied)
    );
    assert_eq!(machine.snapshot(), &TunnelSnapshot::default());
}

#[test]
fn failure_without_exposure_withdraws_the_public_url() {
    let mut machine = connected_machine("s");
    machine
        .apply(TransitionEvent::Failed {
            session_id: "s".to_owned(),
            error: error(TunnelErrorCode::NetworkLost, false),
        })
        .unwrap();
    let snapshot = machine.snapshot();
    assert_eq!(snapshot.phase, TunnelPhase::Error);
    assert!(snapshot.public_url.is_none());
    assert!(!snapshot.tunnel_connected);
    assert_eq!(snapshot.error, Some(error(TunnelErrorCode::NetworkLost, false)));
}

#[test]
fn failure_with_exposure_keeps_the_public_url() {
    let mut machine = connected_machine("s");
    machine
        .apply(TransitionEvent::Failed {
            session_id: "s".to_owned(),
            error: error(TunnelErrorCode::TunnelServiceError, true),
        })
        .unwrap();
    let snapshot = machine.snapshot();
    assert_eq!(snapshot.phase, TunnelPhase::Error);
    assert_eq!(
        snapshot.public_url.as_deref(),
        Some("https://session.trycloudflare.com")
    );
    assert!(snapshot.tunnel_connected);
}

#[test]
fn connection_loss_and_restoration() {
    let mut machine = connected_machine("s");
    machine
        .apply(TransitionEvent::ConnectionLost { session_id: "s".to_owned() })
        .unwrap();
    assert_eq!(machine.snapshot().phase, TunnelPhase::Reconnecting);
    assert_eq!(machine.snapshot().origin_reachable, Some(false));
    assert!(!machine.snapshot().tunnel_connected);
    machine
        .apply(TransitionEvent::ConnectionRestored { session_id: "s".to_owned() })
        .unwrap();
    assert_eq!(machine.snapshot().phase, TunnelPhase::Connected);
    assert_eq!(machine.snapshot().origin_reachable, Some(true));
    assert!(machine.snapshot().tunnel_connected);
}

#[test]
fn reset_is_idempotent_and_refused_while_active() {
    let mut machine = TunnelMachine::default();
    assert_eq!(machine.apply(TransitionEvent::Reset), Ok(TransitionOutcome::Unchanged));
    begin(&mut machine, "s");
    assert_eq!(
        machine.apply(TransitionEvent::Reset),
        Err(TransitionError::Illegal {
            phase: TunnelPhase::CheckingOrigin,
            event: "reset",
        })
    );
    machine
        .apply(TransitionEvent::Failed {
            session_id: "s".to_owned(),
            error: error(TunnelErrorCode::OriginClosed, false),
        })
        .unwrap();
    assert_eq!(machine.apply(TransitionEvent::Reset), Ok(TransitionOutcome::Applied));
    assert_eq!(machine.snapshot(), &TunnelSnapshot::default());
    assert_eq!(machine.apply(TransitionEvent::Reset), Ok(TransitionOutcome::Unchanged));
}

#[test]
fn a_new_session_may_begin_after_an_error() {
    let mut machine = TunnelMachine::default();
    begin(&mut machine, "old");
    machine
        .apply(TransitionEvent::Failed {
            session_id: "old".to_owned(),
            error: error(TunnelErrorCode::OriginClosed, false),
        })
        .unwrap();
    begin(&mut machine, "new");
    assert_eq!(machine.snapshot().session_id.as_deref(), Some("new"));
    assert!(machine.snapshot().error.is_none());
}

#[test]
fn sidecar_started_changes_nothing() {
    let mut machine = TunnelMachine::default();
    begin(&mut machine, "s");
    machine
        .apply(TransitionEvent::OriginAvailable { session_id: "s".to_owned() })
        .unwrap();
    let before = machine.snapshot().clone();
    assert_eq!(
        machine.apply(TransitionEvent::SidecarStarted { session_id: "s".to_owned() }),
        Ok(TransitionOutcome::Unchanged)
    );
    assert_eq!(machine.snapshot(), &before);
}

#[test]
fn event_names_and_sessions() {
    let event = TransitionEvent::ConnectionRestored { session_id: "x".to_owned() };
    assert_eq!(event.name(), "connection_restored");
    assert_eq!(event.session_id().map(String::as_str), Some("x"));
    assert_eq!(TransitionEvent::Reset.name(), "reset");
    assert!(TransitionEvent::Reset.session_id().is_none());
}

#[test]
fn command_error_constructors() {
    let invalid = locaray::state::CommandError::invalid_port();
    assert_eq!(invalid.code, "INVALID_PORT");
    assert_eq!(invalid.message, "Enter a port from 1 through 65535.");
    let unavailable = locaray::state::CommandError::state_unavailable();
    assert_eq!(unavailable.code, "STATE_UNAVAILABLE");
    assert_eq!(unavailable.message, "Tunnel state is temporarily unavailable.");
    let custom = locaray::state::CommandError::new("A", "b");
    assert_eq!(custom.code, "A");
    assert_eq!(custom.message, "b");
}
