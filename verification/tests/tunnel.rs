use locaray::state::{TransitionEvent, TunnelErrorCode, TunnelPhase};
use locaray::tunnel::{failure_event, redact_diagnostic, TunnelRuntime};

#[test]
fn redacts_public_and_local_urls() {
    let redacted =
        redact_diagnostic("route https://secret.trycloudflare.com to http://127.0.0.1:5173");
    assert!(!redacted.contains("secret"));
    assert!(!redacted.contains("5173"));
}

#[test]
fn redaction_uses_placeholders() {
    assert_eq!(
        redact_diagnostic("route https://secret.trycloudflare.com to http://127.0.0.1:5173"),
        "route [public URL redacted] to [local origin redacted]"
    );
    assert_eq!(redact_diagnostic("http://localhost:3000/x"), "[local origin redacted]/x");
    assert_eq!(redact_diagnostic("plain text"), "plain text");
}

#[test]
fn begin_clears_diagnostics_and_refuses_a_second_session() {
    let mut runtime = TunnelRuntime::new();
    runtime.push_diagnostic("old line");
    assert_eq!(runtime.diagnostics(), vec!["old line"]);
    let snapshot = runtime
        .begin("a".to_owned(), 8080, "now".to_owned(), Some("later".to_owned()), true)
        .unwrap();
    assert_eq!(snapshot.phase, TunnelPhase::CheckingOrigin);
    assert_eq!(snapshot.stop_at.as_deref(), Some("later"));
    assert!(runtime.diagnostics().is_empty());
    let error = runtime
        .begin("b".to_owned(), 8080, "now".to_owned(), None, true)
        .unwrap_err();
    assert_eq!(error.code, "TUNNEL_ALREADY_ACTIVE");
    assert_eq!(error.message, "Stop the current tunnel before starting another.");
    assert_eq!(runtime.snapshot().session_id.as_deref(), Some("a"));
}

#[test]
fn reset_is_refused_while_active() {
    let mut runtime = TunnelRuntime::new();
    runtime.begin("a".to_owned(), 80, "now".to_owned(), None, true).unwrap();
    let error = runtime.reset().unwrap_err();
    assert_eq!(error.code, "TUNNEL_ACTIVE");
    runtime
        .transition(failure_event(&"a".to_owned(), TunnelErrorCode::OriginClosed, "c", "r", false))
        .unwrap();
    let snapshot = runtime.reset().unwrap();
    assert_eq!(snapshot.phase, TunnelPhase::Idle);
    assert!(snapshot.session_id.is_none());
}

#[test]
fn output_is_recorded_redacted_unless_logging_is_off() {
    let mut runtime = TunnelRuntime::new();
    runtime.begin("a".to_owned(), 80, "now".to_owned(), None, true).unwrap();
    runtime.record_output(b"ready at https://x.trycloudflare.com");
    assert_eq!(runtime.diagnostics(), vec!["ready at [public URL redacted]"]);

    let mut quiet = TunnelRuntime::new();
    quiet.begin("a".to_owned(), 80, "now".to_owned(), None, false).unwrap();
    quiet.record_output(b"anything");
    quiet.push_diagnostic("anything else");
    assert!(quiet.diagnostics().is_empty());
}

#[test]
fn stopping_without_a_session_is_an_error() {
    let runtime = TunnelRuntime::new();
    let error = runtime.active_session().unwrap_err();
    assert_eq!(error.code, "NO_ACTIVE_TUNNEL");
    assert_eq!(error.message, "No tunnel is running.");
}

#[test]
fn a_stop_without_a_killed_process_completes_at_once() {
    let mut runtime = TunnelRuntime::new();
    runtime.begin("a".to_owned(), 80, "now".to_owned(), None, true).unwrap();
    let session = runtime.active_session().unwrap();
    assert_eq!(session, "a");
    runtime
        .transition(TransitionEvent::RequestStop { session_id: session.clone() })
        .unwrap();
    assert!(runtime.finish_stop(session.clone(), true).is_none());
    assert_eq!(runtime.snapshot().phase, TunnelPhase::Stopping);
    let snapshot = runtime.finish_stop(session, false).unwrap();
    assert_eq!(snapshot.phase, TunnelPhase::Idle);
}

#[test]
fn rejected_transitions_publish_nothing() {
    let mut runtime = TunnelRuntime::new();
    assert!(runtime.transition(TransitionEvent::Reset).is_some());
    runtime.begin("a".to_owned(), 80, "now".to_owned(), None, true).unwrap();
    assert!(runtime
        .transition(TransitionEvent::Stopped { session_id: "a".to_owned() })
        .is_none());
}
