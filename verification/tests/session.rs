use locaray::services::OriginProbe;
use locaray::session::{SessionDriver, SessionEffect, SessionInput};
use locaray::state::{CommandError, TransitionEvent, TunnelErrorCode, TunnelPhase};
use locaray::tunnel::TunnelRuntime;

/// Applies the effects that touch the runtime; returns the others' names.
fn perform(runtime: &mut TunnelRuntime, effects: Vec<SessionEffect>) -> Vec<String> {
    let mut rest = Vec::new();
    for effect in effects {
        match effect {
            SessionEffect::Apply(event) => {
                runtime.transition(event);
            }
            SessionEffect::Diagnostic(text) => runtime.push_diagnostic(&text),
            SessionEffect::RecordOutput(bytes) => runtime.record_output(&bytes),
            SessionEffect::Spawn(args) => rest.push(format!("Spawn {}", args.join(" "))),
            SessionEffect::ConfigureProxy(url) => rest.push(format!("ConfigureProxy {url}")),
            SessionEffect::ScheduleStop(minutes) => rest.push(format!("ScheduleStop {minutes}")),
            SessionEffect::ProbeOrigin => rest.push("ProbeOrigin".to_owned()),
            SessionEffect::ObservePhase => rest.push("ObservePhase".to_owned()),
            SessionEffect::PrepareConfig => rest.push("PrepareConfig".to_owned()),
            SessionEffect::StartProxy => rest.push("StartProxy".to_owned()),
            SessionEffect::ShutdownProxy => rest.push("ShutdownProxy".to_owned()),
            SessionEffect::FindSidecar => rest.push("FindSidecar".to_owned()),
            SessionEffect::Register => rest.push("Register".to_owned()),
            SessionEffect::KillChild => rest.push("KillChild".to_owned()),
            SessionEffect::KeepResources => rest.push("KeepResources".to_owned()),
            SessionEffect::ReleaseResources => rest.push("ReleaseResources".to_owned()),
            SessionEffect::ForgetChildAndShutdownProxy => {
                rest.push("ForgetChildAndShutdownProxy".to_owned())
            }
            SessionEffect::AwaitStartupOutput => rest.push("AwaitStartupOutput".to_owned()),
            SessionEffect::Monitor => rest.push("Monitor".to_owned()),
            SessionEffect::Finish => rest.push("Finish".to_owned()),
        }
    }
    rest
}

fn begun(port: u16) -> TunnelRuntime {
    let mut runtime = TunnelRuntime::new();
    runtime.begin("s".to_owned(), port, "now".to_owned(), None, true).unwrap();
    runtime
}

fn phase(runtime: &TunnelRuntime) -> TunnelPhase {
    runtime.snapshot().phase
}

#[test]
fn a_session_reaches_a_verified_public_url() {
    let mut runtime = begun(3000);
    let (mut driver, first) = SessionDriver::start("s".to_owned(), 3000, Some(30));
    assert_eq!(perform(&mut runtime, first), vec!["ProbeOrigin"]);
    let probe = OriginProbe { reachable: true, http_status: None, http_responded: false };
    let effects = driver.step(SessionInput::OriginProbed(Ok(probe)));
    assert_eq!(perform(&mut runtime, effects), vec!["ObservePhase"]);
    assert_eq!(
        runtime.diagnostics(),
        vec!["The port accepted a connection, but the HTTP probe did not complete."]
    );
    let effects = driver.step(SessionInput::PhaseObserved(phase(&runtime)));
    assert_eq!(perform(&mut runtime, effects), vec!["PrepareConfig"]);
    let effects = driver.step(SessionInput::ConfigPrepared(Ok("C:/cache/quick-tunnel.yml".to_owned())));
    assert_eq!(perform(&mut runtime, effects), vec!["StartProxy"]);
    let effects = driver.step(SessionInput::ProxyStarted(Some(41000)));
    assert_eq!(perform(&mut runtime, effects), vec!["ObservePhase"]);
    let effects = driver.step(SessionInput::PhaseObserved(phase(&runtime)));
    assert_eq!(perform(&mut runtime, effects), vec!["FindSidecar"]);
    let effects = driver.step(SessionInput::SidecarFound(true));
    assert_eq!(
        perform(&mut runtime, effects),
        vec!["Spawn tunnel --config C:/cache/quick-tunnel.yml --no-autoupdate --loglevel info --transport-loglevel warn --url http://127.0.0.1:41000"]
    );
    let effects = driver.step(SessionInput::Spawned(true));
    assert_eq!(perform(&mut runtime, effects), vec!["Register"]);
    let effects = driver.step(SessionInput::Registration { session_matches: true, phase: phase(&runtime) });
    assert_eq!(perform(&mut runtime, effects), vec!["KeepResources", "AwaitStartupOutput"]);
    let effects = driver.step(SessionInput::Output(b"INF https://quick-".to_vec()));
    assert!(perform(&mut runtime, effects).is_empty());
    let effects = driver.step(SessionInput::Output(b"test.trycloudflare.com |\n".to_vec()));
    assert_eq!(
        perform(&mut runtime, effects),
        vec!["ConfigureProxy https://quick-test.trycloudflare.com/"]
    );
    assert!(runtime.snapshot().public_url.is_none());
    let effects = driver.step(SessionInput::ProxyConfigured(true));
    assert_eq!(perform(&mut runtime, effects), vec!["ScheduleStop 30", "Monitor"]);
    let snapshot = runtime.snapshot();
    assert_eq!(snapshot.phase, TunnelPhase::Connected);
    assert_eq!(snapshot.public_url.as_deref(), Some("https://quick-test.trycloudflare.com/"));

    let effects = driver.step(SessionInput::OriginChecked(false));
    perform(&mut runtime, effects);
    assert_eq!(phase(&runtime), TunnelPhase::Reconnecting);
    let effects = driver.step(SessionInput::OriginChecked(false));
    assert!(perform(&mut runtime, effects).is_empty());
    let effects = driver.step(SessionInput::OriginChecked(true));
    perform(&mut runtime, effects);
    assert_eq!(phase(&runtime), TunnelPhase::Connected);

    let effects = driver.step(SessionInput::Terminated);
    assert_eq!(perform(&mut runtime, effects), vec!["ObservePhase"]);
    let effects = driver.step(SessionInput::PhaseObserved(phase(&runtime)));
    assert_eq!(
        perform(&mut runtime, effects),
        vec!["ForgetChildAndShutdownProxy", "Finish"]
    );
    assert!(driver.is_finished());
    let snapshot = runtime.snapshot();
    assert_eq!(snapshot.phase, TunnelPhase::Exited);
    assert!(snapshot.public_url.is_none());
    assert_eq!(snapshot.error.unwrap().code, TunnelErrorCode::ChildExited);
}

#[test]
fn a_closed_origin_fails_the_session() {
    let mut runtime = begun(3000);
    let (mut driver, _) = SessionDriver::start("s".to_owned(), 3000, None);
    let error = CommandError::new("ORIGIN_CLOSED", "Nothing is running on port 3000.");
    let effects = driver.step(SessionInput::OriginProbed(Err(error)));
    assert_eq!(perform(&mut runtime, effects), vec!["Finish"]);
    let snapshot = runtime.snapshot();
    assert_eq!(snapshot.phase, TunnelPhase::Error);
    let error = snapshot.error.unwrap();
    assert_eq!(error.code, TunnelErrorCode::OriginClosed);
    assert_eq!(error.cause, "Nothing is running on port 3000.");
    assert_eq!(error.recovery, "Start the local server, refresh services, then retry.");
    assert!(!error.exposure_active);
    let effects = driver.step(SessionInput::TimedOut);
    assert!(effects.is_empty());
}

#[test]
fn a_stop_during_startup_ends_the_session_quietly() {
    let mut runtime = begun(3000);
    let (mut driver, _) = SessionDriver::start("s".to_owned(), 3000, None);
    let probe = OriginProbe { reachable: true, http_status: Some(200), http_responded: true };
    perform(&mut runtime, driver.step(SessionInput::OriginProbed(Ok(probe))));
    runtime
        .transition(TransitionEvent::RequestStop { session_id: "s".to_owned() })
        .unwrap();
    let effects = driver.step(SessionInput::PhaseObserved(phase(&runtime)));
    assert_eq!(perform(&mut runtime, effects), vec!["Finish"]);
    assert_eq!(phase(&runtime), TunnelPhase::Stopping);
}

#[test]
fn no_public_url_in_time_is_a_timeout() {
    let mut runtime = begun(3000);
    let (mut driver, _) = SessionDriver::start("s".to_owned(), 3000, None);
    let probe = OriginProbe { reachable: true, http_status: Some(200), http_responded: true };
    perform(&mut runtime, driver.step(SessionInput::OriginProbed(Ok(probe))));
    let current = phase(&runtime);
    perform(&mut runtime, driver.step(SessionInput::PhaseObserved(current)));
    perform(&mut runtime, driver.step(SessionInput::ConfigPrepared(Ok("c".to_owned()))));
    perform(&mut runtime, driver.step(SessionInput::ProxyStarted(Some(1))));
    let current = phase(&runtime);
    perform(&mut runtime, driver.step(SessionInput::PhaseObserved(current)));
    perform(&mut runtime, driver.step(SessionInput::SidecarFound(true)));
    perform(&mut runtime, driver.step(SessionInput::Spawned(true)));
    let current = phase(&runtime);
    perform(
        &mut runtime,
        driver.step(SessionInput::Registration { session_matches: true, phase: current }),
    );
    let effects = driver.step(SessionInput::ProcessMessage(b"https://x.trycloudflare.com".to_vec()));
    assert!(perform(&mut runtime, effects).is_empty());
    let effects = driver.step(SessionInput::TimedOut);
    assert_eq!(perform(&mut runtime, effects), vec!["ReleaseResources", "ObservePhase"]);
    let effects = driver.step(SessionInput::PhaseObserved(phase(&runtime)));
    assert_eq!(perform(&mut runtime, effects), vec!["Finish"]);
    let error = runtime.snapshot().error.unwrap();
    assert_eq!(error.code, TunnelErrorCode::TunnelTimeout);
}

#[test]
fn a_missing_sidecar_shuts_the_route_down() {
    let mut runtime = begun(3000);
    let (mut driver, _) = SessionDriver::start("s".to_owned(), 3000, None);
    let probe = OriginProbe { reachable: true, http_status: Some(200), http_responded: true };
    perform(&mut runtime, driver.step(SessionInput::OriginProbed(Ok(probe))));
    let current = phase(&runtime);
    perform(&mut runtime, driver.step(SessionInput::PhaseObserved(current)));
    perform(&mut runtime, driver.step(SessionInput::ConfigPrepared(Ok("c".to_owned()))));
    perform(&mut runtime, driver.step(SessionInput::ProxyStarted(Some(1))));
    let current = phase(&runtime);
    perform(&mut runtime, driver.step(SessionInput::PhaseObserved(current)));
    let effects = driver.step(SessionInput::SidecarFound(false));
    assert_eq!(perform(&mut runtime, effects), vec!["ShutdownProxy", "Finish"]);
    assert_eq!(runtime.snapshot().error.unwrap().code, TunnelErrorCode::SidecarMissing);
}

#[test]
fn a_superseded_session_does_not_keep_its_process() {
    let mut runtime = begun(3000);
    let (mut driver, _) = SessionDriver::start("s".to_owned(), 3000, None);
    let probe = OriginProbe { reachable: true, http_status: Some(200), http_responded: true };
    perform(&mut runtime, driver.step(SessionInput::OriginProbed(Ok(probe))));
    let current = phase(&runtime);
    perform(&mut runtime, driver.step(SessionInput::PhaseObserved(current)));
    perform(&mut runtime, driver.step(SessionInput::ConfigPrepared(Ok("c".to_owned()))));
    perform(&mut runtime, driver.step(SessionInput::ProxyStarted(Some(1))));
    let current = phase(&runtime);
    perform(&mut runtime, driver.step(SessionInput::PhaseObserved(current)));
    perform(&mut runtime, driver.step(SessionInput::SidecarFound(true)));
    perform(&mut runtime, driver.step(SessionInput::Spawned(true)));
    let effects = driver.step(SessionInput::Registration { session_matches: false, phase: TunnelPhase::Starting });
    assert_eq!(perform(&mut runtime, effects), vec!["KillChild", "ShutdownProxy", "Finish"]);
}
