use locaray::commands::{
    close_requires_decision, close_response, discovery_failed, information_url, join_lines,
    require_public_url, tray_status, tray_tooltip, validate_port, CloseResponse,
    InformationResource,
};
use locaray::settings::CloseBehavior;
use locaray::state::{TunnelPhase, TunnelSnapshot};

#[test]
fn validates_port_boundaries() {
    assert_eq!(validate_port(1), Ok(1));
    assert_eq!(validate_port(65_535), Ok(65_535));
    assert!(validate_port(0).is_err());
    assert!(validate_port(65_536).is_err());
}

#[test]
fn close_only_needs_confirmation_during_an_active_lifecycle() {
    let mut snapshot = TunnelSnapshot::default();
    assert!(!close_requires_decision(&snapshot));

    snapshot.phase = TunnelPhase::Starting;
    assert!(close_requires_decision(&snapshot));

    snapshot.phase = TunnelPhase::Exited;
    snapshot.session_id = Some("finished-session".to_owned());
    assert!(!close_requires_decision(&snapshot));

    snapshot.tunnel_connected = true;
    assert!(close_requires_decision(&snapshot));
}

#[test]
fn an_invalid_port_is_answered_with_its_message() {
    let error = validate_port(70_000).unwrap_err();
    assert_eq!(error.code, "INVALID_PORT");
    assert_eq!(error.message, "Enter a port from 1 through 65535.");
}

#[test]
fn close_response_follows_the_preference_only_when_active() {
    let idle = TunnelSnapshot::default();
    assert_eq!(close_response(&idle, CloseBehavior::StopAndQuit), CloseResponse::Close);
    let mut active = TunnelSnapshot::default();
    active.phase = TunnelPhase::Connected;
    assert_eq!(close_response(&active, CloseBehavior::Ask), CloseResponse::AskUser);
    assert_eq!(
        close_response(&active, CloseBehavior::KeepRunningInTray),
        CloseResponse::HideToTray
    );
    assert_eq!(close_response(&active, CloseBehavior::StopAndQuit), CloseResponse::StopAndQuit);
}

#[test]
fn tray_texts() {
    assert_eq!(tray_status(TunnelPhase::Connected), "Publicly accessible");
    assert_eq!(tray_status(TunnelPhase::VerifyingPublicUrl), "Starting tunnel");
    assert_eq!(tray_status(TunnelPhase::Exited), "Tunnel stopped with an error");
    assert_eq!(tray_tooltip(TunnelPhase::Idle), "LocaRay: Public access off");
    assert_eq!(tray_tooltip(TunnelPhase::Stopping), "LocaRay: Stopping tunnel");
}

#[test]
fn information_pages() {
    assert_eq!(
        information_url(InformationResource::CloudflaredLicense),
        "https://github.com/cloudflare/cloudflared/blob/master/LICENSE"
    );
    assert!(information_url(InformationResource::QuickTunnelDocumentation)
        .starts_with("https://developers.cloudflare.com/"));
}

#[test]
fn public_url_is_required_for_copying() {
    let mut snapshot = TunnelSnapshot::default();
    let error = require_public_url(&snapshot).unwrap_err();
    assert_eq!(error.code, "NO_PUBLIC_URL");
    assert_eq!(error.message, "No validated public URL is available.");
    snapshot.public_url = Some("https://a.trycloudflare.com/".to_owned());
    assert_eq!(require_public_url(&snapshot), Ok("https://a.trycloudflare.com/".to_owned()));
}

#[test]
fn diagnostics_are_joined_by_line_breaks() {
    assert_eq!(join_lines(&vec![]), "");
    assert_eq!(join_lines(&vec!["one".to_owned()]), "one");
    assert_eq!(
        join_lines(&vec!["one".to_owned(), "two".to_owned(), "three".to_owned()]),
        "one\ntwo\nthree"
    );
    assert_eq!(discovery_failed().code, "DISCOVERY_FAILED");
}
