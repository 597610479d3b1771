//! The decisions behind the application's commands: port validation, what closing
//! the window does, and the texts the interface shows.
use vstd::prelude::*;
use vstd::string::StringExecFns;

use crate::settings::CloseBehavior;
use crate::state::{is_at_rest, CommandError, TunnelPhase, TunnelSnapshot};

verus! {

/// Accepts a port from 1 through 65535.
pub fn validate_port(port: u32) -> (r: Result<u16, CommandError>)
    ensures
        r is Ok <==> 1 <= port <= 65535,
        r matches Ok(p) ==> p == port,
        r matches Err(e) ==> e.code@ == "INVALID_PORT"@ && e.message@
            == "Enter a port from 1 through 65535."@,
{
    if port >= 1 && port <= 65535 {
        Ok(port as u16)
    } else {
        Err(CommandError::invalid_port())
    }
}

/// Phases in which a tunnel is starting, running or stopping.
pub open spec fn is_active_phase(phase: TunnelPhase) -> bool {
    phase == TunnelPhase::CheckingOrigin || phase == TunnelPhase::Starting || phase
        == TunnelPhase::VerifyingPublicUrl || phase == TunnelPhase::Connected || phase
        == TunnelPhase::Reconnecting || phase == TunnelPhase::Stopping
}

/// Closing the window needs a decision while a tunnel lifecycle is active or the
/// tunnel still reports a connection.
pub fn close_requires_decision(snapshot: &TunnelSnapshot) -> (r: bool)
    ensures
        r == (is_active_phase(snapshot.phase) || snapshot.tunnel_connected),
        r <==> !(snapshot.phase == TunnelPhase::Idle || snapshot.phase == TunnelPhase::Error
            || snapshot.phase == TunnelPhase::Exited) || snapshot.tunnel_connected,
{
    let phase = snapshot.phase;
    (phase == TunnelPhase::CheckingOrigin || phase == TunnelPhase::Starting || phase
        == TunnelPhase::VerifyingPublicUrl || phase == TunnelPhase::Connected || phase
        == TunnelPhase::Reconnecting || phase == TunnelPhase::Stopping)
        || snapshot.tunnel_connected
}

/// Closing the window needs a decision whenever a session is checking its origin,
/// starting, verifying its URL, connected, reconnecting or stopping, and only then or
/// while the tunnel reports a connection: exactly the phases in which the machine
/// is not at rest.
pub proof fn law_closing_during_a_session_needs_a_decision(phase: TunnelPhase, tunnel_connected: bool)
    ensures
        phase == TunnelPhase::CheckingOrigin ==> is_active_phase(phase),
        phase == TunnelPhase::Starting ==> is_active_phase(phase),
        phase == TunnelPhase::VerifyingPublicUrl ==> is_active_phase(phase),
        phase == TunnelPhase::Connected ==> is_active_phase(phase),
        phase == TunnelPhase::Reconnecting ==> is_active_phase(phase),
        phase == TunnelPhase::Stopping ==> is_active_phase(phase),
        is_active_phase(phase) <==> !is_at_rest(phase),
        !tunnel_connected && (phase == TunnelPhase::Idle || phase == TunnelPhase::Error || phase
            == TunnelPhase::Exited) ==> !(is_active_phase(phase) || tunnel_connected),
{
}

/// What a request to close the window leads to.
#[derive(Debug, Clone, Copy, PartialEq, Eq, Structural)]
pub enum CloseResponse {
    /// Let the window close.
    Close,
    /// Keep the window and ask the user.
    AskUser,
    /// Keep the application running and hide the window.
    HideToTray,
    /// Stop the tunnel, then quit.
    StopAndQuit,
}

/// The response to a request to close the window, given the snapshot and the
/// preferred behavior.
pub fn close_response(snapshot: &TunnelSnapshot, behavior: CloseBehavior) -> (r: CloseResponse)
    ensures
        !(is_active_phase(snapshot.phase) || snapshot.tunnel_connected) ==> r
            == CloseResponse::Close,
        (is_active_phase(snapshot.phase) || snapshot.tunnel_connected) ==> r == match behavior {
            CloseBehavior::Ask => CloseResponse::AskUser,
            CloseBehavior::KeepRunningInTray => CloseResponse::HideToTray,
            CloseBehavior::StopAndQuit => CloseResponse::StopAndQuit,
        },
{
    if !close_requires_decision(snapshot) {
        return CloseResponse::Close;
    }
    match behavior {
        CloseBehavior::Ask => CloseResponse::AskUser,
        CloseBehavior::KeepRunningInTray => CloseResponse::HideToTray,
        CloseBehavior::StopAndQuit => CloseResponse::StopAndQuit,
    }
}

/// The information pages the application links to.
#[derive(Debug, Clone, Copy, PartialEq, Eq, Structural)]
pub enum InformationResource {
    QuickTunnelDocumentation,
    CloudflaredLicense,
}

/// The address of an information page.
pub fn information_url(resource: InformationResource) -> (r: &'static str)
    ensures
        resource == InformationResource::QuickTunnelDocumentation ==> r@
            == "https://developers.cloudflare.com/cloudflare-one/networks/connectors/cloudflare-tunnel/do-more-with-tunnels/trycloudflare/"@,
        resource == InformationResource::CloudflaredLicense ==> r@
            == "https://github.com/cloudflare/cloudflared/blob/master/LICENSE"@,
{
    match resource {
        InformationResource::QuickTunnelDocumentation => "https://developers.cloudflare.com/cloudflare-one/networks/connectors/cloudflare-tunnel/do-more-with-tunnels/trycloudflare/",
        InformationResource::CloudflaredLicense => "https://github.com/cloudflare/cloudflared/blob/master/LICENSE",
    }
}

/// The status the tray shows for a phase.
pub open spec fn tray_status_text(phase: TunnelPhase) -> Seq<char> {
    match phase {
        TunnelPhase::Connected => "Publicly accessible"@,
        TunnelPhase::Reconnecting => "Reconnecting"@,
        TunnelPhase::CheckingOrigin | TunnelPhase::Starting | TunnelPhase::VerifyingPublicUrl =>
            "Starting tunnel"@,
        TunnelPhase::Stopping => "Stopping tunnel"@,
        TunnelPhase::Error | TunnelPhase::Exited => "Tunnel stopped with an error"@,
        TunnelPhase::Idle => "Public access off"@,
    }
}

/// The status the tray shows for a phase.
pub fn tray_status(phase: TunnelPhase) -> (r: &'static str)
    ensures
        r@ == tray_status_text(phase),
{
    match phase {
        TunnelPhase::Connected => "Publicly accessible",
        TunnelPhase::Reconnecting => "Reconnecting",
        TunnelPhase::CheckingOrigin | TunnelPhase::Starting | TunnelPhase::VerifyingPublicUrl =>
            "Starting tunnel",
        TunnelPhase::Stopping => "Stopping tunnel",
        TunnelPhase::Error | TunnelPhase::Exited => "Tunnel stopped with an error",
        TunnelPhase::Idle => "Public access off",
    }
}

/// The tray's tooltip for a phase.
pub fn tray_tooltip(phase: TunnelPhase) -> (r: String)
    ensures
        r@ == "LocaRay: "@ + tray_status_text(phase),
{
    let mut r = "LocaRay: ".to_owned();
    r.append(tray_status(phase));
    r
}

/// The validated public URL of the snapshot, or the error that there is none.
pub fn require_public_url(snapshot: &TunnelSnapshot) -> (r: Result<String, CommandError>)
    ensures
        match snapshot.public_url {
            Some(u) => r matches Ok(s) && s@ == u@,
            None => r matches Err(e) && e.code@ == "NO_PUBLIC_URL"@ && e.message@
                == "No validated public URL is available."@,
        },
{
    match &snapshot.public_url {
        Some(u) => Ok(u.clone()),
        None => Err(CommandError::new("NO_PUBLIC_URL", "No validated public URL is available.")),
    }
}

/// The lines joined with `sep` between each two.
pub open spec fn joined(lines: Seq<Seq<char>>, sep: Seq<char>) -> Seq<char>
    decreases lines.len(),
{
    if lines.len() == 0 {
        Seq::empty()
    } else if lines.len() == 1 {
        lines[0]
    } else {
        joined(lines.drop_last(), sep) + sep + lines.last()
    }
}

/// The lines joined by line breaks, as the diagnostics are copied.
pub fn join_lines(lines: &Vec<String>) -> (r: String)
    ensures
        r@ == joined(lines@.map_values(|s: String| s@), "\n"@),
{
    let ghost all = lines@.map_values(|s: String| s@);
    let mut r = String::new();
    let mut i: usize = 0;
    while i < lines.len()
        invariant
            i <= lines.len(),
            all == lines@.map_values(|s: String| s@),
            r@ == joined(all.take(i as int), "\n"@),
        decreases lines.len() - i,
    {
        assert(all.take(i + 1).drop_last() =~= all.take(i as int));
        if i > 0 {
            r.append("\n");
        }
        r.append(lines[i].as_str());
        i = i + 1;
    }
    assert(all.take(i as int) =~= all);
    r
}

/// The error when the scan of local services fails.
pub fn discovery_failed() -> (r: CommandError)
    ensures
        r.code@ == "DISCOVERY_FAILED"@,
        r.message@ == "Local services could not be scanned."@,
{
    CommandError::new("DISCOVERY_FAILED", "Local services could not be scanned.")
}

} // verus!
