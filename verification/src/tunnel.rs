//! The tunnel's runtime state outside its processes: the state machine, the
//! diagnostics it keeps, and how process output is recorded without revealing URLs.
use vstd::prelude::*;

use crate::diagnostics::{pushed, DiagnosticBuffer};
use crate::patterns::{regex_accepts, regex_replace_all, Pattern};
use crate::state::{
    step, CommandError, MachineModel, TransitionEvent, TunnelError,
    TunnelErrorCode, TunnelMachine, TunnelSnapshot,
};
use crate::text::{lossy_from_utf8, utf8_lossy};

verus! {

/// How many bytes of diagnostics a runtime keeps.
pub const DIAGNOSTIC_LIMIT: usize = 65536;

/// The expression for public Quick Tunnel URLs in output.
pub open spec fn public_url_source() -> Seq<char> {
    r"https://[^\s]+trycloudflare\.com[^\s]*"@
}

/// The expression for local development origins in output.
pub open spec fn local_origin_source() -> Seq<char> {
    r"https?://(?:127\.0\.0\.1|localhost):\d+"@
}

/// A diagnostic line with public URLs and local origins replaced by placeholders;
/// where an expression does not compile, a fixed notice in its place.
pub open spec fn redacted(input: Seq<char>) -> Seq<char> {
    if regex_accepts(public_url_source()) && regex_accepts(local_origin_source()) {
        regex_replace_all(
            local_origin_source(),
            regex_replace_all(public_url_source(), input, "[public URL redacted]"@),
            "[local origin redacted]"@,
        )
    } else {
        "Diagnostic output could not be safely displayed."@
    }
}

/// Replaces public URLs and local origins in a diagnostic line.
pub fn redact_diagnostic(input: &str) -> (r: String)
    ensures
        r@ == redacted(input@),
{
    let public_url = Pattern::compile(r"https://[^\s]+trycloudflare\.com[^\s]*");
    let local_origin = Pattern::compile(r"https?://(?:127\.0\.0\.1|localhost):\d+");
    match (public_url, local_origin) {
        (Ok(public_url), Ok(local_origin)) => {
            let without_public = public_url.replace_all(input, "[public URL redacted]");
            local_origin.replace_all(without_public.as_str(), "[local origin redacted]")
        },
        _ => "Diagnostic output could not be safely displayed.".to_owned(),
    }
}

/// The failure event of a session.
pub fn failure_event(
    session_id: &String,
    code: TunnelErrorCode,
    cause: &str,
    recovery: &str,
    exposure_active: bool,
) -> (r: TransitionEvent)
    ensures
        r matches TransitionEvent::Failed { session_id: sid, error } && sid@ == session_id@
            && error.code == code && error.cause@ == cause@ && error.recovery@ == recovery@
            && error.exposure_active == exposure_active,
{
    TransitionEvent::Failed {
        session_id: session_id.clone(),
        error: TunnelError {
            code,
            cause: cause.to_owned(),
            exposure_active,
            recovery: recovery.to_owned(),
        },
    }
}

/// The runtime state of the tunnel that the application keeps under its lock.
pub struct TunnelRuntime {
    machine: TunnelMachine,
    diagnostics: DiagnosticBuffer,
    diagnostic_logging: bool,
}

/// The model of a runtime: the machine, the diagnostic entries, and whether output
/// is recorded.
pub ghost struct RuntimeModel {
    pub machine: MachineModel,
    pub diagnostics: Seq<Seq<char>>,
    pub diagnostic_logging: bool,
}

impl View for TunnelRuntime {
    type V = RuntimeModel;

    closed spec fn view(&self) -> RuntimeModel {
        RuntimeModel {
            machine: self.machine@,
            diagnostics: self.diagnostics@.entries,
            diagnostic_logging: self.diagnostic_logging,
        }
    }
}

/// The diagnostics after `entry` is recorded, where recording is on.
pub open spec fn with_diagnostic(m: RuntimeModel, entry: Seq<char>) -> Seq<Seq<char>> {
    if m.diagnostic_logging {
        pushed(m.diagnostics, entry, DIAGNOSTIC_LIMIT as nat)
    } else {
        m.diagnostics
    }
}

impl TunnelRuntime {
    /// The runtime's well-formedness: its diagnostics are a well-formed buffer of
    /// `DIAGNOSTIC_LIMIT` bytes.
    pub closed spec fn wf(&self) -> bool {
        self.diagnostics.wf() && self.diagnostics@.max_bytes == DIAGNOSTIC_LIMIT
    }

    /// A runtime with no session, no diagnostics, and recording on.
    pub fn new() -> (r: TunnelRuntime)
        ensures
            r.wf(),
            r@.machine == crate::state::idle_machine(),
            r@.diagnostics == Seq::<Seq<char>>::empty(),
            r@.diagnostic_logging,
    {
        TunnelRuntime {
            machine: TunnelMachine::new(),
            diagnostics: DiagnosticBuffer::new(DIAGNOSTIC_LIMIT),
            diagnostic_logging: true,
        }
    }

    /// A copy of the current snapshot.
    pub fn snapshot(&self) -> (r: TunnelSnapshot)
        ensures
            r@ == self@.machine.snapshot,
    {
        self.machine.snapshot().duplicate()
    }

    /// A copy of the diagnostic entries, oldest first.
    pub fn diagnostics(&self) -> (r: Vec<String>)
        ensures
            r@.map_values(|s: String| s@) == self@.diagnostics,
    {
        self.diagnostics.snapshot()
    }

    /// Begins a session: clears the diagnostics, sets whether output is recorded,
    /// and applies `Begin`; while a session is active this is refused.
    pub fn begin(
        &mut self,
        session_id: String,
        port: u16,
        started_at: String,
        stop_at: Option<String>,
        diagnostic_logging: bool,
    ) -> (r: Result<TunnelSnapshot, CommandError>)
        requires
            old(self).wf(),
        ensures
            final(self).wf(),
            final(self)@.diagnostics == Seq::<Seq<char>>::empty(),
            final(self)@.diagnostic_logging == diagnostic_logging,
            final(self)@.machine == step(
                old(self)@.machine,
                (TransitionEvent::Begin { session_id, port, started_at, stop_at })@,
            ).0,
            r is Ok <==> step(
                old(self)@.machine,
                (TransitionEvent::Begin { session_id, port, started_at, stop_at })@,
            ).1 is Ok,
            r matches Ok(s) ==> s@ == final(self)@.machine.snapshot,
            r matches Err(e) ==> e.code@ == "TUNNEL_ALREADY_ACTIVE"@ && e.message@
                == "Stop the current tunnel before starting another."@,
    {
        self.diagnostics.clear();
        self.diagnostic_logging = diagnostic_logging;
        let event = TransitionEvent::Begin { session_id, port, started_at, stop_at };
        match self.machine.apply(event) {
            Ok(_) => Ok(self.snapshot()),
            Err(_) => Err(
                CommandError::new(
                    "TUNNEL_ALREADY_ACTIVE",
                    "Stop the current tunnel before starting another.",
                ),
            ),
        }
    }

    /// Resets a session at rest to no session; while a session is active this is
    /// refused.
    pub fn reset(&mut self) -> (r: Result<TunnelSnapshot, CommandError>)
        requires
            old(self).wf(),
        ensures
            final(self).wf(),
            final(self)@.diagnostics == old(self)@.diagnostics,
            final(self)@.diagnostic_logging == old(self)@.diagnostic_logging,
            final(self)@.machine == step(old(self)@.machine, TransitionEvent::Reset@).0,
            r is Ok <==> step(old(self)@.machine, TransitionEvent::Reset@).1 is Ok,
            r matches Ok(s) ==> s@ == final(self)@.machine.snapshot,
            r matches Err(e) ==> e.code@ == "TUNNEL_ACTIVE"@ && e.message@
                == "Stop the current tunnel before changing the port."@,
    {
        match self.machine.apply(TransitionEvent::Reset) {
            Ok(_) => Ok(self.snapshot()),
            Err(_) => Err(
                CommandError::new("TUNNEL_ACTIVE", "Stop the current tunnel before changing the port."),
            ),
        }
    }

    /// Applies an event; returns the snapshot to publish unless the event was rejected.
    pub fn transition(&mut self, event: TransitionEvent) -> (r: Option<TunnelSnapshot>)
        requires
            old(self).wf(),
        ensures
            final(self).wf(),
            final(self)@.diagnostics == old(self)@.diagnostics,
            final(self)@.diagnostic_logging == old(self)@.diagnostic_logging,
            final(self)@.machine == step(old(self)@.machine, event@).0,
            r is Some <==> step(old(self)@.machine, event@).1 is Ok,
            r matches Some(s) ==> s@ == final(self)@.machine.snapshot,
    {
        match self.machine.apply(event) {
            Ok(_) => Some(self.snapshot()),
            Err(_) => None,
        }
    }

    /// Records a diagnostic entry where recording is on.
    pub fn push_diagnostic(&mut self, entry: &str)
        requires
            old(self).wf(),
        ensures
            final(self).wf(),
            final(self)@.machine == old(self)@.machine,
            final(self)@.diagnostic_logging == old(self)@.diagnostic_logging,
            final(self)@.diagnostics == with_diagnostic(old(self)@, entry@),
    {
        if self.diagnostic_logging {
            self.diagnostics.push(entry);
        }
    }

    /// Records a chunk of process output, decoded leniently and redacted.
    pub fn record_output(&mut self, bytes: &[u8])
        requires
            old(self).wf(),
        ensures
            final(self).wf(),
            final(self)@.machine == old(self)@.machine,
            final(self)@.diagnostic_logging == old(self)@.diagnostic_logging,
            final(self)@.diagnostics == with_diagnostic(old(self)@, redacted(utf8_lossy(bytes@))),
    {
        let text = lossy_from_utf8(bytes);
        let redacted_text = redact_diagnostic(text.as_str());
        self.push_diagnostic(redacted_text.as_str());
    }

    /// The active session, which a request to stop is about.
    pub fn active_session(&self) -> (r: Result<String, CommandError>)
        ensures
            match self@.machine.snapshot.session_id {
                Some(id) => r matches Ok(s) && s@ == id,
                None => r matches Err(e) && e.code@ == "NO_ACTIVE_TUNNEL"@ && e.message@
                    == "No tunnel is running."@,
            },
    {
        match &self.machine.snapshot().session_id {
            Some(id) => Ok(id.clone()),
            None => Err(CommandError::new("NO_ACTIVE_TUNNEL", "No tunnel is running.")),
        }
    }

    /// Completes a request to stop once the owned processes are released: where no
    /// tunnel process was killed, nothing will report its end, so the session is
    /// marked stopped here.
    pub fn finish_stop(&mut self, session_id: String, killed: bool) -> (r: Option<TunnelSnapshot>)
        requires
            old(self).wf(),
        ensures
            final(self).wf(),
            final(self)@.diagnostics == old(self)@.diagnostics,
            final(self)@.diagnostic_logging == old(self)@.diagnostic_logging,
            killed ==> final(self)@.machine == old(self)@.machine && r is None,
            !killed ==> final(self)@.machine == step(
                old(self)@.machine,
                (TransitionEvent::Stopped { session_id })@,
            ).0 && (r is Some <==> step(
                old(self)@.machine,
                (TransitionEvent::Stopped { session_id })@,
            ).1 is Ok),
    {
        if killed {
            None
        } else {
            self.transition(TransitionEvent::Stopped { session_id })
        }
    }
}

} // verus!
