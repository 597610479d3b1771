//! The tunnel lifecycle: its phases, the snapshot the interface shows, and the
//! state machine that moves between phases on events of one session at a time.
use vstd::prelude::*;
use vstd::string::StringExecFns;

use crate::text::{decimal, port_text};

verus! {

/// Where a tunnel session stands.
#[derive(Debug, Clone, Copy, PartialEq, Eq, Structural)]
pub enum TunnelPhase {
    Idle,
    CheckingOrigin,
    Starting,
    VerifyingPublicUrl,
    Connected,
    Reconnecting,
    Stopping,
    Error,
    Exited,
}

/// Why a session failed.
#[derive(Debug, Clone, Copy, PartialEq, Eq, Structural)]
pub enum TunnelErrorCode {
    InvalidPort,
    OriginClosed,
    OriginUnresponsive,
    SidecarMissing,
    SidecarSpawnFailed,
    QuickTunnelConfigConflict,
    TunnelTimeout,
    TunnelServiceError,
    PublicUrlInvalid,
    NetworkLost,
    ChildExited,
    StopFailed,
}

/// A failure of the current session, as shown to the user.
#[derive(Debug, Clone, PartialEq, Eq)]
pub struct TunnelError {
    pub code: TunnelErrorCode,
    pub cause: String,
    pub exposure_active: bool,
    pub recovery: String,
}

/// What the interface shows of the tunnel.
#[derive(Debug, Clone, PartialEq, Eq)]
pub struct TunnelSnapshot {
    pub session_id: Option<String>,
    pub phase: TunnelPhase,
    pub port: Option<u16>,
    pub local_url: Option<String>,
    pub public_url: Option<String>,
    pub started_at: Option<String>,
    pub stop_at: Option<String>,
    pub origin_reachable: Option<bool>,
    pub tunnel_connected: bool,
    pub error: Option<TunnelError>,
}

/// An error answered to a command of the interface.
#[derive(Debug, Clone, PartialEq, Eq)]
pub struct CommandError {
    pub code: String,
    pub message: String,
}

/// An event that may move the tunnel machine.
#[derive(Debug, Clone, PartialEq, Eq)]
pub enum TransitionEvent {
    Begin { session_id: String, port: u16, started_at: String, stop_at: Option<String> },
    OriginAvailable { session_id: String },
    SidecarStarted { session_id: String },
    CandidateFound { session_id: String, public_url: String },
    PublicUrlVerified { session_id: String },
    ConnectionLost { session_id: String },
    ConnectionRestored { session_id: String },
    RequestStop { session_id: String },
    Stopped { session_id: String },
    Failed { session_id: String, error: TunnelError },
    ChildExited { session_id: String, error: TunnelError },
    Reset,
}

/// How an accepted event affected the machine.
#[derive(Debug, Clone, Copy, PartialEq, Eq, Structural)]
pub enum TransitionOutcome {
    Applied,
    IgnoredStale,
    Unchanged,
}

/// An event that the current phase does not allow.
#[derive(Debug, PartialEq, Eq)]
pub enum TransitionError {
    Illegal { phase: TunnelPhase, event: &'static str },
}

/// The tunnel state machine: the snapshot, and a public URL that was found but
/// not yet verified.
#[derive(Debug)]
pub struct TunnelMachine {
    snapshot: TunnelSnapshot,
    candidate_public_url: Option<String>,
}

// ---------------------------------------------------------------------------
// Models
// ---------------------------------------------------------------------------

/// The model of a `TunnelError`.
pub ghost struct ErrorModel {
    pub code: TunnelErrorCode,
    pub cause: Seq<char>,
    pub exposure_active: bool,
    pub recovery: Seq<char>,
}

/// The model of a `TunnelSnapshot`: every text by its characters.
pub ghost struct SnapshotModel {
    pub session_id: Option<Seq<char>>,
    pub phase: TunnelPhase,
    pub port: Option<u16>,
    pub local_url: Option<Seq<char>>,
    pub public_url: Option<Seq<char>>,
    pub started_at: Option<Seq<char>>,
    pub stop_at: Option<Seq<char>>,
    pub origin_reachable: Option<bool>,
    pub tunnel_connected: bool,
    pub error: Option<ErrorModel>,
}

/// The model of the machine.
pub ghost struct MachineModel {
    pub snapshot: SnapshotModel,
    pub candidate: Option<Seq<char>>,
}

/// The model of an event.
pub ghost enum EventModel {
    Begin { session_id: Seq<char>, port: u16, started_at: Seq<char>, stop_at: Option<Seq<char>> },
    OriginAvailable { session_id: Seq<char> },
    SidecarStarted { session_id: Seq<char> },
    CandidateFound { session_id: Seq<char>, public_url: Seq<char> },
    PublicUrlVerified { session_id: Seq<char> },
    ConnectionLost { session_id: Seq<char> },
    ConnectionRestored { session_id: Seq<char> },
    RequestStop { session_id: Seq<char> },
    Stopped { session_id: Seq<char> },
    Failed { session_id: Seq<char>, error: ErrorModel },
    ChildExited { session_id: Seq<char>, error: ErrorModel },
    Reset,
}

/// An optional text, by its characters.
pub open spec fn opt_text(o: Option<String>) -> Option<Seq<char>> {
    match o {
        Some(s) => Some(s@),
        None => None,
    }
}

impl View for TunnelError {
    type V = ErrorModel;

    open spec fn view(&self) -> ErrorModel {
        ErrorModel {
            code: self.code,
            cause: self.cause@,
            exposure_active: self.exposure_active,
            recovery: self.recovery@,
        }
    }
}

/// An optional error, by its model.
pub open spec fn opt_error(o: Option<TunnelError>) -> Option<ErrorModel> {
    match o {
        Some(e) => Some(e@),
        None => None,
    }
}

impl View for TunnelSnapshot {
    type V = SnapshotModel;

    open spec fn view(&self) -> SnapshotModel {
        SnapshotModel {
            session_id: opt_text(self.session_id),
            phase: self.phase,
            port: self.port,
            local_url: opt_text(self.local_url),
            public_url: opt_text(self.public_url),
            started_at: opt_text(self.started_at),
            stop_at: opt_text(self.stop_at),
            origin_reachable: self.origin_reachable,
            tunnel_connected: self.tunnel_connected,
            error: opt_error(self.error),
        }
    }
}

impl View for TransitionEvent {
    type V = EventModel;

    open spec fn view(&self) -> EventModel {
        match self {
            TransitionEvent::Begin { session_id, port, started_at, stop_at } => EventModel::Begin {
                session_id: session_id@,
                port: *port,
                started_at: started_at@,
                stop_at: opt_text(*stop_at),
            },
            TransitionEvent::OriginAvailable { session_id } => EventModel::OriginAvailable {
                session_id: session_id@,
            },
            TransitionEvent::SidecarStarted { session_id } => EventModel::SidecarStarted {
                session_id: session_id@,
            },
            TransitionEvent::CandidateFound { session_id, public_url } =>
                EventModel::CandidateFound { session_id: session_id@, public_url: public_url@ },
            TransitionEvent::PublicUrlVerified { session_id } => EventModel::PublicUrlVerified {
                session_id: session_id@,
            },
            TransitionEvent::ConnectionLost { session_id } => EventModel::ConnectionLost {
                session_id: session_id@,
            },
            TransitionEvent::ConnectionRestored { session_id } =>
                EventModel::ConnectionRestored { session_id: session_id@ },
            TransitionEvent::RequestStop { session_id } => EventModel::RequestStop {
                session_id: session_id@,
            },
            TransitionEvent::Stopped { session_id } => EventModel::Stopped {
                session_id: session_id@,
            },
            TransitionEvent::Failed { session_id, error } => EventModel::Failed {
                session_id: session_id@,
                error: error@,
            },
            TransitionEvent::ChildExited { session_id, error } => EventModel::ChildExited {
                session_id: session_id@,
                error: error@,
            },
            TransitionEvent::Reset => EventModel::Reset,
        }
    }
}

impl View for TunnelMachine {
    type V = MachineModel;

    closed spec fn view(&self) -> MachineModel {
        MachineModel { snapshot: self.snapshot@, candidate: opt_text(self.candidate_public_url) }
    }
}

/// The model of a rejected transition: the phase and the event's name.
pub open spec fn transition_error_model(e: TransitionError) -> (TunnelPhase, Seq<char>) {
    match e {
        TransitionError::Illegal { phase, event } => (phase, event@),
    }
}

/// The model of what `apply` returns.
pub open spec fn apply_result_model(r: Result<TransitionOutcome, TransitionError>) -> Result<
    TransitionOutcome,
    (TunnelPhase, Seq<char>),
> {
    match r {
        Ok(o) => Ok(o),
        Err(e) => Err(transition_error_model(e)),
    }
}

// ---------------------------------------------------------------------------
// The specification of the machine
// ---------------------------------------------------------------------------

/// The snapshot of a machine with no session.
pub open spec fn idle_snapshot() -> SnapshotModel {
    SnapshotModel {
        session_id: None,
        phase: TunnelPhase::Idle,
        port: None,
        local_url: None,
        public_url: None,
        started_at: None,
        stop_at: None,
        origin_reachable: None,
        tunnel_connected: false,
        error: None,
    }
}

/// A machine with no session and no candidate.
pub open spec fn idle_machine() -> MachineModel {
    MachineModel { snapshot: idle_snapshot(), candidate: None }
}

/// The address of the local development server on `port`.
pub open spec fn local_url_of(port: u16) -> Seq<char> {
    "http://127.0.0.1:"@ + decimal(port as nat)
}

/// The session an event belongs to; `Reset` belongs to none.
pub open spec fn event_session(e: EventModel) -> Option<Seq<char>> {
    match e {
        EventModel::Begin { session_id, .. } => Some(session_id),
        EventModel::OriginAvailable { session_id } => Some(session_id),
        EventModel::SidecarStarted { session_id } => Some(session_id),
        EventModel::CandidateFound { session_id, .. } => Some(session_id),
        EventModel::PublicUrlVerified { session_id } => Some(session_id),
        EventModel::ConnectionLost { session_id } => Some(session_id),
        EventModel::ConnectionRestored { session_id } => Some(session_id),
        EventModel::RequestStop { session_id } => Some(session_id),
        EventModel::Stopped { session_id } => Some(session_id),
        EventModel::Failed { session_id, .. } => Some(session_id),
        EventModel::ChildExited { session_id, .. } => Some(session_id),
        EventModel::Reset => None,
    }
}

/// The name of an event, as a rejected transition reports it.
pub open spec fn event_name(e: EventModel) -> Seq<char> {
    match e {
        EventModel::Begin { .. } => "begin"@,
        EventModel::OriginAvailable { .. } => "origin_available"@,
        EventModel::SidecarStarted { .. } => "sidecar_started"@,
        EventModel::CandidateFound { .. } => "candidate_found"@,
        EventModel::PublicUrlVerified { .. } => "public_url_verified"@,
        EventModel::ConnectionLost { .. } => "connection_lost"@,
        EventModel::ConnectionRestored { .. } => "connection_restored"@,
        EventModel::RequestStop { .. } => "request_stop"@,
        EventModel::Stopped { .. } => "stopped"@,
        EventModel::Failed { .. } => "failed"@,
        EventModel::ChildExited { .. } => "child_exited"@,
        EventModel::Reset => "reset"@,
    }
}

/// An event of another session than the active one (`Begin` and `Reset` are
/// never stale).
pub open spec fn is_stale(m: MachineModel, e: EventModel) -> bool {
    is_stale_for(m.snapshot.session_id, e)
}

/// An event of another session than `active` (`Begin` and `Reset` are never stale).
pub open spec fn is_stale_for(active: Option<Seq<char>>, e: EventModel) -> bool {
    !(e is Begin || e is Reset) && event_session(e) != active
}

/// The phases from which a new session may begin, and in which `Reset` is allowed.
pub open spec fn is_at_rest(phase: TunnelPhase) -> bool {
    phase == TunnelPhase::Idle || phase == TunnelPhase::Error || phase == TunnelPhase::Exited
}

/// The phases of a session that is under way, before it is asked to stop.
pub open spec fn is_under_way(phase: TunnelPhase) -> bool {
    phase == TunnelPhase::CheckingOrigin || phase == TunnelPhase::Starting || phase
        == TunnelPhase::VerifyingPublicUrl || phase == TunnelPhase::Connected || phase
        == TunnelPhase::Reconnecting
}

/// What one event does to the machine: the next machine, and the outcome or the
/// rejection (phase and event name).
pub open spec fn step(m: MachineModel, e: EventModel) -> (
    MachineModel,
    Result<TransitionOutcome, (TunnelPhase, Seq<char>)>,
) {
    let s = m.snapshot;
    let phase = s.phase;
    let illegal = (m, Err((phase, event_name(e))));
    if is_stale(m, e) {
        (m, Ok(TransitionOutcome::IgnoredStale))
    } else {
        match e {
            EventModel::Begin { session_id, port, started_at, stop_at } => if is_at_rest(phase) {
                (
                    MachineModel {
                        snapshot: SnapshotModel {
                            session_id: Some(session_id),
                            phase: TunnelPhase::CheckingOrigin,
                            port: Some(port),
                            local_url: Some(local_url_of(port)),
                            started_at: Some(started_at),
                            stop_at: stop_at,
                            ..idle_snapshot()
                        },
                        candidate: None,
                    },
                    Ok(TransitionOutcome::Applied),
                )
            } else {
                illegal
            },
            EventModel::OriginAvailable { .. } => if phase == TunnelPhase::CheckingOrigin {
                (
                    MachineModel {
                        snapshot: SnapshotModel {
                            origin_reachable: Some(true),
                            phase: TunnelPhase::Starting,
                            ..s
                        },
                        ..m
                    },
                    Ok(TransitionOutcome::Applied),
                )
            } else {
                illegal
            },
            EventModel::SidecarStarted { .. } => if phase == TunnelPhase::Starting {
                (m, Ok(TransitionOutcome::Unchanged))
            } else {
                illegal
            },
            EventModel::CandidateFound { public_url, .. } => if phase == TunnelPhase::Starting {
                (
                    MachineModel {
                        snapshot: SnapshotModel { phase: TunnelPhase::VerifyingPublicUrl, ..s },
                        candidate: Some(public_url),
                    },
                    Ok(TransitionOutcome::Applied),
                )
            } else {
                illegal
            },
            EventModel::PublicUrlVerified { .. } => if phase == TunnelPhase::VerifyingPublicUrl {
                (
                    MachineModel {
                        snapshot: SnapshotModel {
                            public_url: m.candidate,
                            tunnel_connected: true,
                            phase: TunnelPhase::Connected,
                            ..s
                        },
                        candidate: None,
                    },
                    Ok(TransitionOutcome::Applied),
                )
            } else {
                illegal
            },
            EventModel::ConnectionLost { .. } => if phase == TunnelPhase::Connected {
                (
                    MachineModel {
                        snapshot: SnapshotModel {
                            tunnel_connected: false,
                            origin_reachable: Some(false),
                            phase: TunnelPhase::Reconnecting,
                            ..s
                        },
                        ..m
                    },
                    Ok(TransitionOutcome::Applied),
                )
            } else {
                illegal
            },
            EventModel::ConnectionRestored { .. } => if phase == TunnelPhase::Reconnecting {
                (
                    MachineModel {
                        snapshot: SnapshotModel {
                            tunnel_connected: true,
                            origin_reachable: Some(true),
                            phase: TunnelPhase::Connected,
                            ..s
                        },
                        ..m
                    },
                    Ok(TransitionOutcome::Applied),
                )
            } else {
                illegal
            },
            EventModel::RequestStop { .. } => if phase == TunnelPhase::Stopping {
                (m, Ok(TransitionOutcome::Unchanged))
            } else if is_under_way(phase) || phase == TunnelPhase::Error {
                (
                    MachineModel {
                        snapshot: SnapshotModel {
                            phase: TunnelPhase::Stopping,
                            tunnel_connected: false,
                            ..s
                        },
                        ..m
                    },
                    Ok(TransitionOutcome::Applied),
                )
            } else {
                illegal
            },
            EventModel::Stopped { .. } => if phase == TunnelPhase::Stopping {
                (idle_machine(), Ok(TransitionOutcome::Applied))
            } else {
                illegal
            },
            EventModel::Failed { error, .. } => if is_under_way(phase) || phase
                == TunnelPhase::Stopping {
                (
                    MachineModel {
                        snapshot: SnapshotModel {
                            phase: TunnelPhase::Error,
                            tunnel_connected: error.exposure_active,
                            public_url: if error.exposure_active {
                                s.public_url
                            } else {
                                None
                            },
                            error: Some(error),
                            ..s
                        },
                        candidate: if error.exposure_active {
                            m.candidate
                        } else {
                            None
                        },
                    },
                    Ok(TransitionOutcome::Applied),
                )
            } else {
                illegal
            },
            EventModel::ChildExited { error, .. } => if phase == TunnelPhase::Connected || phase
                == TunnelPhase::Reconnecting {
                (
                    MachineModel {
                        snapshot: SnapshotModel {
                            phase: TunnelPhase::Exited,
                            tunnel_connected: false,
                            public_url: None,
                            error: Some(error),
                            ..s
                        },
                        candidate: None,
                    },
                    Ok(TransitionOutcome::Applied),
                )
            } else {
                illegal
            },
            EventModel::Reset => if is_at_rest(phase) {
                if s == idle_snapshot() {
                    (m, Ok(TransitionOutcome::Unchanged))
                } else {
                    (idle_machine(), Ok(TransitionOutcome::Applied))
                }
            } else {
                illegal
            },
        }
    }
}

// ---------------------------------------------------------------------------
// Executable code
// ---------------------------------------------------------------------------

/// A text made from a literal.
fn text(s: &str) -> (r: String)
    ensures
        r@ == s@,
{
    s.to_owned()
}

impl TunnelError {
    /// A copy of this error.
    pub fn duplicate(&self) -> (r: TunnelError)
        ensures
            r@ == self@,
    {
        TunnelError {
            code: self.code,
            cause: self.cause.clone(),
            exposure_active: self.exposure_active,
            recovery: self.recovery.clone(),
        }
    }
}

/// A copy of an optional text.
fn copy_text(o: &Option<String>) -> (r: Option<String>)
    ensures
        opt_text(r) == opt_text(*o),
{
    match o {
        Some(s) => Some(s.clone()),
        None => None,
    }
}

impl TunnelSnapshot {
    /// The snapshot of a machine with no session.
    pub fn idle() -> (r: TunnelSnapshot)
        ensures
            r@ == idle_snapshot(),
    {
        TunnelSnapshot {
            session_id: None,
            phase: TunnelPhase::Idle,
            port: None,
            local_url: None,
            public_url: None,
            started_at: None,
            stop_at: None,
            origin_reachable: None,
            tunnel_connected: false,
            error: None,
        }
    }

    /// Whether this is the snapshot of a machine with no session.
    pub fn is_idle(&self) -> (r: bool)
        ensures
            r == (self@ == idle_snapshot()),
    {
        self.session_id.is_none() && self.phase == TunnelPhase::Idle && self.port.is_none()
            && self.local_url.is_none() && self.public_url.is_none() && self.started_at.is_none()
            && self.stop_at.is_none() && self.origin_reachable.is_none() && !self.tunnel_connected
            && self.error.is_none()
    }

    /// A copy of this snapshot.
    pub fn duplicate(&self) -> (r: TunnelSnapshot)
        ensures
            r@ == self@,
    {
        TunnelSnapshot {
            session_id: copy_text(&self.session_id),
            phase: self.phase,
            port: self.port,
            local_url: copy_text(&self.local_url),
            public_url: copy_text(&self.public_url),
            started_at: copy_text(&self.started_at),
            stop_at: copy_text(&self.stop_at),
            origin_reachable: self.origin_reachable,
            tunnel_connected: self.tunnel_connected,
            error: match &self.error {
                Some(e) => Some(e.duplicate()),
                None => None,
            },
        }
    }
}

impl Default for TunnelSnapshot {
    fn default() -> (r: TunnelSnapshot)
        ensures
            r@ == idle_snapshot(),
    {
        TunnelSnapshot::idle()
    }
}

impl CommandError {
    /// An error with the given code and message.
    pub fn new(code: &str, message: &str) -> (r: CommandError)
        ensures
            r.code@ == code@,
            r.message@ == message@,
    {
        CommandError { code: text(code), message: text(message) }
    }

    /// The answer to a port outside `1..=65535`.
    pub fn invalid_port() -> (r: CommandError)
        ensures
            r.code@ == "INVALID_PORT"@,
            r.message@ == "Enter a port from 1 through 65535."@,
    {
        Self::new("INVALID_PORT", "Enter a port from 1 through 65535.")
    }

    /// The answer when the shared state cannot be read or written.
    pub fn state_unavailable() -> (r: CommandError)
        ensures
            r.code@ == "STATE_UNAVAILABLE"@,
            r.message@ == "Tunnel state is temporarily unavailable."@,
    {
        Self::new("STATE_UNAVAILABLE", "Tunnel state is temporarily unavailable.")
    }
}

impl TransitionEvent {
    /// The session this event belongs to; `Reset` belongs to none.
    pub fn session_id(&self) -> (r: Option<&String>)
        ensures
            match r {
                Some(s) => event_session(self@) == Some(s@),
                None => event_session(self@) is None,
            },
    {
        match self {
            TransitionEvent::Begin { session_id, .. } => Some(session_id),
            TransitionEvent::OriginAvailable { session_id } => Some(session_id),
            TransitionEvent::SidecarStarted { session_id } => Some(session_id),
            TransitionEvent::CandidateFound { session_id, .. } => Some(session_id),
            TransitionEvent::PublicUrlVerified { session_id } => Some(session_id),
            TransitionEvent::ConnectionLost { session_id } => Some(session_id),
            TransitionEvent::ConnectionRestored { session_id } => Some(session_id),
            TransitionEvent::RequestStop { session_id } => Some(session_id),
            TransitionEvent::Stopped { session_id } => Some(session_id),
            TransitionEvent::Failed { session_id, .. } => Some(session_id),
            TransitionEvent::ChildExited { session_id, .. } => Some(session_id),
            TransitionEvent::Reset => None,
        }
    }

    /// The name of this event.
    pub fn name(&self) -> (r: &'static str)
        ensures
            r@ == event_name(self@),
    {
        match self {
            TransitionEvent::Begin { .. } => "begin",
            TransitionEvent::OriginAvailable { .. } => "origin_available",
            TransitionEvent::SidecarStarted { .. } => "sidecar_started",
            TransitionEvent::CandidateFound { .. } => "candidate_found",
            TransitionEvent::PublicUrlVerified { .. } => "public_url_verified",
            TransitionEvent::ConnectionLost { .. } => "connection_lost",
            TransitionEvent::ConnectionRestored { .. } => "connection_restored",
            TransitionEvent::RequestStop { .. } => "request_stop",
            TransitionEvent::Stopped { .. } => "stopped",
            TransitionEvent::Failed { .. } => "failed",
            TransitionEvent::ChildExited { .. } => "child_exited",
            TransitionEvent::Reset => "reset",
        }
    }

    /// Whether this event belongs to the given active session (`Begin` and
    /// `Reset` always do).
    fn is_current(&self, active: &Option<String>) -> (r: bool)
        ensures
            r == !is_stale_for(opt_text(*active), self@),
    {
        match self {
            TransitionEvent::Begin { .. } | TransitionEvent::Reset => true,
            _ => match (self.session_id(), active) {
                (Some(ours), Some(theirs)) => *ours == *theirs,
                (None, None) => true,
                _ => false,
            },
        }
    }
}

/// The address of the local development server on `port`.
fn local_url(port: u16) -> (r: String)
    ensures
        r@ == local_url_of(port),
{
    let mut r = text("http://127.0.0.1:");
    let digits = port_text(port);
    r.append(digits.as_str());
    r
}

impl Default for TunnelMachine {
    fn default() -> (r: TunnelMachine)
        ensures
            r@ == idle_machine(),
    {
        TunnelMachine { snapshot: TunnelSnapshot::idle(), candidate_public_url: None }
    }
}

impl TunnelMachine {
    /// A machine with no session.
    pub fn new() -> (r: TunnelMachine)
        ensures
            r@ == idle_machine(),
    {
        TunnelMachine { snapshot: TunnelSnapshot::idle(), candidate_public_url: None }
    }

    /// The current snapshot.
    pub fn snapshot(&self) -> (r: &TunnelSnapshot)
        ensures
            r@ == self@.snapshot,
    {
        &self.snapshot
    }

    /// Applies one event: `(final(self)@, outcome)` is `step(old(self)@, event@)`.
    pub fn apply(&mut self, event: TransitionEvent) -> (r: Result<TransitionOutcome, TransitionError>)
        ensures
            (final(self)@, apply_result_model(r)) == step(old(self)@, event@),
    {
        if !event.is_current(&self.snapshot.session_id) {
            return Ok(TransitionOutcome::IgnoredStale);
        }
        let phase = self.snapshot.phase;
        let name = event.name();
        let illegal = TransitionError::Illegal { phase, event: name };
        match event {
            TransitionEvent::Begin { session_id, port, started_at, stop_at } => {
                if phase == TunnelPhase::Idle || phase == TunnelPhase::Error || phase
                    == TunnelPhase::Exited {
                    let mut snapshot = TunnelSnapshot::idle();
                    snapshot.session_id = Some(session_id);
                    snapshot.phase = TunnelPhase::CheckingOrigin;
                    snapshot.port = Some(port);
                    snapshot.local_url = Some(local_url(port));
                    snapshot.started_at = Some(started_at);
                    snapshot.stop_at = stop_at;
                    self.snapshot = snapshot;
                    self.candidate_public_url = None;
                    Ok(TransitionOutcome::Applied)
                } else {
                    Err(illegal)
                }
            },
            TransitionEvent::OriginAvailable { .. } => {
                if phase == TunnelPhase::CheckingOrigin {
                    self.snapshot.origin_reachable = Some(true);
                    self.snapshot.phase = TunnelPhase::Starting;
                    Ok(TransitionOutcome::Applied)
                } else {
                    Err(illegal)
                }
            },
            TransitionEvent::SidecarStarted { .. } => {
                if phase == TunnelPhase::Starting {
                    Ok(TransitionOutcome::Unchanged)
                } else {
                    Err(illegal)
                }
            },
            TransitionEvent::CandidateFound { public_url, .. } => {
                if phase == TunnelPhase::Starting {
                    self.candidate_public_url = Some(public_url);
                    self.snapshot.phase = TunnelPhase::VerifyingPublicUrl;
                    Ok(TransitionOutcome::Applied)
                } else {
                    Err(illegal)
                }
            },
            TransitionEvent::PublicUrlVerified { .. } => {
                if phase == TunnelPhase::VerifyingPublicUrl {
                    self.snapshot.public_url = self.candidate_public_url.take();
                    self.snapshot.tunnel_connected = true;
                    self.snapshot.phase = TunnelPhase::Connected;
                    Ok(TransitionOutcome::Applied)
                } else {
                    Err(illegal)
                }
            },
            TransitionEvent::ConnectionLost { .. } => {
                if phase == TunnelPhase::Connected {
                    self.snapshot.tunnel_connected = false;
                    self.snapshot.origin_reachable = Some(false);
                    self.snapshot.phase = TunnelPhase::Reconnecting;
                    Ok(TransitionOutcome::Applied)
                } else {
                    Err(illegal)
                }
            },
            TransitionEvent::ConnectionRestored { .. } => {
                if phase == TunnelPhase::Reconnecting {
                    self.snapshot.tunnel_connected = true;
                    self.snapshot.origin_reachable = Some(true);
                    self.snapshot.phase = TunnelPhase::Connected;
                    Ok(TransitionOutcome::Applied)
                } else {
                    Err(illegal)
                }
            },
            TransitionEvent::RequestStop { .. } => {
                if phase == TunnelPhase::Stopping {
                    Ok(TransitionOutcome::Unchanged)
                } else if phase == TunnelPhase::CheckingOrigin || phase == TunnelPhase::Starting
                    || phase == TunnelPhase::VerifyingPublicUrl || phase == TunnelPhase::Connected
                    || phase == TunnelPhase::Reconnecting || phase == TunnelPhase::Error {
                    self.snapshot.phase = TunnelPhase::Stopping;
                    self.snapshot.tunnel_connected = false;
                    Ok(TransitionOutcome::Applied)
                } else {
                    Err(illegal)
                }
            },
            TransitionEvent::Stopped { .. } => {
                if phase == TunnelPhase::Stopping {
                    self.snapshot = TunnelSnapshot::idle();
                    self.candidate_public_url = None;
                    Ok(TransitionOutcome::Applied)
                } else {
                    Err(illegal)
                }
            },
            TransitionEvent::Failed { error, .. } => {
                if phase == TunnelPhase::CheckingOrigin || phase == TunnelPhase::Starting || phase
                    == TunnelPhase::VerifyingPublicUrl || phase == TunnelPhase::Connected || phase
                    == TunnelPhase::Reconnecting || phase == TunnelPhase::Stopping {
                    self.snapshot.phase = TunnelPhase::Error;
                    self.snapshot.tunnel_connected = error.exposure_active;
                    if !error.exposure_active {
                        self.snapshot.public_url = None;
                        self.candidate_public_url = None;
                    }
                    self.snapshot.error = Some(error);
                    Ok(TransitionOutcome::Applied)
                } else {
                    Err(illegal)
                }
            },
            TransitionEvent::ChildExited { error, .. } => {
                if phase == TunnelPhase::Connected || phase == TunnelPhase::Reconnecting {
                    self.snapshot.phase = TunnelPhase::Exited;
                    self.snapshot.tunnel_connected = false;
                    self.snapshot.public_url = None;
                    self.snapshot.error = Some(error);
                    self.candidate_public_url = None;
                    Ok(TransitionOutcome::Applied)
                } else {
                    Err(illegal)
                }
            },
            TransitionEvent::Reset => {
                if phase == TunnelPhase::Idle || phase == TunnelPhase::Error || phase
                    == TunnelPhase::Exited {
                    if self.snapshot.is_idle() {
                        Ok(TransitionOutcome::Unchanged)
                    } else {
                        self.snapshot = TunnelSnapshot::idle();
                        self.candidate_public_url = None;
                        Ok(TransitionOutcome::Applied)
                    }
                } else {
                    Err(illegal)
                }
            },
        }
    }
}

} // verus!
